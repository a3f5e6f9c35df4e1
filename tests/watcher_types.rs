use js_callback::{
    BindingWatcher, BindingWatcherEvent, BundleEvent, WatcherChangeKind, WatcherEvent,
};

#[test]
fn watcher_event_labels() {
    assert_eq!(WatcherEvent::Close.to_string(), "close");
    assert_eq!(WatcherEvent::Event(BundleEvent::End).to_string(), "event");
    assert_eq!(WatcherEvent::ReStart.to_string(), "restart");
}

#[test]
fn bundle_event_labels() {
    assert_eq!(BundleEvent::Start.to_string(), "START");
    assert_eq!(BundleEvent::BundleStart.to_string(), "BUNDLE_START");
    assert_eq!(BundleEvent::End.to_string(), "END");
}

#[test]
fn change_kind_labels() {
    assert_eq!(WatcherChangeKind::Create.to_string(), "create");
    assert_eq!(WatcherChangeKind::Update.to_string(), "update");
    assert_eq!(WatcherChangeKind::Delete.to_string(), "delete");
}

#[test]
fn binding_event_reports_its_kinds() {
    let e = BindingWatcherEvent::new(WatcherEvent::Event(BundleEvent::BundleStart));
    assert_eq!(e.event_kind(), "event");
    assert_eq!(e.bundle_event_kind(), "BUNDLE_START");
    assert!(matches!(e.inner(), WatcherEvent::Event(BundleEvent::BundleStart)));
    let c = BindingWatcherEvent::new(WatcherEvent::Close);
    assert_eq!(c.event_kind(), "close");
}

#[test]
fn binding_watcher_constructs() {
    let _w = BindingWatcher::new();
}
