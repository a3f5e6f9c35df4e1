use vstd::prelude::*;
use vstd::string::StringExecFns;

verus! {

/// A notification that the file watching service sends to its listener.
#[derive(Debug)]
pub enum WatcherEvent {
    Close,
    Event(BundleEvent),
    ReStart,
}

/// The stage a bundle run has reached.
#[derive(Debug)]
pub enum BundleEvent {
    Start,
    BundleStart,
    End,
}

/// What a finished bundle run reports: where it wrote, and how long it took.
#[derive(Debug)]
pub struct BundleEndEventData {
    pub output: String,
    pub duration: u32,
}

/// How a watched file changed.
#[derive(Copy, Clone, Debug, Hash, PartialEq, Eq, Structural)]
pub enum WatcherChangeKind {
    Create,
    Update,
    Delete,
}

/// A changed file and the kind of change, as the host sees them.
pub struct BindingWatcherChangeData {
    pub path: String,
    pub kind: String,
}

/// A finished bundle run, as the host sees it.
pub struct BindingBundleEndEventData {
    pub output: String,
    pub duration: u32,
}

/// A notification, as handed to the host.
pub struct BindingWatcherEvent {
    inner: WatcherEvent,
}

/// An error as the host sees it: its kind and its message.
pub struct BindingError {
    pub kind: String,
    pub message: String,
}

/// The file watching service, as the host constructs it.
pub struct BindingWatcher {}

/// The label of a notification.
pub open spec fn watcher_event_label(e: WatcherEvent) -> Seq<char> {
    match e {
        WatcherEvent::Close => "close"@,
        WatcherEvent::Event(_) => "event"@,
        WatcherEvent::ReStart => "restart"@,
    }
}

/// The label of a bundle stage.
pub open spec fn bundle_event_label(e: BundleEvent) -> Seq<char> {
    match e {
        BundleEvent::Start => "START"@,
        BundleEvent::BundleStart => "BUNDLE_START"@,
        BundleEvent::End => "END"@,
    }
}

/// The label of a change kind.
pub open spec fn change_kind_label(k: WatcherChangeKind) -> Seq<char> {
    match k {
        WatcherChangeKind::Create => "create"@,
        WatcherChangeKind::Update => "update"@,
        WatcherChangeKind::Delete => "delete"@,
    }
}

impl WatcherEvent {
    /// The label of this notification: `close`, `event` or `restart`.
    pub fn to_string(&self) -> (r: String)
        ensures
            r@ == watcher_event_label(*self),
    {
        match self {
            WatcherEvent::Close => String::from_str("close"),
            WatcherEvent::Event(_) => String::from_str("event"),
            WatcherEvent::ReStart => String::from_str("restart"),
        }
    }
}

impl BundleEvent {
    /// The label of this stage: `START`, `BUNDLE_START` or `END`.
    pub fn to_string(&self) -> (r: String)
        ensures
            r@ == bundle_event_label(*self),
    {
        match self {
            BundleEvent::Start => String::from_str("START"),
            BundleEvent::BundleStart => String::from_str("BUNDLE_START"),
            BundleEvent::End => String::from_str("END"),
        }
    }
}

impl WatcherChangeKind {
    /// The label of this change kind: `create`, `update` or `delete`.
    pub fn to_string(&self) -> (r: String)
        ensures
            r@ == change_kind_label(*self),
    {
        match self {
            WatcherChangeKind::Create => String::from_str("create"),
            WatcherChangeKind::Update => String::from_str("update"),
            WatcherChangeKind::Delete => String::from_str("delete"),
        }
    }
}

impl BindingWatcherEvent {
    /// The notification this wraps.
    pub closed spec fn event(&self) -> WatcherEvent {
        self.inner
    }

    pub fn new(inner: WatcherEvent) -> (r: Self)
        ensures
            r.event() == inner,
    {
        Self { inner }
    }

    /// The notification this wraps.
    pub fn inner(&self) -> (r: &WatcherEvent)
        ensures
            *r == self.event(),
    {
        &self.inner
    }

    /// The label of the wrapped notification.
    pub fn event_kind(&self) -> (r: String)
        ensures
            r@ == watcher_event_label(self.event()),
    {
        self.inner.to_string()
    }

    /// The label of the bundle stage of a bundle notification.
    pub fn bundle_event_kind(&self) -> (r: String)
        requires
            self.event() is Event,
        ensures
            r@ == bundle_event_label(self.event()->Event_0),
    {
        match &self.inner {
            WatcherEvent::Event(kind) => kind.to_string(),
            WatcherEvent::Close | WatcherEvent::ReStart => {
                proof {
                    assert(false);
                }
                String::new()
            },
        }
    }
}

impl BindingWatcher {
    /// A new service; making one never fails.
    pub fn new() -> (r: Self) {
        Self {  }
    }
}

} // verus!
