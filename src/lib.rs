pub mod events;
pub mod formatter;
pub mod js_call;

pub use events::{
    BindingBundleEndEventData, BindingError, BindingWatcher, BindingWatcherChangeData,
    BindingWatcherEvent, BundleEndEventData, BundleEvent, WatcherChangeKind, WatcherEvent,
};
pub use formatter::prettify_type_name;
