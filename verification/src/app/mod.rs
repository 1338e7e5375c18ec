//! Application state: the file browser, the filter dialog, the screens and
//! the handling of actions.

pub mod actions;
pub mod file_browser;
pub mod filter_dialog;
pub mod handlers;
pub mod keys;
pub mod shell;
pub mod state;
pub mod views;

pub use actions::{Action, Effect, ListingReason, NavigationTarget};
pub use file_browser::{DirEntry, FileBrowserState, FileBrowserTarget, Navigation};
pub use filter_dialog::{FilterDialogState, FilterPresetItem, FilterTab};
pub use handlers::ActionHandler;
pub use keys::Key;
pub use state::{
    ApplicationState, BuilderField, BuilderState, InspectorState, JobEvent, LogsState,
    QueueState, Screen,
};
