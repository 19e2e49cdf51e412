//! Persistence rules for the size of an application's main window.

pub mod clock;
pub mod format;
pub mod laws;
pub mod manager;
pub mod state;
pub mod store;

pub use manager::WindowStateManager;
pub use state::WindowState;
pub use store::{FileRead, LoadResult, SaveAction};
