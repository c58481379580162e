//! Discovery of smart-lighting devices on a local network segment: the
//! registry of discovered devices, the validation of their registration
//! responses, and the decisions of one timed discovery pass.

pub mod bulblibrary;
pub mod discovery;
pub mod errors;
pub mod models;
pub mod push_manager;
pub mod scenes;
pub mod text;

pub use errors::WizError;
