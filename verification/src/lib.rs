//! The decision core of a select-to-translate tool: a gesture recogniser
//! over raw mouse events, the accumulation and debounce state of the poll
//! loop that turns selections into translation requests, the shared session
//! those requests read and write, and the settings with their defaults.
//! The loops themselves — listening to the OS pointer stream, sleeping,
//! reading the clipboard, calling the translation endpoint — live in the
//! shell around this crate and hand their results in as plain values.

pub mod cfg;
pub mod dispatch;
pub mod mouse;
pub mod session;
