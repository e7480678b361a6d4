//! A tabbed document session for a small text editor: an ordered list of open
//! tabs, the identity of the active tab, and the pure state transitions that a
//! per-frame UI loop drives (hover, select, close, edit, file drop, save).

pub mod label;
pub mod laws;
pub mod session;
