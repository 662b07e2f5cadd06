//! Viewport and selection bookkeeping for a terminal process dashboard.
//!
//! The crate keeps a bounded-height window positioned over a list of rows or
//! over wrapped text, tracks a selection cursor over that list, and manages the
//! lifecycle of a modal message popup, whose text is wrapped with bwrap.
//! Drawing and input decoding live with the caller.
pub mod popup;
pub mod scroll;
pub mod tui;
