//! A bridge from a callback-driven, reference-counted foreign object interface to
//! owned values and awaited results: dispatch-contract shims around closures,
//! conversion of raw callback arguments, single-use completion handoff, the
//! decisions of the message pump that waits, and the tables the host keeps.

pub mod binding;
pub mod bridge;
pub mod callback;
pub mod com;
pub mod completion;
pub mod handle;
pub mod pump;
pub mod webview;
pub mod wide;
pub mod window_table;

pub use webview::SizeHint;
