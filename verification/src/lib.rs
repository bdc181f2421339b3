//! A GUI-control binding layer over a native windowing API, centred on menus.
//!
//! The crate keeps a verified model of the windowing state it manipulates
//! (windows, menu handles, menu entries) and proves that control creation,
//! handle dispatch and cleanup follow that model exactly.  The thin layer
//! that performs the matching native calls lives outside the library.

pub mod controls;
pub mod errors;
pub mod events;
pub mod menu;
pub mod system;
pub mod ui;
