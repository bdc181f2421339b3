//! Common control vocabulary: the handle kinds the binding layer can hold
//! and the control kinds it can build.

use vstd::prelude::*;

verus! {

/// A handle to a native UI object.
///
/// Native handles are modelled as plain integers.  A window is identified by
/// its window handle, a menu by its menu handle, and a menu item by the
/// handle of the menu that contains it together with its identifier in that
/// menu.
#[derive(Clone, Copy, Debug, PartialEq, Eq, Structural)]
pub enum AnyHandle {
    Hwnd(u64),
    Hmenu(u64),
    HmenuItem(u64, u32),
}

/// The kind of control a template builds.
#[derive(Clone, Copy, Debug, PartialEq, Eq, Structural)]
pub enum ControlType {
    Menu,
    MenuItem,
}

} // verus!
