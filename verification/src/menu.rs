//! Menu controls: templates that build menus and menu items under a window
//! or under another menu, and the controls the builds hand back.
//!
//! A menu built under a window hangs off the window's menu bar; a window
//! that has no menu bar yet receives one first.  A menu built under another
//! menu becomes a popup entry of that menu.  A menu item is a plain entry
//! of the menu (or menu bar) it is built under.

use vstd::prelude::*;
use crate::controls::{AnyHandle, ControlType};
use crate::errors::NwgError;
use crate::events::Event;
use crate::system::{MenuEntry, entries_appended, remove_submenu, WindowSystem};
use crate::ui::Ui;

verus! {

/// The result refuses the build because the template names no known parent.
pub open spec fn no_parent_err<T>(r: Result<T, NwgError>) -> bool {
    r matches Err(e) && e matches NwgError::MenuCreationError(m) && m@
        == "No parent defined for menu"@
}

/// The result refuses the build because the named parent is a menu item.
pub open spec fn bad_parent_err<T>(r: Result<T, NwgError>) -> bool {
    r matches Err(e) && e matches NwgError::MenuCreationError(m) && m@
        == "Window or menu parent required, got MenuItem"@
}

/// The menus `post_m` extend `pre_m` by one fresh empty menu `h`, appended
/// under the live menu `parent` as a popup entry carrying `text`.
pub open spec fn menu_created_under(
    pre_m: Map<u64, Vec<MenuEntry>>,
    post_m: Map<u64, Vec<MenuEntry>>,
    parent: u64,
    h: u64,
    text: Seq<char>,
) -> bool {
    &&& !pre_m.contains_key(h)
    &&& pre_m.contains_key(parent)
    &&& post_m.dom() == pre_m.dom().insert(h)
    &&& post_m[h]@ == Seq::<MenuEntry>::empty()
    &&& entries_appended(pre_m[parent]@, post_m[parent]@, text, Some(h))
    &&& forall|k: u64|
        #[trigger] pre_m.contains_key(k) && k != parent ==> post_m[k] == pre_m[k]
}

/// The menus `post_m` extend `pre_m` by two fresh menus: a menu bar `mb`
/// holding a single popup entry carrying `text`, and the empty menu `h`
/// that entry opens.
pub open spec fn menubar_created(
    pre_m: Map<u64, Vec<MenuEntry>>,
    post_m: Map<u64, Vec<MenuEntry>>,
    mb: u64,
    h: u64,
    text: Seq<char>,
) -> bool {
    &&& !pre_m.contains_key(mb)
    &&& !pre_m.contains_key(h)
    &&& mb != h
    &&& post_m.dom() == pre_m.dom().insert(mb).insert(h)
    &&& post_m[h]@ == Seq::<MenuEntry>::empty()
    &&& entries_appended(Seq::empty(), post_m[mb]@, text, Some(h))
    &&& forall|k: u64| #[trigger] pre_m.contains_key(k) ==> post_m[k] == pre_m[k]
}

/// What building a menu from a template with caption `text` under the
/// parent bound to `parent_id` does to the interface, and what it returns.
pub open spec fn build_menu_post(
    pre: Ui,
    post: Ui,
    text: Seq<char>,
    parent_id: u64,
    r: Result<(u64, AnyHandle), NwgError>,
) -> bool {
    if !pre.handles@.contains_key(parent_id) {
        post == pre && no_parent_err(r)
    } else {
        match pre.handles@[parent_id] {
            AnyHandle::HmenuItem(_, _) => post == pre && bad_parent_err(r),
            AnyHandle::Hmenu(pm) => {
                &&& post.handles@ == pre.handles@
                &&& post.sys.windows@ == pre.sys.windows@
                &&& post.sys.next_handle == pre.sys.next_handle + 1
                &&& r matches Ok((h, par)) && par == AnyHandle::Hmenu(pm) && h
                    == pre.sys.next_handle && menu_created_under(
                    pre.sys.menus@,
                    post.sys.menus@,
                    pm,
                    h,
                    text,
                )
            },
            AnyHandle::Hwnd(w) => {
                &&& post.handles@ == pre.handles@
                &&& r matches Ok((h, par)) && par == AnyHandle::Hwnd(w) && (match pre.sys.windows@[w] {
                    Some(mb) => {
                        &&& h == pre.sys.next_handle
                        &&& post.sys.windows@ == pre.sys.windows@
                        &&& post.sys.next_handle == pre.sys.next_handle + 1
                        &&& menu_created_under(pre.sys.menus@, post.sys.menus@, mb, h, text)
                    },
                    None => {
                        let mb = pre.sys.next_handle;
                        &&& h == pre.sys.next_handle + 1
                        &&& post.sys.windows@ == pre.sys.windows@.insert(w, Some(mb))
                        &&& post.sys.next_handle == pre.sys.next_handle + 2
                        &&& menubar_created(pre.sys.menus@, post.sys.menus@, mb, h, text)
                    },
                })
            },
        }
    }
}

/// What building a menu item from a template with caption `text` under the
/// parent bound to `parent_id` does to the interface, and what it returns.
pub open spec fn build_menu_item_post(
    pre: Ui,
    post: Ui,
    text: Seq<char>,
    parent_id: u64,
    r: Result<AnyHandle, NwgError>,
) -> bool {
    if !pre.handles@.contains_key(parent_id) {
        post == pre && no_parent_err(r)
    } else {
        match pre.handles@[parent_id] {
            AnyHandle::HmenuItem(_, _) => post == pre && bad_parent_err(r),
            AnyHandle::Hmenu(pm) => {
                &&& post.handles@ == pre.handles@
                &&& post.sys.windows@ == pre.sys.windows@
                &&& post.sys.next_handle == pre.sys.next_handle
                &&& r == Ok::<AnyHandle, NwgError>(AnyHandle::Hmenu(pm))
                &&& item_appended(pre.sys.menus@, post.sys.menus@, pm, text)
            },
            AnyHandle::Hwnd(w) => {
                &&& post.handles@ == pre.handles@
                &&& r == Ok::<AnyHandle, NwgError>(AnyHandle::Hwnd(w))
                &&& (match pre.sys.windows@[w] {
                    Some(mb) => {
                        &&& post.sys.windows@ == pre.sys.windows@
                        &&& post.sys.next_handle == pre.sys.next_handle
                        &&& item_appended(pre.sys.menus@, post.sys.menus@, mb, text)
                    },
                    None => {
                        let mb = pre.sys.next_handle;
                        &&& post.sys.windows@ == pre.sys.windows@.insert(w, Some(mb))
                        &&& post.sys.next_handle == pre.sys.next_handle + 1
                        &&& !pre.sys.menus@.contains_key(mb)
                        &&& post.sys.menus@.dom() == pre.sys.menus@.dom().insert(mb)
                        &&& entries_appended(Seq::empty(), post.sys.menus@[mb]@, text, None)
                        &&& forall|k: u64|
                            #[trigger] pre.sys.menus@.contains_key(k) ==> post.sys.menus@[k]
                                == pre.sys.menus@[k]
                    },
                })
            },
        }
    }
}

/// The menus `post_m` are `pre_m` with one plain entry carrying `text`
/// appended to the live menu `parent`.
pub open spec fn item_appended(
    pre_m: Map<u64, Vec<MenuEntry>>,
    post_m: Map<u64, Vec<MenuEntry>>,
    parent: u64,
    text: Seq<char>,
) -> bool {
    &&& pre_m.contains_key(parent)
    &&& post_m.dom() == pre_m.dom()
    &&& entries_appended(pre_m[parent]@, post_m[parent]@, text, None)
    &&& forall|k: u64|
        #[trigger] pre_m.contains_key(k) && k != parent ==> post_m[k] == pre_m[k]
}

/// A template to create menu controls.
pub struct MenuT {
    /// The caption of the menu.
    pub text: String,
    /// The identifier the parent window or menu is bound to.
    pub parent: u64,
}

impl MenuT {
    /// The kind of control this template builds.
    pub fn type_id(&self) -> (r: ControlType)
        ensures
            r == ControlType::Menu,
    {
        ControlType::Menu
    }

    /// The events a built menu can receive.
    pub fn events(&self) -> (r: Vec<Event>)
        ensures
            r@ == seq![Event::Destroyed],
    {
        let mut v: Vec<Event> = Vec::new();
        v.push(Event::Destroyed);
        proof {
            assert(v@ =~= seq![Event::Destroyed]);
        }
        v
    }

    /// Builds the menu under the bound parent and returns the control.
    pub fn build(&self, ui: &mut Ui) -> (r: Result<Menu, NwgError>)
        requires
            old(ui).wf(),
            old(ui).sys.next_handle + 2 <= u64::MAX,
        ensures
            final(ui).wf(),
            match r {
                Ok(menu) => build_menu_post(
                    *old(ui),
                    *final(ui),
                    self.text@,
                    self.parent,
                    Ok((menu.handle, menu.parent)),
                ),
                Err(e) => build_menu_post(
                    *old(ui),
                    *final(ui),
                    self.text@,
                    self.parent,
                    Err(e),
                ),
            },
    {
        match build_menu(ui, self) {
            Ok((h, parent)) => Ok(Menu { handle: h, parent }),
            Err(e) => Err(e),
        }
    }
}

/// A menu control.
pub struct Menu {
    /// The handle of the menu itself.
    pub handle: u64,
    /// The handle the menu was built under: its window, or its parent menu.
    pub parent: AnyHandle,
}

impl Menu {
    /// The handle of this control.
    pub fn handle(&self) -> (r: AnyHandle)
        ensures
            r == AnyHandle::Hmenu(self.handle),
    {
        AnyHandle::Hmenu(self.handle)
    }

    /// Detaches the menu from its parent and destroys it: every entry of
    /// the parent menu that opened it disappears, and its handle stops
    /// naming a live menu.
    pub fn free(&mut self, sys: &mut WindowSystem)
        requires
            old(sys).wf(),
            old(self).parent matches AnyHandle::Hmenu(m) ==> old(sys).menus@.contains_key(m),
            forall|w: u64| #[trigger] old(sys).windows@.contains_key(w)
                ==> old(sys).windows@[w] != Some(old(self).handle),
        ensures
            *final(self) == *old(self),
            final(sys).wf(),
            final(sys).windows@ == old(sys).windows@,
            final(sys).next_handle == old(sys).next_handle,
            final(sys).menus@.dom() == old(sys).menus@.dom().remove(old(self).handle),
            ({
                let pm = old(sys).parent_menu_of(old(self).parent);
                match pm {
                    Some(p) => {
                        &&& p != old(self).handle ==> final(sys).menus@[p]@ == remove_submenu(
                            old(sys).menus@[p]@,
                            old(self).handle,
                        )
                        &&& forall|k: u64|
                            #[trigger] old(sys).menus@.contains_key(k) && k != p && k != old(
                                self,
                            ).handle ==> final(sys).menus@[k] == old(sys).menus@[k]
                    },
                    None => forall|k: u64|
                        #[trigger] old(sys).menus@.contains_key(k) && k != old(self).handle
                            ==> final(sys).menus@[k] == old(sys).menus@[k],
                }
            }),
    {
        sys.remove_menu_from_parent(self.handle, &self.parent);
        sys.destroy_menu(self.handle);
        proof {
            assert(final(sys).menus@.dom() =~= old(sys).menus@.dom().remove(old(self).handle));
        }
    }
}

/// A template to create menu item controls.
pub struct MenuItemT {
    /// The caption of the item.
    pub text: String,
    /// The identifier the parent window or menu is bound to.
    pub parent: u64,
}

impl MenuItemT {
    /// The kind of control this template builds.
    pub fn type_id(&self) -> (r: ControlType)
        ensures
            r == ControlType::MenuItem,
    {
        ControlType::MenuItem
    }

    /// The events a built menu item can receive.
    pub fn events(&self) -> (r: Vec<Event>)
        ensures
            r@ == seq![Event::Destroyed],
    {
        let mut v: Vec<Event> = Vec::new();
        v.push(Event::Destroyed);
        proof {
            assert(v@ =~= seq![Event::Destroyed]);
        }
        v
    }

    /// Builds the menu item under the bound parent and returns the control.
    pub fn build(&self, ui: &mut Ui) -> (r: Result<MenuItem, NwgError>)
        requires
            old(ui).wf(),
            old(ui).sys.next_handle + 1 <= u64::MAX,
        ensures
            final(ui).wf(),
            match r {
                Ok(item) => build_menu_item_post(
                    *old(ui),
                    *final(ui),
                    self.text@,
                    self.parent,
                    Ok(item.parent),
                ),
                Err(e) => build_menu_item_post(
                    *old(ui),
                    *final(ui),
                    self.text@,
                    self.parent,
                    Err(e),
                ),
            },
    {
        match build_menu_item(ui, self) {
            Ok(parent) => Ok(MenuItem { parent }),
            Err(e) => Err(e),
        }
    }
}

/// A menu item control.
pub struct MenuItem {
    /// The handle the item was built under: its window, or its parent menu.
    pub parent: AnyHandle,
}

impl MenuItem {
    /// The handle of this control: the parent it was built under.
    pub fn handle(&self) -> (r: AnyHandle)
        ensures
            r == self.parent,
    {
        self.parent
    }

    /// Menu items disappear together with the menu that holds them;
    /// freeing one on its own changes nothing.
    pub fn free(&mut self)
        ensures
            *final(self) == *old(self),
    {
    }
}

/// Builds a menu under the parent bound to `t.parent`: under a window it
/// becomes a popup entry of the window's menu bar, creating the menu bar
/// first when the window has none; under a menu it becomes a popup entry of
/// that menu.  Returns the fresh menu handle and the parent handle, or the
/// error naming what was wrong with the parent.
pub fn build_menu(ui: &mut Ui, t: &MenuT) -> (r: Result<(u64, AnyHandle), NwgError>)
    requires
        old(ui).wf(),
        old(ui).sys.next_handle + 2 <= u64::MAX,
    ensures
        final(ui).wf(),
        build_menu_post(*old(ui), *final(ui), t.text@, t.parent, r),
{
    let ph = match ui.handle_of(t.parent) {
        Some(h) => h,
        None => {
            return Err(NwgError::no_parent_menu());
        },
    };
    match ph {
        AnyHandle::Hwnd(parent_h) => {
            let ghost m0 = ui.sys.menus@;
            let menubar = match ui.sys.get_menu(parent_h) {
                Some(mb) => mb,
                None => {
                    // The window has no menu bar: create one for it.
                    let mb = ui.sys.create_menu();
                    ui.sys.set_menu(parent_h, mb);
                    mb
                },
            };
            let ghost m1 = ui.sys.menus@;
            let h = ui.sys.create_menu();
            let ghost m2 = ui.sys.menus@;
            let entry = MenuEntry { text: t.text.clone(), submenu: Some(h) };
            let ghost base: Seq<MenuEntry> = m2[menubar]@;
            ui.sys.append_menu(menubar, entry);
            proof {
                assert(base.push(entry).subrange(0, base.len() as int) =~= base);
                assert(ui.sys.menus@[h]@ == Seq::<MenuEntry>::empty()) by {
                    assert(m2.contains_key(h));
                    assert(ui.sys.menus@[h] == m2[h]);
                }
                assert forall|k: u64|
                    #[trigger] m0.contains_key(k) && k != menubar implies ui.sys.menus@[k]
                    == m0[k] by {
                    assert(m1.contains_key(k));
                    assert(m1[k] == m0[k]);
                    assert(m2.contains_key(k));
                    assert(m2[k] == m1[k]);
                    assert(ui.sys.menus@[k] == m2[k]);
                }
                assert(build_menu_post(
                    *old(ui),
                    *ui,
                    t.text@,
                    t.parent,
                    Ok((h, AnyHandle::Hwnd(parent_h))),
                ));
            }
            Ok((h, AnyHandle::Hwnd(parent_h)))
        },
        AnyHandle::Hmenu(parent_m) => {
            let ghost m0 = ui.sys.menus@;
            let h = ui.sys.create_menu();
            let ghost m1 = ui.sys.menus@;
            let entry = MenuEntry { text: t.text.clone(), submenu: Some(h) };
            let ghost base: Seq<MenuEntry> = m1[parent_m]@;
            ui.sys.append_menu(parent_m, entry);
            proof {
                assert(base.push(entry).subrange(0, base.len() as int) =~= base);
                assert(ui.sys.menus@[h]@ == Seq::<MenuEntry>::empty()) by {
                    assert(m1.contains_key(h));
                    assert(ui.sys.menus@[h] == m1[h]);
                }
                assert forall|k: u64|
                    #[trigger] m0.contains_key(k) && k != parent_m implies ui.sys.menus@[k]
                    == m0[k] by {
                    assert(m1.contains_key(k));
                    assert(m1[k] == m0[k]);
                    assert(ui.sys.menus@[k] == m1[k]);
                }
            }
            Ok((h, AnyHandle::Hmenu(parent_m)))
        },
        AnyHandle::HmenuItem(_, _) => {
            Err(NwgError::menu_create("Window or menu parent required, got MenuItem".to_owned()))
        },
    }
}

/// Builds a menu item under the parent bound to `t.parent`: a plain entry
/// appended to the window's menu bar (created first when the window has
/// none) or to the parent menu.  Returns the parent handle the item now
/// lives under, or the error naming what was wrong with the parent.
pub fn build_menu_item(ui: &mut Ui, t: &MenuItemT) -> (r: Result<AnyHandle, NwgError>)
    requires
        old(ui).wf(),
        old(ui).sys.next_handle + 1 <= u64::MAX,
    ensures
        final(ui).wf(),
        build_menu_item_post(*old(ui), *final(ui), t.text@, t.parent, r),
{
    let ph = match ui.handle_of(t.parent) {
        Some(h) => h,
        None => {
            return Err(NwgError::no_parent_menu());
        },
    };
    match ph {
        AnyHandle::Hwnd(parent_h) => {
            let ghost m0 = ui.sys.menus@;
            let menubar = match ui.sys.get_menu(parent_h) {
                Some(mb) => mb,
                None => {
                    // The window has no menu bar: create one for it.
                    let mb = ui.sys.create_menu();
                    ui.sys.set_menu(parent_h, mb);
                    mb
                },
            };
            let ghost m1 = ui.sys.menus@;
            let entry = MenuEntry { text: t.text.clone(), submenu: None };
            let ghost base: Seq<MenuEntry> = m1[menubar]@;
            ui.sys.append_menu(menubar, entry);
            proof {
                assert(base.push(entry).subrange(0, base.len() as int) =~= base);
                assert forall|k: u64|
                    #[trigger] m0.contains_key(k) && k != menubar implies ui.sys.menus@[k]
                    == m0[k] by {
                    assert(m1.contains_key(k));
                    assert(m1[k] == m0[k]);
                    assert(ui.sys.menus@[k] == m1[k]);
                }
            }
            Ok(AnyHandle::Hwnd(parent_h))
        },
        AnyHandle::Hmenu(parent_m) => {
            let ghost m0 = ui.sys.menus@;
            let entry = MenuEntry { text: t.text.clone(), submenu: None };
            let ghost base: Seq<MenuEntry> = m0[parent_m]@;
            ui.sys.append_menu(parent_m, entry);
            proof {
                assert(base.push(entry).subrange(0, base.len() as int) =~= base);
            }
            Ok(AnyHandle::Hmenu(parent_m))
        },
        AnyHandle::HmenuItem(_, _) => {
            Err(NwgError::menu_create("Window or menu parent required, got MenuItem".to_owned()))
        },
    }
}

} // verus!
