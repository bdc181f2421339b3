//! A model of the windowing subsystem state that this binding layer
//! manipulates: the live windows with their menu bars, the live menus with
//! their entries, and the handle space they are allocated from.
//!
//! Every operation of the layer (building a menu, attaching an item, freeing
//! a control) is specified and verified against this model; the thin glue
//! that mirrors each operation onto the platform's own calls stays outside
//! the library.

use vstd::prelude::*;
use vstd::hash_map::HashMapWithView;
use crate::controls::AnyHandle;

verus! {

broadcast use vstd::std_specs::hash::group_hash_axioms;

/// One entry of a menu: a caption and, for popup entries, the handle of the
/// submenu the entry opens.  Plain entries (menu items) carry no submenu.
pub struct MenuEntry {
    pub text: String,
    pub submenu: Option<u64>,
}

/// `new_e` is `old_e` with one entry appended, carrying the caption `text`
/// and the submenu `sub`.
pub open spec fn entries_appended(
    old_e: Seq<MenuEntry>,
    new_e: Seq<MenuEntry>,
    text: Seq<char>,
    sub: Option<u64>,
) -> bool {
    &&& new_e.len() == old_e.len() + 1
    &&& new_e.subrange(0, old_e.len() as int) == old_e
    &&& new_e.last().text@ == text
    &&& new_e.last().submenu == sub
}

/// The entries of `s` that do not open the submenu `h`, in order.
pub open spec fn remove_submenu(s: Seq<MenuEntry>, h: u64) -> Seq<MenuEntry>
    decreases s.len(),
{
    if s.len() == 0 {
        Seq::empty()
    } else {
        let rest = remove_submenu(s.drop_last(), h);
        if s.last().submenu == Some(h) {
            rest
        } else {
            rest.push(s.last())
        }
    }
}

/// The windowing state: which windows are live and what menu bar each one
/// carries, which menus are live and what entries each one holds, and the
/// next handle the system will hand out.
pub struct WindowSystem {
    /// Live windows: window handle to the handle of its menu bar, if any.
    pub windows: HashMapWithView<u64, Option<u64>>,
    /// Live menus: menu handle to the entries of the menu.
    pub menus: HashMapWithView<u64, Vec<MenuEntry>>,
    /// All handles handed out so far are below this bound.
    pub next_handle: u64,
}

impl WindowSystem {
    /// Well-formedness: handles are nonzero and below the allocation bound,
    /// no handle names both a window and a menu, and every menu bar a window
    /// carries is a live menu.
    pub open spec fn wf(self) -> bool {
        &&& self.next_handle >= 1
        &&& forall|h: u64| #[trigger] self.windows@.contains_key(h) ==> 1 <= h < self.next_handle
        &&& forall|h: u64| #[trigger] self.menus@.contains_key(h) ==> 1 <= h < self.next_handle
        &&& forall|h: u64| #[trigger] self.windows@.contains_key(h) ==> !self.menus@.contains_key(h)
        &&& forall|w: u64|
            #[trigger] self.windows@.contains_key(w) && self.windows@[w] is Some
                ==> self.menus@.contains_key(self.windows@[w]->0)
    }

    /// The menu that `parent` designates as a place to hang a submenu or an
    /// item: the menu bar of a window, a menu itself, and nothing for a menu
    /// item.
    pub open spec fn parent_menu_of(self, parent: AnyHandle) -> Option<u64> {
        match parent {
            AnyHandle::Hwnd(w) => if self.windows@.contains_key(w) {
                self.windows@[w]
            } else {
                None
            },
            AnyHandle::Hmenu(m) => Some(m),
            AnyHandle::HmenuItem(_, _) => None,
        }
    }

    /// An empty windowing state.
    pub fn new() -> (s: Self)
        ensures
            s.wf(),
            s.windows@ == Map::<u64, Option<u64>>::empty(),
            s.menus@ == Map::<u64, Vec<MenuEntry>>::empty(),
            s.next_handle == 1,
    {
        WindowSystem {
            windows: HashMapWithView::new(),
            menus: HashMapWithView::new(),
            next_handle: 1,
        }
    }

    /// Creates a window with no menu bar and returns its fresh handle.
    pub fn create_window(&mut self) -> (w: u64)
        requires
            old(self).wf(),
            old(self).next_handle < u64::MAX,
        ensures
            final(self).wf(),
            w == old(self).next_handle,
            !old(self).windows@.contains_key(w),
            !old(self).menus@.contains_key(w),
            final(self).windows@ == old(self).windows@.insert(w, None::<u64>),
            final(self).menus@ == old(self).menus@,
            final(self).next_handle == old(self).next_handle + 1,
    {
        let w = self.next_handle;
        self.next_handle = self.next_handle + 1;
        self.windows.insert(w, None);
        w
    }

    /// Creates an empty menu and returns its fresh handle.
    pub fn create_menu(&mut self) -> (h: u64)
        requires
            old(self).wf(),
            old(self).next_handle < u64::MAX,
        ensures
            final(self).wf(),
            h == old(self).next_handle,
            !old(self).windows@.contains_key(h),
            !old(self).menus@.contains_key(h),
            final(self).windows@ == old(self).windows@,
            final(self).menus@.dom() == old(self).menus@.dom().insert(h),
            final(self).menus@[h]@ == Seq::<MenuEntry>::empty(),
            forall|k: u64| #[trigger] old(self).menus@.contains_key(k) ==> final(self).menus@[k]
                == old(self).menus@[k],
            final(self).next_handle == old(self).next_handle + 1,
    {
        let h = self.next_handle;
        self.next_handle = self.next_handle + 1;
        let entries: Vec<MenuEntry> = Vec::new();
        self.menus.insert(h, entries);
        h
    }

    /// The menu bar of the window `hwnd`, if the window is live and carries
    /// one.
    pub fn get_menu(&self, hwnd: u64) -> (r: Option<u64>)
        ensures
            r == (if self.windows@.contains_key(hwnd) {
                self.windows@[hwnd]
            } else {
                None::<u64>
            }),
    {
        match self.windows.get(&hwnd) {
            Some(mb) => *mb,
            None => None,
        }
    }

    /// Makes `hmenu` the menu bar of the window `hwnd`.
    pub fn set_menu(&mut self, hwnd: u64, hmenu: u64)
        requires
            old(self).wf(),
            old(self).windows@.contains_key(hwnd),
            old(self).menus@.contains_key(hmenu),
        ensures
            final(self).wf(),
            final(self).windows@ == old(self).windows@.insert(hwnd, Some(hmenu)),
            final(self).menus@ == old(self).menus@,
            final(self).next_handle == old(self).next_handle,
    {
        self.windows.insert(hwnd, Some(hmenu));
    }

    /// Appends `entry` at the end of the live menu `parent`; every other
    /// menu and every window keeps its state.
    pub fn append_menu(&mut self, parent: u64, entry: MenuEntry)
        requires
            old(self).wf(),
            old(self).menus@.contains_key(parent),
        ensures
            final(self).wf(),
            final(self).windows@ == old(self).windows@,
            final(self).menus@.dom() == old(self).menus@.dom(),
            final(self).menus@[parent]@ == old(self).menus@[parent]@.push(entry),
            forall|k: u64|
                #[trigger] old(self).menus@.contains_key(k) && k != parent
                    ==> final(self).menus@[k] == old(self).menus@[k],
            final(self).next_handle == old(self).next_handle,
    {
        let mut entries = self.menus.remove(&parent).unwrap();
        entries.push(entry);
        self.menus.insert(parent, entries);
        proof {
            assert(final(self).menus@.dom() =~= old(self).menus@.dom());
        }
    }

    /// Removes the menu `hmenu` from the live menus.  The caller must make
    /// sure no window still carries it as its menu bar.
    pub fn destroy_menu(&mut self, hmenu: u64)
        requires
            old(self).wf(),
            forall|w: u64| #[trigger] old(self).windows@.contains_key(w)
                ==> old(self).windows@[w] != Some(hmenu),
        ensures
            final(self).wf(),
            final(self).windows@ == old(self).windows@,
            final(self).menus@ == old(self).menus@.remove(hmenu),
            final(self).next_handle == old(self).next_handle,
    {
        let removed = self.menus.remove(&hmenu);
        proof {
            if removed is None {
                assert(final(self).menus@ =~= old(self).menus@.remove(hmenu));
            }
        }
    }

    /// Drops from the menu designated by `parent` every entry that opens the
    /// submenu `handle`.  A parent that designates no menu leaves the state
    /// unchanged.
    pub fn remove_menu_from_parent(&mut self, handle: u64, parent: &AnyHandle)
        requires
            old(self).wf(),
            *parent matches AnyHandle::Hmenu(m) ==> old(self).menus@.contains_key(m),
        ensures
            final(self).wf(),
            final(self).windows@ == old(self).windows@,
            final(self).next_handle == old(self).next_handle,
            final(self).menus@.dom() == old(self).menus@.dom(),
            ({
                let pm = old(self).parent_menu_of(*parent);
                match pm {
                    Some(p) => {
                        &&& final(self).menus@[p]@ == remove_submenu(
                            old(self).menus@[p]@,
                            handle,
                        )
                        &&& forall|k: u64|
                            #[trigger] old(self).menus@.contains_key(k) && k != p
                                ==> final(self).menus@[k] == old(self).menus@[k]
                    },
                    None => final(self).menus@ == old(self).menus@,
                }
            }),
    {
        match parent {
            AnyHandle::Hwnd(w) => {
                match self.get_menu(*w) {
                    Some(mb) => self.filter_menu(mb, handle),
                    None => (),
                }
            },
            AnyHandle::Hmenu(m) => self.filter_menu(*m, handle),
            AnyHandle::HmenuItem(_, _) => (),
        }
    }

    /// Replaces the entries of the live menu `p` by the same entries with
    /// every reference to the submenu `handle` dropped.
    fn filter_menu(&mut self, p: u64, handle: u64)
        requires
            old(self).wf(),
            old(self).menus@.contains_key(p),
        ensures
            final(self).wf(),
            final(self).windows@ == old(self).windows@,
            final(self).next_handle == old(self).next_handle,
            final(self).menus@.dom() == old(self).menus@.dom(),
            final(self).menus@[p]@ == remove_submenu(old(self).menus@[p]@, handle),
            forall|k: u64|
                #[trigger] old(self).menus@.contains_key(k) && k != p
                    ==> final(self).menus@[k] == old(self).menus@[k],
    {
        let mut entries = self.menus.remove(&p).unwrap();
        filter_out_submenu(&mut entries, handle);
        self.menus.insert(p, entries);
        proof {
            assert(final(self).menus@.dom() =~= old(self).menus@.dom());
        }
    }
}

/// Drops from `v`, in place, every entry that opens the submenu `h`.
fn filter_out_submenu(v: &mut Vec<MenuEntry>, h: u64)
    ensures
        final(v)@ == remove_submenu(old(v)@, h),
{
    let ghost n = old(v)@.len() as int;
    let mut i: usize = 0;
    let ghost mut j: int = 0;
    while i < v.len()
        invariant
            0 <= j <= n,
            n == old(v)@.len(),
            i == remove_submenu(old(v)@.subrange(0, j), h).len(),
            v@ == remove_submenu(old(v)@.subrange(0, j), h) + old(v)@.subrange(j, n),
        decreases n - j,
    {
        proof {
            assert(old(v)@.subrange(0, j + 1).drop_last() =~= old(v)@.subrange(0, j));
            assert(old(v)@.subrange(0, j + 1).last() == old(v)@[j]);
            assert(v@[i as int] == old(v)@[j]);
        }
        let ghost before = v@;
        let opens_h = match v[i].submenu {
            Some(s) => s == h,
            None => false,
        };
        if opens_h {
            v.remove(i);
            proof {
                j = j + 1;
                assert(before.subrange(0, i as int) =~= remove_submenu(
                    old(v)@.subrange(0, j),
                    h,
                ));
                assert(before.subrange(i + 1, before.len() as int) =~= old(v)@.subrange(j, n));
                assert(v@ =~= remove_submenu(old(v)@.subrange(0, j), h) + old(v)@.subrange(
                    j,
                    n,
                ));
            }
        } else {
            i = i + 1;
            proof {
                j = j + 1;
                assert(v@ =~= remove_submenu(old(v)@.subrange(0, j), h) + old(v)@.subrange(
                    j,
                    n,
                ));
            }
        }
    }
    proof {
        assert(j == n);
        assert(old(v)@.subrange(0, n) =~= old(v)@);
        assert(v@ =~= remove_submenu(old(v)@, h));
    }
}

} // verus!
