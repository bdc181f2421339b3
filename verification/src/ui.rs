//! The binding table of a user interface: application-chosen identifiers
//! bound to handles of live native objects, together with the windowing
//! state the handles live in.

use vstd::prelude::*;
use vstd::hash_map::HashMapWithView;
use crate::controls::AnyHandle;
use crate::system::WindowSystem;

verus! {

broadcast use vstd::std_specs::hash::group_hash_axioms;

/// The handle names a live object of the windowing state.
pub open spec fn handle_valid(sys: WindowSystem, h: AnyHandle) -> bool {
    match h {
        AnyHandle::Hwnd(w) => sys.windows@.contains_key(w),
        AnyHandle::Hmenu(m) => sys.menus@.contains_key(m),
        AnyHandle::HmenuItem(m, _) => sys.menus@.contains_key(m),
    }
}

/// A user interface: the windowing state and the identifiers the
/// application has bound to handles in it.
pub struct Ui {
    /// The windowing state the bound handles live in.
    pub sys: WindowSystem,
    /// Application identifiers bound to handles.
    pub handles: HashMapWithView<u64, AnyHandle>,
}

impl Ui {
    /// Well-formedness: the windowing state is well formed and every bound
    /// handle names a live object in it.
    pub open spec fn wf(self) -> bool {
        &&& self.sys.wf()
        &&& forall|id: u64| #[trigger] self.handles@.contains_key(id)
            ==> handle_valid(self.sys, self.handles@[id])
    }

    /// A user interface with no windows, no menus and no bindings.
    pub fn new() -> (ui: Self)
        ensures
            ui.wf(),
            ui.handles@ == Map::<u64, AnyHandle>::empty(),
            ui.sys.windows@ == Map::<u64, Option<u64>>::empty(),
            ui.sys.menus@ == Map::<u64, Vec<crate::system::MenuEntry>>::empty(),
            ui.sys.next_handle == 1,
    {
        Ui { sys: WindowSystem::new(), handles: HashMapWithView::new() }
    }

    /// The handle bound to `id`, if any.
    pub fn handle_of(&self, id: u64) -> (r: Option<AnyHandle>)
        ensures
            r == (if self.handles@.contains_key(id) {
                Some(self.handles@[id])
            } else {
                None::<AnyHandle>
            }),
    {
        match self.handles.get(&id) {
            Some(h) => Some(*h),
            None => None,
        }
    }

    /// Creates a window with no menu bar and binds `id` to it.  Refuses an
    /// identifier that is already bound and then changes nothing.
    pub fn create_window(&mut self, id: u64) -> (r: Option<u64>)
        requires
            old(self).wf(),
            old(self).sys.next_handle < u64::MAX,
        ensures
            final(self).wf(),
            match r {
                None => old(self).handles@.contains_key(id) && *final(self) == *old(self),
                Some(w) => {
                    &&& !old(self).handles@.contains_key(id)
                    &&& w == old(self).sys.next_handle
                    &&& !old(self).sys.windows@.contains_key(w)
                    &&& final(self).handles@ == old(self).handles@.insert(
                        id,
                        AnyHandle::Hwnd(w),
                    )
                    &&& final(self).sys.windows@ == old(self).sys.windows@.insert(
                        w,
                        None::<u64>,
                    )
                    &&& final(self).sys.menus@ == old(self).sys.menus@
                    &&& final(self).sys.next_handle == old(self).sys.next_handle + 1
                },
            },
    {
        if self.handles.contains_key(&id) {
            None
        } else {
            let w = self.sys.create_window();
            self.handles.insert(id, AnyHandle::Hwnd(w));
            Some(w)
        }
    }

    /// Binds `id` to the handle `h` of a live object.  Returns whether the
    /// identifier was free; a bound identifier keeps its old handle.
    pub fn bind_handle(&mut self, id: u64, h: AnyHandle) -> (r: bool)
        requires
            old(self).wf(),
            handle_valid(old(self).sys, h),
        ensures
            final(self).wf(),
            r == !old(self).handles@.contains_key(id),
            final(self).sys == old(self).sys,
            if r {
                final(self).handles@ == old(self).handles@.insert(id, h)
            } else {
                *final(self) == *old(self)
            },
    {
        if self.handles.contains_key(&id) {
            false
        } else {
            self.handles.insert(id, h);
            true
        }
    }
}

} // verus!
