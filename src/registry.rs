//! The foreground's table of known windows and the reducer that applies one
//! `ToplevelUpdate` to it.

use vstd::prelude::*;
use crate::protocol::{ToplevelInfo, ToplevelUpdate, WindowHandle};

verus! {

/// One known window: its handle, its latest info and the application
/// metadata resolved for its application identifier.
#[derive(Debug)]
pub struct RegistryEntry<M> {
    pub handle: WindowHandle,
    pub info: ToplevelInfo,
    pub metadata: M,
}

/// Whether some entry of `s` has handle `h`.
pub open spec fn holds_handle<M>(s: Seq<RegistryEntry<M>>, h: WindowHandle) -> bool {
    exists|i: int| 0 <= i < s.len() && s[i].handle == h
}

/// The index of the entry with handle `h` (meaningful when `holds_handle`).
pub open spec fn slot_of<M>(s: Seq<RegistryEntry<M>>, h: WindowHandle) -> int {
    choose|i: int| 0 <= i < s.len() && s[i].handle == h
}

/// No two entries share a handle.
pub open spec fn unique_handles<M>(s: Seq<RegistryEntry<M>>) -> bool {
    forall|i: int, j: int|
        0 <= i < s.len() && 0 <= j < s.len() && i != j ==> s[i].handle != s[j].handle
}

/// Whether `info` names another application than the stored entry for `h`.
pub open spec fn app_id_changed<M>(s: Seq<RegistryEntry<M>>, h: WindowHandle, info: ToplevelInfo) -> bool {
    s[slot_of(s, h)].info.app_id@ != info.app_id@
}

/// Whether applying `u` to `s` calls for a fresh metadata resolution: a new
/// window, or a known window whose application identifier changed.
pub open spec fn needs_resolution<M>(s: Seq<RegistryEntry<M>>, u: ToplevelUpdate) -> bool {
    match u {
        ToplevelUpdate::Add(h, info) => !holds_handle(s, h) || app_id_changed(s, h, info),
        ToplevelUpdate::Update(h, info) => holds_handle(s, h) && app_id_changed(s, h, info),
        ToplevelUpdate::Remove(_) => false,
    }
}

/// Entry `e` after new info arrived: the info is replaced, the metadata only
/// where the application identifier changed.
pub open spec fn refreshed<M>(e: RegistryEntry<M>, info: ToplevelInfo, resolved: Option<M>) -> RegistryEntry<M> {
    RegistryEntry {
        handle: e.handle,
        info,
        metadata: if e.info.app_id@ == info.app_id@ {
            e.metadata
        } else {
            resolved->0
        },
    }
}

/// The entries after applying `u` to `s`, with `resolved` the metadata for
/// the update's application identifier where one was needed.
pub open spec fn applied<M>(s: Seq<RegistryEntry<M>>, u: ToplevelUpdate, resolved: Option<M>) -> Seq<RegistryEntry<M>> {
    match u {
        ToplevelUpdate::Add(h, info) => if holds_handle(s, h) {
            s.update(slot_of(s, h), refreshed(s[slot_of(s, h)], info, resolved))
        } else {
            s.push(RegistryEntry { handle: h, info, metadata: resolved->0 })
        },
        ToplevelUpdate::Update(h, info) => if holds_handle(s, h) {
            s.update(slot_of(s, h), refreshed(s[slot_of(s, h)], info, resolved))
        } else {
            s
        },
        ToplevelUpdate::Remove(h) => if holds_handle(s, h) {
            s.remove(slot_of(s, h))
        } else {
            s
        },
    }
}

/// The ordered table of known windows, in order of first appearance.
pub struct WindowRegistry<M> {
    entries: Vec<RegistryEntry<M>>,
}

impl<M> View for WindowRegistry<M> {
    type V = Seq<RegistryEntry<M>>;

    closed spec fn view(&self) -> Seq<RegistryEntry<M>> {
        self.entries@
    }
}

impl<M> WindowRegistry<M> {
    /// Well-formed: no two entries share a handle.
    pub open spec fn wf(&self) -> bool {
        unique_handles(self@)
    }

    /// An empty registry.
    pub fn new() -> (r: Self)
        ensures
            r.wf(),
            r@ == Seq::<RegistryEntry<M>>::empty(),
    {
        WindowRegistry { entries: Vec::new() }
    }

    /// The entries in display order.
    pub fn entries(&self) -> (r: &Vec<RegistryEntry<M>>)
        ensures
            r@ == self@,
    {
        &self.entries
    }

    /// The number of known windows.
    pub fn len(&self) -> (r: usize)
        ensures
            r == self@.len(),
    {
        self.entries.len()
    }

    /// The index of the entry for `handle`, if the window is known.
    pub fn position(&self, handle: WindowHandle) -> (r: Option<usize>)
        requires
            self.wf(),
        ensures
            r.is_some() == holds_handle(self@, handle),
            r.is_some() ==> r->0 == slot_of(self@, handle) && self@[r->0 as int].handle == handle,
    {
        let mut i: usize = 0;
        while i < self.entries.len()
            invariant
                self.wf(),
                i <= self.entries@.len(),
                forall|k: int| 0 <= k < i ==> self.entries@[k].handle != handle,
            decreases self.entries@.len() - i,
        {
            if self.entries[i].handle == handle {
                proof {
                    assert(holds_handle(self@, handle));
                    let j = slot_of(self@, handle);
                    assert(self@[j].handle == handle);
                    assert(j == i as int);
                }
                return Some(i);
            }
            i += 1;
        }
        None
    }

    /// Whether applying `update` needs metadata resolved for its application
    /// identifier. Call the resolver exactly when this holds.
    pub fn needs_metadata(&self, update: &ToplevelUpdate) -> (r: bool)
        requires
            self.wf(),
        ensures
            r == needs_resolution(self@, *update),
    {
        match update {
            ToplevelUpdate::Add(h, info) => match self.position(*h) {
                Some(i) => !(self.entries[i].info.app_id == info.app_id),
                None => true,
            },
            ToplevelUpdate::Update(h, info) => match self.position(*h) {
                Some(i) => !(self.entries[i].info.app_id == info.app_id),
                None => false,
            },
            ToplevelUpdate::Remove(_) => false,
        }
    }

    /// Replaces the info of entry `i`, and its metadata where the application
    /// identifier changed.
    fn refresh_at(&mut self, i: usize, info: ToplevelInfo, resolved: Option<M>)
        requires
            old(self).wf(),
            i < old(self)@.len(),
            resolved.is_some() == (old(self)@[i as int].info.app_id@ != info.app_id@),
        ensures
            final(self)@ == old(self)@.update(i as int, refreshed(old(self)@[i as int], info, resolved)),
    {
        if !(self.entries[i].info.app_id == info.app_id) {
            self.entries[i].metadata = resolved.unwrap();
        }
        self.entries[i].info = info;
        proof {
            assert(final(self)@ =~= old(self)@.update(i as int, refreshed(old(self)@[i as int], info, resolved)));
        }
    }

    /// Applies one update: `Add` appends a new window or refreshes a known
    /// one, `Update` refreshes a known window, `Remove` drops it; updates
    /// for unknown windows (other than `Add`) change nothing. `resolved` is
    /// the metadata for the update's application identifier, given exactly
    /// when `needs_metadata` says so.
    pub fn apply(&mut self, update: ToplevelUpdate, resolved: Option<M>)
        requires
            old(self).wf(),
            resolved.is_some() == needs_resolution(old(self)@, update),
        ensures
            final(self).wf(),
            final(self)@ == applied(old(self)@, update, resolved),
    {
        match update {
            ToplevelUpdate::Add(h, info) => match self.position(h) {
                Some(i) => self.refresh_at(i, info, resolved),
                None => {
                    self.entries.push(RegistryEntry { handle: h, info, metadata: resolved.unwrap() });
                },
            },
            ToplevelUpdate::Update(h, info) => match self.position(h) {
                Some(i) => self.refresh_at(i, info, resolved),
                None => {},
            },
            ToplevelUpdate::Remove(h) => match self.position(h) {
                Some(i) => {
                    self.entries.remove(i);
                },
                None => {},
            },
        }
    }
}

} // verus!
