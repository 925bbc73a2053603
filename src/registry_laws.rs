//! Facts about sequences of updates applied to the window registry.

use vstd::prelude::*;
use crate::protocol::{ToplevelInfo, ToplevelUpdate, WindowHandle};
use crate::registry::{
    RegistryEntry, applied, holds_handle, needs_resolution, slot_of, unique_handles,
};

verus! {

/// The handles of `s`, in display order.
pub open spec fn handles<M>(s: Seq<RegistryEntry<M>>) -> Seq<WindowHandle> {
    s.map_values(|e: RegistryEntry<M>| e.handle)
}

/// The index of `h` in `hs` (meaningful when `hs` contains it).
pub open spec fn index_in(hs: Seq<WindowHandle>, h: WindowHandle) -> int {
    choose|i: int| 0 <= i < hs.len() && hs[i] == h
}

/// Insertion order kept as a list of handles: a new window goes to the end,
/// a removed one leaves, everything else stays where it is.
pub open spec fn order_after(hs: Seq<WindowHandle>, u: ToplevelUpdate) -> Seq<WindowHandle> {
    match u {
        ToplevelUpdate::Add(h, _) => if hs.contains(h) {
            hs
        } else {
            hs.push(h)
        },
        ToplevelUpdate::Update(_, _) => hs,
        ToplevelUpdate::Remove(h) => if hs.contains(h) {
            hs.remove(index_in(hs, h))
        } else {
            hs
        },
    }
}

/// The entries after applying each step (an update and the metadata handed
/// with it) in turn, starting from `s`.
pub open spec fn run<M>(s: Seq<RegistryEntry<M>>, steps: Seq<(ToplevelUpdate, Option<M>)>) -> Seq<RegistryEntry<M>>
    decreases steps.len(),
{
    if steps.len() == 0 {
        s
    } else {
        applied(run(s, steps.drop_last()), steps.last().0, steps.last().1)
    }
}

/// The insertion-order list after each step in turn, starting from `hs`.
pub open spec fn run_order<M>(hs: Seq<WindowHandle>, steps: Seq<(ToplevelUpdate, Option<M>)>) -> Seq<WindowHandle>
    decreases steps.len(),
{
    if steps.len() == 0 {
        hs
    } else {
        order_after(run_order(hs, steps.drop_last()), steps.last().0)
    }
}

proof fn lemma_holds_iff_contains<M>(s: Seq<RegistryEntry<M>>, h: WindowHandle)
    ensures
        holds_handle(s, h) == handles(s).contains(h),
{
    if holds_handle(s, h) {
        let k = slot_of(s, h);
        assert(handles(s)[k] == h);
    }
    if handles(s).contains(h) {
        let k = choose|k: int| 0 <= k < handles(s).len() && handles(s)[k] == h;
        assert(s[k].handle == h);
    }
}

/// One update keeps the handles unique.
pub proof fn lemma_step_keeps_unique<M>(s: Seq<RegistryEntry<M>>, u: ToplevelUpdate, resolved: Option<M>)
    requires
        unique_handles(s),
    ensures
        unique_handles(applied(s, u, resolved)),
{
    let r = applied(s, u, resolved);
    match u {
        ToplevelUpdate::Add(h, info) => {
            if holds_handle(s, h) {
                let k = slot_of(s, h);
                assert forall|i: int, j: int|
                    0 <= i < r.len() && 0 <= j < r.len() && i != j implies r[i].handle != r[j].handle by {
                    assert(r[i].handle == s[i].handle);
                    assert(r[j].handle == s[j].handle);
                }
            } else {
                assert forall|i: int, j: int|
                    0 <= i < r.len() && 0 <= j < r.len() && i != j implies r[i].handle != r[j].handle by {
                    if i < s.len() && j < s.len() {
                        assert(r[i] == s[i]);
                        assert(r[j] == s[j]);
                    } else if i < s.len() {
                        assert(r[i] == s[i]);
                    } else {
                        assert(r[j] == s[j]);
                    }
                }
            }
        },
        ToplevelUpdate::Update(h, info) => {
            if holds_handle(s, h) {
                let k = slot_of(s, h);
                assert forall|i: int, j: int|
                    0 <= i < r.len() && 0 <= j < r.len() && i != j implies r[i].handle != r[j].handle by {
                    assert(r[i].handle == s[i].handle);
                    assert(r[j].handle == s[j].handle);
                }
            }
        },
        ToplevelUpdate::Remove(h) => {
            if holds_handle(s, h) {
                let k = slot_of(s, h);
                assert forall|i: int, j: int|
                    0 <= i < r.len() && 0 <= j < r.len() && i != j implies r[i].handle != r[j].handle by {
                    let i2 = if i < k { i } else { i + 1 };
                    let j2 = if j < k { j } else { j + 1 };
                    assert(r[i] == s[i2]);
                    assert(r[j] == s[j2]);
                }
            }
        },
    }
}

/// One update moves the handle order exactly as `order_after` says.
pub proof fn lemma_step_order<M>(s: Seq<RegistryEntry<M>>, u: ToplevelUpdate, resolved: Option<M>)
    requires
        unique_handles(s),
    ensures
        handles(applied(s, u, resolved)) == order_after(handles(s), u),
{
    let r = applied(s, u, resolved);
    let hs = handles(s);
    lemma_holds_iff_contains(s, u.handle_spec());
    match u {
        ToplevelUpdate::Add(h, info) => {
            if holds_handle(s, h) {
                assert(handles(r) =~= hs);
            } else {
                assert(handles(r) =~= hs.push(h));
            }
        },
        ToplevelUpdate::Update(h, info) => {
            if holds_handle(s, h) {
                assert(handles(r) =~= hs);
            } else {
                assert(handles(r) =~= hs);
            }
        },
        ToplevelUpdate::Remove(h) => {
            if holds_handle(s, h) {
                let k = slot_of(s, h);
                assert(hs[k] == h);
                let k2 = index_in(hs, h);
                assert(s[k2].handle == h);
                assert(k2 == k);
                assert(handles(r) =~= hs.remove(k));
            } else {
                assert(handles(r) =~= hs);
            }
        },
    }
}

/// No sequence of updates ever leaves two entries with the same handle.
pub proof fn lemma_no_duplicates<M>(s: Seq<RegistryEntry<M>>, steps: Seq<(ToplevelUpdate, Option<M>)>)
    requires
        unique_handles(s),
    ensures
        unique_handles(run(s, steps)),
    decreases steps.len(),
{
    if steps.len() > 0 {
        lemma_no_duplicates(s, steps.drop_last());
        lemma_step_keeps_unique(run(s, steps.drop_last()), steps.last().0, steps.last().1);
    }
}

/// Under any sequence of updates the entries stay in insertion order: the
/// handles after the run are the starting handles with each new window
/// appended when it is added and each window taken out when it is removed.
pub proof fn lemma_insertion_order<M>(s: Seq<RegistryEntry<M>>, steps: Seq<(ToplevelUpdate, Option<M>)>)
    requires
        unique_handles(s),
    ensures
        handles(run(s, steps)) == run_order(handles(s), steps),
    decreases steps.len(),
{
    if steps.len() > 0 {
        lemma_insertion_order(s, steps.drop_last());
        lemma_no_duplicates(s, steps.drop_last());
        lemma_step_order(run(s, steps.drop_last()), steps.last().0, steps.last().1);
    }
}

/// New info with the same application identifier asks for no metadata
/// resolution, and the entry keeps its metadata.
pub proof fn lemma_same_app_id_keeps_metadata<M>(s: Seq<RegistryEntry<M>>, h: WindowHandle, info: ToplevelInfo)
    requires
        unique_handles(s),
        holds_handle(s, h),
        s[slot_of(s, h)].info.app_id@ == info.app_id@,
    ensures
        !needs_resolution(s, ToplevelUpdate::Update(h, info)),
        !needs_resolution(s, ToplevelUpdate::Add(h, info)),
        applied(s, ToplevelUpdate::Update(h, info), None)[slot_of(s, h)].metadata == s[slot_of(s, h)].metadata,
        applied(s, ToplevelUpdate::Update(h, info), None)[slot_of(s, h)].info == info,
        applied(s, ToplevelUpdate::Update(h, info), None).len() == s.len(),
{
}

/// Removing a window that is not there changes nothing, and removing the
/// same window twice does what removing it once does.
pub proof fn lemma_remove_idempotent<M>(s: Seq<RegistryEntry<M>>, h: WindowHandle, resolved: Option<M>)
    requires
        unique_handles(s),
    ensures
        !holds_handle(s, h) ==> applied(s, ToplevelUpdate::Remove(h), resolved) == s,
        applied(applied(s, ToplevelUpdate::Remove(h), resolved), ToplevelUpdate::Remove(h), resolved)
            == applied(s, ToplevelUpdate::Remove(h), resolved),
{
    let once = applied(s, ToplevelUpdate::Remove(h), resolved);
    if holds_handle(s, h) {
        let k = slot_of(s, h);
        assert(s[k].handle == h);
        if holds_handle(once, h) {
            let j = slot_of(once, h);
            let j2 = if j < k { j } else { j + 1 };
            assert(once[j] == s[j2]);
        }
    }
}

} // verus!
