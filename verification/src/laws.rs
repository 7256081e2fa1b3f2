//! The release discipline, stated as laws over the platform state.
//!
//! The guards' contracts say what each call does; the laws here say what
//! follows for whole histories: releases are counted once per resource,
//! failed acquisitions release nothing, a restore returns a device context
//! to its prior state, and reference counting balances out.

use vstd::prelude::*;

use crate::sys::bump;
use crate::sys::HostView;
use crate::sys::SlotV;

verus! {

/// One observed release: some live resource was released, as
/// [`HostView::released_at`] describes.
pub open spec fn release_step(pre: HostView, post: HostView) -> bool {
    exists|h: u64| pre.live(h) && post == #[trigger] pre.released_at(h)
}

/// Releasing a live resource is observed exactly once: the counter climbs
/// by one, the resource is dead afterwards — so no second release of it can
/// ever be observed — and no other slot moves.
pub proof fn lemma_release_exactly_once(v: HostView, h: u64)
    requires
        v.valid(h),
        v.releases < u64::MAX,
    ensures
        v.released_at(h).releases == v.releases + 1,
        !v.released_at(h).live(h),
        forall|g: u64| g != h && v.valid(g) ==> v.released_at(h).slot(g) == v.slot(g),
{
}

/// Dropping owned resources one after another is observed as exactly as
/// many release calls: over any history whose steps are single releases,
/// the counter climbs by exactly the number of steps — never more, never
/// fewer.
pub proof fn lemma_releases_add_up(trace: Seq<HostView>)
    requires
        trace.len() >= 1,
        forall|i: int| 0 <= i < trace.len() - 1 ==> release_step(#[trigger] trace[i], trace[i + 1]),
        trace.first().releases + trace.len() - 1 <= u64::MAX,
    ensures
        trace.last().releases == trace.first().releases + trace.len() - 1,
    decreases trace.len(),
{
    if trace.len() > 1 {
        assert(release_step(trace[0], trace[1]));
        let h = choose|h: u64| trace[0].live(h) && trace[1] == #[trigger] trace[0].released_at(h);
        assert(trace[1].releases == bump(trace[0].releases));
        let tail = trace.subrange(1, trace.len() as int);
        assert forall|i: int| 0 <= i < tail.len() - 1 implies release_step(
            #[trigger] tail[i],
            tail[i + 1],
        ) by {
            assert(tail[i] == trace[i + 1]);
            assert(tail[i + 1] == trace[i + 2]);
            assert(release_step(trace[i + 1], trace[i + 2]));
        }
        lemma_releases_add_up(tail);
        assert(tail.last() == trace.last());
    }
}

/// A failed acquisition leaves no trace: no slot is added or changed, no
/// release is counted, nothing is destroyed, and no file appears — only
/// the spent denial is cleared.
pub proof fn lemma_failed_acquisition(v: HostView)
    ensures
        v.denied().slots == v.slots,
        v.denied().disk == v.disk,
        v.denied().releases == v.releases,
        v.denied().com_destroyed == v.com_destroyed,
{
}

/// Selecting an object into a device context and then releasing the
/// returned guard restores the previously selected object: the device
/// context returns to exactly the state it had before the selection.
pub proof fn lemma_select_restore(v: HostView, dc: u64, b: u64)
    requires
        v.live_dc(dc),
    ensures
        ({
            let sel = v.updated(dc, SlotV::Dc { owner: v.dc_owner(dc), selected: b });
            let back = sel.updated(
                dc,
                SlotV::Dc { owner: sel.dc_owner(dc), selected: v.dc_selected(dc) },
            );
            &&& sel.dc_selected(dc) == b
            &&& back.dc_selected(dc) == v.dc_selected(dc)
            &&& back == v
        }),
{
    let sel = v.updated(dc, SlotV::Dc { owner: v.dc_owner(dc), selected: b });
    let back = sel.updated(
        dc,
        SlotV::Dc { owner: sel.dc_owner(dc), selected: v.dc_selected(dc) },
    );
    assert(back.slots =~= v.slots);
    assert(back =~= v);
}

/// The state after `k` successive release calls on the reference-counted
/// object behind `h`.
pub open spec fn com_drained(v: HostView, h: u64, k: nat) -> HostView
    decreases k,
{
    if k == 0 {
        v
    } else {
        com_drained(v.com_released_at(h), h, (k - 1) as nat)
    }
}

/// Reference counting balances: starting from a count of `k` outstanding
/// references — an original plus its clones, each clone having incremented
/// the count by one — `k` release calls, one per owner, are each observed,
/// and the object is destroyed exactly once, at the last of them.
pub proof fn lemma_com_balanced(v: HostView, h: u64, k: nat)
    requires
        1 <= k,
        v.live_com(h),
        v.com_refs(h) == k,
        v.releases + k <= u64::MAX,
        v.com_destroyed < u64::MAX,
    ensures
        !com_drained(v, h, k).live(h),
        com_drained(v, h, k).releases == v.releases + k,
        com_drained(v, h, k).com_destroyed == v.com_destroyed + 1,
    decreases k,
{
    let w = v.com_released_at(h);
    if k == 1 {
        assert(com_drained(w, h, 0) == w);
        assert(com_drained(v, h, 1) == w);
    } else {
        assert(w.live_com(h));
        assert(w.com_refs(h) == k - 1);
        lemma_com_balanced(w, h, (k - 1) as nat);
    }
}

} // verus!
