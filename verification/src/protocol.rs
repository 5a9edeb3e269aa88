//! The host-wide protocol: many units, one lock.
//!
//! Any number of units — from any number of processes — may be in flight
//! at once; all coordinate through the single lock path. This module
//! states the protocol as a transition system over the units' phases and
//! the lock holder, with the OS lock semantics as the enabling conditions,
//! and proves the property the whole design exists for: no two units are
//! ever speaking at the same time.

use vstd::prelude::*;
use crate::unit::{UnitEvent, UnitPhase, event_fits, phase_after};

verus! {

/// True when a unit in phase `ph` holds the lock: from the moment of the
/// grant until its release is complete.
pub open spec fn holds_lock(ph: UnitPhase) -> bool {
    ph is Speaking || ph matches UnitPhase::Releasing(_)
}

/// The host at one instant: each in-flight unit's phase, by unit id, and
/// the current lock holder.
pub struct HostState {
    pub units: Map<nat, UnitPhase>,
    pub holder: Option<nat>,
}

/// The protocol invariant: whoever holds the lock is the recorded holder.
/// Since there is at most one recorded holder, at most one unit can be
/// past the grant and before the release.
pub open spec fn inv(s: HostState) -> bool {
    forall|i: nat|
        s.units.dom().contains(i) && holds_lock(#[trigger] s.units[i]) ==> s.holder == Some(i)
}

/// True when event `ev` can be delivered to unit `i`: the unit is waiting
/// for it, and the OS lock semantics allow it — an exclusive lock is
/// granted only when free, and only the holder completes a release.
pub open spec fn enabled(s: HostState, i: nat, ev: UnitEvent) -> bool {
    &&& s.units.dom().contains(i)
    &&& event_fits(s.units[i], ev)
    &&& (ev is LockOk ==> s.holder is None)
    &&& (ev is Released ==> s.holder == Some(i))
}

/// The host after event `ev` is delivered to unit `i`.
pub open spec fn host_step(s: HostState, i: nat, ev: UnitEvent) -> HostState {
    HostState {
        units: s.units.insert(i, phase_after(s.units[i], ev)),
        holder: if ev is LockOk {
            Some(i)
        } else if ev is Released {
            None
        } else {
            s.holder
        },
    }
}

/// True of the host before anything has happened: the lock is free and no
/// unit has started.
pub open spec fn init(s: HostState) -> bool {
    &&& s.holder is None
    &&& forall|i: nat| s.units.dom().contains(i) ==> #[trigger] s.units[i] is Ready
}

/// The initial host satisfies the invariant, so by induction with
/// `lemma_step_preserves_inv` the invariant — and with it mutual
/// exclusion — holds along every run of the protocol.
pub proof fn lemma_init_satisfies_inv(s: HostState)
    requires
        init(s),
    ensures
        inv(s),
{
}

/// A step that is not a grant never creates a lock holder: if the unit
/// holds the lock afterwards, it already held it before.
proof fn lemma_holds_lock_preserved(ph: UnitPhase, ev: UnitEvent)
    requires
        !(ev is LockOk),
        holds_lock(phase_after(ph, ev)),
    ensures
        holds_lock(ph),
{
}

/// Every enabled step preserves the protocol invariant, so it holds of
/// every state reachable from one that satisfies it.
pub proof fn lemma_step_preserves_inv(s: HostState, i: nat, ev: UnitEvent)
    requires
        inv(s),
        enabled(s, i, ev),
    ensures
        inv(host_step(s, i, ev)),
{
    let s2 = host_step(s, i, ev);
    assert forall|j: nat|
        s2.units.dom().contains(j) && holds_lock(#[trigger] s2.units[j]) implies s2.holder == Some(
        j,
    ) by {
        if j == i {
            if !(ev is LockOk) {
                lemma_holds_lock_preserved(s.units[i], ev);
            }
        } else {
            assert(s2.units[j] == s.units[j]);
            if !(ev is LockOk) && !(ev is Released) {
                assert(s.holder == Some(j));
            }
        }
    }
}

/// Mutual exclusion: under the invariant, no two distinct units are
/// speaking at the same instant — the backend never plays two utterances
/// at once, however many requests were dispatched concurrently.
pub proof fn lemma_mutual_exclusion(s: HostState, i: nat, j: nat)
    requires
        inv(s),
        s.units.dom().contains(i),
        s.units.dom().contains(j),
        s.units[i] is Speaking,
        s.units[j] is Speaking,
    ensures
        i == j,
{
    assert(s.holder == Some(i));
    assert(s.holder == Some(j));
}

/// A completed release frees the lock: immediately after unit `i`'s
/// release, a grant to any unit that is waiting for the lock is enabled.
/// A stuck or failed earlier holder cannot block the queue once its
/// release has run.
pub proof fn lemma_release_unblocks_waiter(s: HostState, i: nat, j: nat)
    requires
        inv(s),
        enabled(s, i, UnitEvent::Released),
        s.units.dom().contains(j),
        s.units[j] is Acquiring,
    ensures
        enabled(host_step(s, i, UnitEvent::Released), j, UnitEvent::LockOk),
{
    let s2 = host_step(s, i, UnitEvent::Released);
    assert(s.units[i] is Releasing);
    assert(i != j);
    assert(s2.units[j] == s.units[j]);
}

} // verus!
