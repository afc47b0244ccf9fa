//! What becomes of a driver's car when the driver's stream ends.

use vstd::prelude::*;
use crate::engine::{EngineCommandTarget, TargetView};
use crate::mode::BackendMode;
use crate::race::runtime_store::RaceRuntimeStore;

verus! {

/// How a car is cleaned up.
#[derive(Clone, Copy, PartialEq, Eq, Debug, Structural)]
pub enum CleanupPlan {
    /// The car stays where it is.
    Preserve,
    /// The car leaves the store first, then the engine.
    DetachThenDespawn,
    /// The car leaves the engine first, then the store.
    DespawnThenRemove,
}

/// Cars of an official race stay. A sandbox car of the official backend stays while
/// its bot is being switched, and is detached at once otherwise. All other cars go.
pub open spec fn cleanup_plan(
    mode: BackendMode,
    target: TargetView,
    bot_switch_in_progress: bool,
) -> CleanupPlan {
    match target {
        TargetView::OfficialRace => CleanupPlan::Preserve,
        TargetView::LocalRace { .. } => CleanupPlan::DespawnThenRemove,
        TargetView::Sandbox { .. } => if !mode.official() {
            CleanupPlan::DespawnThenRemove
        } else if bot_switch_in_progress {
            CleanupPlan::Preserve
        } else {
            CleanupPlan::DetachThenDespawn
        },
    }
}

/// Begins to clean a car up. Where the plan is to preserve it, that is all; else
/// the caller has the engine despawn it and then calls `finish_participant_cleanup`.
pub fn begin_participant_cleanup(
    store: &mut RaceRuntimeStore,
    mode: BackendMode,
    car_id: u64,
    target: &EngineCommandTarget,
    bot_switch_in_progress: bool,
) -> (plan: CleanupPlan)
    ensures
        plan == cleanup_plan(mode, target@, bot_switch_in_progress),
        (target@ is OfficialRace) ==> plan == CleanupPlan::Preserve,
        (target@ is LocalRace) ==> plan == CleanupPlan::DespawnThenRemove,
        final(store)@ == if plan == CleanupPlan::DetachThenDespawn {
            old(store)@.without_car(car_id)
        } else {
            old(store)@
        },
{
    match target {
        EngineCommandTarget::OfficialRace => CleanupPlan::Preserve,
        EngineCommandTarget::LocalRace { .. } => CleanupPlan::DespawnThenRemove,
        EngineCommandTarget::Sandbox { .. } => {
            if !mode.is_official() {
                CleanupPlan::DespawnThenRemove
            } else if bot_switch_in_progress {
                CleanupPlan::Preserve
            } else {
                store.remove_car(car_id);
                CleanupPlan::DetachThenDespawn
            }
        },
    }
}

/// Ends the cleanup of a car after the engine was asked to despawn it, whatever
/// came of that.
pub fn finish_participant_cleanup(store: &mut RaceRuntimeStore, plan: CleanupPlan, car_id: u64)
    ensures
        final(store)@ == if plan == CleanupPlan::DespawnThenRemove {
            old(store)@.without_car(car_id)
        } else {
            old(store)@
        },
{
    if plan == CleanupPlan::DespawnThenRemove {
        store.remove_car(car_id);
    }
}

/// A car that is not preserved is out of the store when its cleanup has ended, and
/// a preserved one is untouched.
pub proof fn cleaned_car_is_gone_or_untouched(
    s: crate::race::runtime_store::StoreView,
    mode: BackendMode,
    target: TargetView,
    switching: bool,
    car_id: u64,
)
    ensures
        ({
            let plan = cleanup_plan(mode, target, switching);
            let begun = if plan == CleanupPlan::DetachThenDespawn {
                s.without_car(car_id)
            } else {
                s
            };
            let ended = if plan == CleanupPlan::DespawnThenRemove {
                begun.without_car(car_id)
            } else {
                begun
            };
            if plan == CleanupPlan::Preserve {
                ended == s
            } else {
                ended == s.without_car(car_id)
            }
        }),
{
}

/// A car stays exactly where it is one of an official race, or a sandbox car of the official
/// backend whose bot is being switched. A sandbox car of the official backend that goes
/// leaves the store first, every other car the engine.
pub proof fn cars_stay_in_official_races_and_switches(
    mode: BackendMode,
    target: TargetView,
    bot_switch_in_progress: bool,
)
    ensures
        ({
            let plan = cleanup_plan(mode, target, bot_switch_in_progress);
            let official_sandbox = target is Sandbox && mode.official();
            &&& (plan is Preserve) == (target is OfficialRace || (official_sandbox
                && bot_switch_in_progress))
            &&& (plan is DetachThenDespawn) == (official_sandbox && !bot_switch_in_progress)
            &&& (plan is DespawnThenRemove) == (target is LocalRace || (target is Sandbox
                && !mode.official()))
        }),
{
}

} // verus!
