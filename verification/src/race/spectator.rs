//! What a spectator sees, and what becomes of the spectator's car.

use vstd::prelude::*;
use crate::engine::{EngineCommandTarget, TargetView};
use crate::float_bits::F32Bits;
use crate::race::frame_hub::{RuntimeCarFrame, RuntimeFrame};
use crate::race::runtime_store::{RaceRuntimeStore, StoreView};
use crate::text;

verus! {

/// The car is in view: a spectator without a target sees all cars.
pub open spec fn is_in_view<T>(
    car: RuntimeCarFrame<T>,
    target: Option<EngineCommandTarget>,
) -> bool {
    match target {
        Some(target) => car.target@ == target@,
        None => true,
    }
}

/// The places in the frame of the first `n` cars that are in view.
pub open spec fn places_in_view<T>(
    cars: Seq<RuntimeCarFrame<T>>,
    target: Option<EngineCommandTarget>,
    n: int,
) -> Seq<usize>
    decreases n,
{
    if n <= 0 {
        Seq::empty()
    } else {
        let before = places_in_view(cars, target, n - 1);
        if is_in_view(cars[n - 1], target) {
            before.push((n - 1) as usize)
        } else {
            before
        }
    }
}

/// The places in the frame of the cars that are in view. The cars of a frame come in
/// the ascending order of their ids, and so do these.
pub fn visible_cars<T>(frame: &RuntimeFrame<T>, target: &Option<EngineCommandTarget>) -> (r: Vec<
    usize,
>)
    ensures
        r@ == places_in_view(frame.cars@, *target, frame.cars@.len() as int),
{
    let mut r: Vec<usize> = Vec::new();
    let mut i: usize = 0;
    while i < frame.cars.len()
        invariant
            i <= frame.cars@.len(),
            r@ == places_in_view(frame.cars@, *target, i as int),
        decreases frame.cars@.len() - i,
    {
        let in_view = match target {
            Some(target) => frame.cars[i].target.is_same(target),
            None => true,
        };
        if in_view {
            r.push(i);
        }
        i += 1;
    }
    r
}

/// Every place that is shown is the place of a car in view, no such place is left
/// out, and the places ascend.
pub proof fn visible_cars_are_those_in_view<T>(
    cars: Seq<RuntimeCarFrame<T>>,
    target: Option<EngineCommandTarget>,
    n: int,
)
    requires
        0 <= n <= cars.len() <= usize::MAX,
    ensures
        forall|i: int|
            #![trigger places_in_view(cars, target, n)[i]]
            0 <= i < places_in_view(cars, target, n).len() ==> places_in_view(cars, target, n)[i]
                < n && is_in_view(cars[places_in_view(cars, target, n)[i] as int], target),
        forall|k: int|
            0 <= k < n && is_in_view(#[trigger] cars[k], target) ==> places_in_view(
                cars,
                target,
                n,
            ).contains(k as usize),
        forall|i: int, j: int|
            #![trigger places_in_view(cars, target, n)[i], places_in_view(cars, target, n)[j]]
            0 <= i < j < places_in_view(cars, target, n).len() ==> places_in_view(cars, target, n)[i]
                < places_in_view(cars, target, n)[j],
    decreases n,
{
    if n > 0 {
        visible_cars_are_those_in_view(cars, target, n - 1);
        let before = places_in_view(cars, target, n - 1);
        let after = places_in_view(cars, target, n);
        assert forall|k: int| 0 <= k < n && is_in_view(
            #[trigger] cars[k],
            target,
        ) implies after.contains(k as usize) by {
            if k < n - 1 {
                assert(before.contains(k as usize));
                let i = choose|i: int| 0 <= i < before.len() && before[i] == k as usize;
                assert(after[i] == k as usize);
            } else {
                assert(after[before.len() as int] == k as usize);
            }
        }
        assert forall|i: int| 0 <= i < after.len() implies (#[trigger] after[i]) < n && is_in_view(
            cars[after[i] as int],
            target,
        ) by {
            if i < before.len() {
                assert(after[i] == before[i]);
            }
        }
        assert forall|i: int, j: int|
            #![trigger after[i], after[j]]
            0 <= i < j < after.len() implies after[i] < after[j] by {
            assert(after[i] == before[i]);
            if j < before.len() {
                assert(after[j] == before[j]);
            }
        }
    }
}

/// How long the race in view has run, where the spectator asks for it and the frame
/// knows.
pub fn spectator_debug<T>(
    frame: &RuntimeFrame<T>,
    debug_requested: bool,
    target: &Option<EngineCommandTarget>,
) -> (r: Option<F32Bits>)
    ensures
        r == if !debug_requested {
            None
        } else {
            match target {
                Some(EngineCommandTarget::OfficialRace) => frame.official_race_duration_s,
                Some(EngineCommandTarget::Sandbox { sandbox_id }) => if frame.sandbox_race_duration_s@.contains_key(
                sandbox_id@) {
                    Some(frame.sandbox_race_duration_s@[sandbox_id@])
                } else {
                    None
                },
                Some(EngineCommandTarget::LocalRace { .. }) => None,
                None => None,
            }
        },
{
    if !debug_requested {
        return None;
    }
    match target {
        Some(EngineCommandTarget::OfficialRace) => frame.official_race_duration_s,
        Some(EngineCommandTarget::Sandbox { sandbox_id }) => {
            match frame.sandbox_race_duration_s.get(sandbox_id.as_str()) {
                Some(duration) => Some(*duration),
                None => None,
            }
        },
        Some(EngineCommandTarget::LocalRace { .. }) => None,
        None => None,
    }
}

/// The instance owns the car, and the car is registered with the target.
pub open spec fn is_owned_in(
    s: StoreView,
    car_id: u64,
    owner: Seq<char>,
    target: TargetView,
) -> bool {
    s.record(car_id).owner == Some(owner) && s.record(car_id).target == Some(target)
}

/// The car that is cleaned up after a spectator with the instance id: one that it
/// owns in view, else the one that it drives.
pub open spec fn is_cleanup_car(
    r: Option<u64>,
    s: StoreView,
    owner: Option<Seq<char>>,
    target: Option<TargetView>,
) -> bool {
    match owner {
        None => r is None,
        Some(owner) => {
            let owns_in_view = target is Some && exists|c: u64| #[trigger]
                is_owned_in(s, c, owner, target->Some_0);
            if owns_in_view {
                r is Some && is_owned_in(s, r->Some_0, owner, target->Some_0)
            } else if s.instance_cars.contains_key(owner) {
                r == Some(s.instance_cars[owner])
            } else {
                r is None
            }
        },
    }
}

pub open spec fn opt_view(target: Option<EngineCommandTarget>) -> Option<TargetView> {
    match target {
        Some(target) => Some(target@),
        None => None,
    }
}

fn find_owned_in(store: &RaceRuntimeStore, owner: &str, target: &EngineCommandTarget) -> (r: Option<
    u64,
>)
    ensures
        match r {
            Some(c) => is_owned_in(store@, c, owner@, target@),
            None => forall|c: u64| !(#[trigger] is_owned_in(store@, c, owner@, target@)),
        },
{
    let ids: Vec<u64> = store.car_ids();
    let mut i: usize = 0;
    while i < ids.len()
        invariant
            i <= ids@.len(),
            forall|c: u64| #[trigger] ids@.contains(c) <==> store@.cars.contains_key(c),
            forall|k: int|
                0 <= k < i ==> !is_owned_in(store@, #[trigger] ids@[k], owner@, target@),
        decreases ids@.len() - i,
    {
        let is_owner = match store.car_owner(ids[i]) {
            Some(uuid) => text::str_eq(uuid.as_str(), owner),
            None => false,
        };
        let is_target = match store.car_target(ids[i]) {
            Some(other) => other.is_same(target),
            None => false,
        };
        if is_owner && is_target {
            return Some(ids[i]);
        }
        i += 1;
    }
    proof {
        assert forall|c: u64| !(#[trigger] is_owned_in(store@, c, owner@, target@)) by {
            if is_owned_in(store@, c, owner@, target@) {
                assert(store@.cars.contains_key(c));
                assert(ids@.contains(c));
                let k = choose|k: int| 0 <= k < ids@.len() && ids@[k] == c;
                assert(!is_owned_in(store@, ids@[k], owner@, target@));
            }
        }
    }
    None
}

pub fn resolve_owned_cleanup_car(
    store: &RaceRuntimeStore,
    owner_instance_uuid: &Option<String>,
    cleanup_target: &Option<EngineCommandTarget>,
) -> (r: Option<u64>)
    ensures
        is_cleanup_car(
            r,
            store@,
            crate::engine::opt_text(*owner_instance_uuid),
            opt_view(*cleanup_target),
        ),
{
    match owner_instance_uuid {
        None => None,
        Some(owner) => {
            match cleanup_target {
                Some(target) => {
                    match find_owned_in(store, owner.as_str(), target) {
                        Some(car_id) => {
                            return Some(car_id);
                        },
                        None => {},
                    }
                },
                None => {},
            }
            store.instance_car(owner.as_str())
        },
    }
}

/// How a spectator's car is cleaned up.
#[derive(Debug)]
pub enum FrontendCleanup {
    /// There is no car.
    Nothing,
    /// The car was not registered with the engine, and has been given up.
    GivenUp { car_id: u64 },
    /// The engine is to despawn the car; then `finish_frontend_cleanup` ends it.
    Despawn { car_id: u64, target: EngineCommandTarget, engine_car_id: u64 },
}

/// Begins the clean-up of the car.
pub fn begin_frontend_cleanup(store: &mut RaceRuntimeStore, car_id: Option<u64>) -> (r:
    FrontendCleanup)
    ensures
        match car_id {
            None => r is Nothing && final(store)@ == old(store)@,
            Some(car_id) => {
                let record = old(store)@.record(car_id);
                if record.target is Some && record.engine_car_id is Some {
                    &&& r matches FrontendCleanup::Despawn {
                        car_id: c,
                        target,
                        engine_car_id,
                    }
                    &&& c == car_id && Some(target@) == record.target && Some(engine_car_id)
                        == record.engine_car_id
                    &&& final(store)@ == old(store)@
                } else {
                    &&& r == FrontendCleanup::GivenUp { car_id }
                    &&& final(store)@ == old(store)@.without_driving(car_id)
                }
            },
        },
{
    let car_id: u64 = match car_id {
        None => return FrontendCleanup::Nothing,
        Some(car_id) => car_id,
    };
    match (store.car_target(car_id), store.car_engine_id(car_id)) {
        (Some(target), Some(engine_car_id)) => FrontendCleanup::Despawn {
            car_id,
            target,
            engine_car_id,
        },
        _ => {
            store.remove_car_state(car_id);
            FrontendCleanup::GivenUp { car_id }
        },
    }
}

/// The engine was asked to despawn the car; whatever it answered, the car is given up.
pub fn finish_frontend_cleanup(store: &mut RaceRuntimeStore, car_id: u64)
    ensures
        final(store)@ == old(store)@.without_driving(car_id),
{
    store.remove_car_state(car_id);
}

/// A car that was given up drives for nobody: it is not known, not registered and
/// not owned, and its former owner does not drive it.
pub proof fn given_up_car_drives_for_nobody(s: StoreView, car_id: u64)
    ensures
        ({
            let after = s.without_driving(car_id).record(car_id);
            &&& !after.known
            &&& after.target is None
            &&& after.engine_car_id is None
            &&& after.owner is None
            &&& after.identity == s.record(car_id).identity
            &&& s.record(car_id).owner matches Some(owner)
                ==> !s.without_driving(car_id).instance_cars.contains_key(owner)
                || s.without_driving(car_id).instance_cars[owner] != car_id
        }),
{
}

/// A spectator sees the cars of the session that was asked for, and all cars where none was.
pub proof fn spectator_sees_one_session_or_all<T>(
    car: RuntimeCarFrame<T>,
    target: Option<EngineCommandTarget>,
)
    ensures
        target is None ==> is_in_view(car, target),
        target matches Some(session) ==> is_in_view(car, target) == (car.target@ == session@),
        (opt_view(target) is Some) == (target is Some),
        target matches Some(session) ==> opt_view(target) == Some(session@),
{
}

/// The car that is cleaned up is one that the spectator's instance owns in the session, or
/// the one that the instance leads to where it owns none there; without an instance there is
/// none.
pub proof fn cleaned_up_car_is_the_spectators(
    r: Option<u64>,
    s: StoreView,
    owner: Option<Seq<char>>,
    target: Option<TargetView>,
    c: u64,
)
    requires
        is_cleanup_car(r, s, owner, target),
    ensures
        owner is None ==> r is None,
        owner matches Some(instance) ==> (r matches Some(car_id) ==> (target matches Some(session)
            && s.record(car_id).owner == Some(instance) && s.record(car_id).target == Some(session))
            || (s.instance_cars.contains_key(instance) && s.instance_cars[instance] == car_id)),
        owner matches Some(instance) ==> (target matches Some(session) ==> (s.record(c).owner
            == Some(instance) && s.record(c).target == Some(session) ==> r is Some && s.record(
            r->Some_0,
        ).owner == Some(instance) && s.record(r->Some_0).target == Some(session))),
        owner matches Some(instance) ==> (s.instance_cars.contains_key(instance) ==> r is Some),
{
    if owner is Some && target is Some {
        assert(is_owned_in(s, c, owner->Some_0, target->Some_0) == (s.record(c).owner == Some(
            owner->Some_0,
        ) && s.record(c).target == Some(target->Some_0)));
    }
}

} // verus!
