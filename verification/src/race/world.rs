//! Cars in a world without sessions: every client drives the one car there is, or
//! the one of its instance.

use vstd::prelude::*;
use crate::race::runtime_store::{CarRecordView, RaceRuntimeStore, StoreView};
use crate::status::{Code, Status};

verus! {

/// The map of the world.
pub const WORLD_MAP_ID: &'static str = "test";

/// The car is the only known one.
pub open spec fn is_single_car(s: StoreView, car_id: u64) -> bool {
    s.record(car_id).known && forall|c: u64| (#[trigger] s.record(c)).known ==> c == car_id
}

pub open spec fn resolves_to_single_car(r: Result<u64, Status>, s: StoreView) -> bool {
    if forall|c: u64| !(#[trigger] s.record(c)).known {
        r matches Err(e) && e@ == (Code::NotFound, "no car assigned to this client"@)
    } else if exists|c: u64| is_single_car(s, c) {
        r matches Ok(c) && is_single_car(s, c)
    } else {
        r matches Err(e) && e@ == (
            Code::FailedPrecondition,
            "multiple cars active; use dev controls"@,
        )
    }
}

/// The only car that there is.
pub fn resolve_single_car_id(store: &RaceRuntimeStore) -> (r: Result<u64, Status>)
    ensures
        resolves_to_single_car(r, store@),
{
    let ids: Vec<u64> = store.known_car_ids();
    if ids.len() == 0 {
        proof {
            assert forall|c: u64| !(#[trigger] store@.record(c)).known by {
                if store@.record(c).known {
                    assert(ids@.contains(c));
                }
            }
        }
        return Err(Status::not_found("no car assigned to this client"));
    }
    proof {
        assert(ids@.contains(ids@[0]));
        assert(store@.record(ids@[0]).known);
    }
    if ids.len() > 1 {
        proof {
            assert(ids@.contains(ids@[1]));
            assert(store@.record(ids@[1]).known);
            assert(ids@[0] < ids@[1]);
        }
        return Err(Status::failed_precondition("multiple cars active; use dev controls"));
    }
    proof {
        assert forall|c: u64| (#[trigger] store@.record(c)).known implies c == ids@[0] by {
            assert(ids@.contains(c));
        }
        assert(is_single_car(store@, ids@[0]));
    }
    Ok(ids[0])
}

/// Who sends controls.
#[derive(Debug)]
pub enum ControlsSender {
    /// A client without a token.
    Anonymous,
    /// A client with a token, and the instance that it names, where it names one.
    Token(Option<String>),
}

/// The car that the controls are for.
pub fn resolve_controls_car(store: &RaceRuntimeStore, sender: &ControlsSender) -> (r: Result<
    u64,
    Status,
>)
    ensures
        match sender {
            ControlsSender::Anonymous => resolves_to_single_car(r, store@),
            ControlsSender::Token(None) => r matches Err(e) && e@ == (
                Code::Unauthenticated,
                "missing instance_uuid claim"@,
            ),
            ControlsSender::Token(Some(uuid)) => if store@.instance_cars.contains_key(uuid@) {
                r == Ok::<u64, Status>(store@.instance_cars[uuid@])
            } else {
                r matches Err(e) && e@ == (Code::NotFound, "unknown instance_uuid"@)
            },
        },
{
    match sender {
        ControlsSender::Anonymous => resolve_single_car_id(store),
        ControlsSender::Token(None) => Err(
            Status::new(Code::Unauthenticated, "missing instance_uuid claim"),
        ),
        ControlsSender::Token(Some(uuid)) => match store.instance_car(uuid.as_str()) {
            Some(car_id) => Ok(car_id),
            None => Err(Status::not_found("unknown instance_uuid")),
        },
    }
}

/// The store after a car joined the world.
pub open spec fn with_world_car(
    s: StoreView,
    car_id: u64,
    instance: Option<Seq<char>>,
) -> StoreView {
    StoreView {
        instance_cars: match instance {
            Some(uuid) => s.instance_cars.insert(uuid, car_id),
            None => s.instance_cars,
        },
        ..s.with_record(
            car_id,
            CarRecordView { known: true, last_client_seq: Some(0), ..s.record(car_id) },
        )
    }
}

/// A car joins the world, for the instance where there is one.
pub fn quick_join(store: &mut RaceRuntimeStore, car_id: u64, instance: &Option<String>)
    ensures
        final(store)@ == with_world_car(
            old(store)@,
            car_id,
            crate::engine::opt_text(*instance),
        ),
{
    match instance {
        Some(uuid) => store.set_instance_car(uuid.as_str(), car_id),
        None => {},
    }
    store.mark_known_car(car_id);
    store.set_last_client_seq(car_id, 0);
    proof {
        let after = with_world_car(old(store)@, car_id, crate::engine::opt_text(*instance));
        assert(store@.cars =~= after.cars);
    }
}

/// A car that has left the world is not known and belongs to no instance; every
/// other car is as it was.
pub proof fn left_car_is_forgotten(s: StoreView, car_id: u64, other: u64, uuid: Seq<char>)
    ensures
        !s.without_client(car_id).record(car_id).known,
        s.without_client(car_id).instance_cars.contains_key(uuid)
            ==> s.without_client(car_id).instance_cars[uuid] != car_id,
        other != car_id ==> s.without_client(car_id).record(other) == s.record(other),
{
}

/// The single car is known and no other one is.
pub proof fn single_car_is_the_only_known(s: StoreView, r: Result<u64, Status>, c: u64)
    requires
        resolves_to_single_car(r, s),
    ensures
        r matches Ok(car_id) ==> s.record(car_id).known,
        r matches Ok(car_id) ==> (s.record(c).known ==> c == car_id),
        r matches Err(e) ==> (e@.0 == Code::NotFound ==> !s.record(c).known),
        r matches Err(e) ==> e@.0 == Code::NotFound || e@.0 == Code::FailedPrecondition,
        r matches Err(e) ==> (e@.0 == Code::FailedPrecondition ==> exists|other: u64|
            other != c && (#[trigger] s.record(other)).known),
{
    if r is Err && r->Err_0@.0 == Code::FailedPrecondition {
        assert(!is_single_car(s, c));
        if s.record(c).known {
            let other = choose|other: u64| (#[trigger] s.record(other)).known && other != c;
            assert(s.record(other).known);
        } else {
            let other = choose|other: u64| (#[trigger] s.record(other)).known;
            assert(s.record(other).known);
        }
    }
}

/// A car that joins the world is known, with nothing heard from its driver yet, and the
/// instance that it joins for leads to it; its registration and every other car stay.
pub proof fn joined_world_car_is_known(
    s: StoreView,
    car_id: u64,
    instance: Option<Seq<char>>,
    other: u64,
    uuid: Seq<char>,
)
    ensures
        ({
            let after = with_world_car(s, car_id, instance);
            &&& after.record(car_id).known
            &&& after.record(car_id).last_client_seq == Some(0u64)
            &&& after.record(car_id).owner == s.record(car_id).owner
            &&& after.record(car_id).target == s.record(car_id).target
            &&& after.record(car_id).engine_car_id == s.record(car_id).engine_car_id
            &&& after.record(car_id).identity == s.record(car_id).identity
            &&& after.record(car_id).pit_state == s.record(car_id).pit_state
            &&& after.record(car_id).controls_input == s.record(car_id).controls_input
            &&& other != car_id ==> after.record(other) == s.record(other)
            &&& instance == Some(uuid) ==> after.instance_cars.contains_key(uuid)
                && after.instance_cars[uuid] == car_id
            &&& instance != Some(uuid) ==> after.instance_cars.contains_key(uuid)
                == s.instance_cars.contains_key(uuid)
            &&& after.next_public_car_id == s.next_public_car_id
        }),
{
}

} // verus!
