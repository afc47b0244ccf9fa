//! The steps by which a car joins a local sandbox or a local race. Each step says what
//! is to be done next; a step that fails says what is to be undone.

use vstd::prelude::*;
use crate::engine::{
    map_worker_err, worker_status, EngineRuntimeState, EngineWorkerError, TargetView,
};
use crate::mode::BackendMode;
use crate::participant::join::{
    fresh_registration, local_race_start_slot, map_local_race_state_err, place_for_spawn_mode,
    race_identity, register_local_race_car, register_sandbox_car, state_error, with_sandbox_car,
    LocalRaceJoin, LocalRaceStateError, LocalSandboxSpawnModeRecord, Placement, TokenClaims,
};
use crate::race::runtime_store::{with_next_id, RaceRuntimeStore, StoreView};
use crate::race::stream_settings::{is_sandbox_choice, select_quick_join_sandbox};
use crate::status::{Code, Status};

verus! {

/// What is undone when a car cannot join.
#[derive(Clone, Copy, PartialEq, Eq, Debug, Structural)]
pub enum Undo {
    Nothing,
    /// The engine despawns the car.
    Despawn { engine_car_id: u64 },
    /// The engine despawns the car, and the race forgets the participant.
    DespawnAndLeave { engine_car_id: u64, car_id: u64 },
}

/// A car cannot join.
#[derive(Debug)]
pub struct Refusal {
    pub undo: Undo,
    pub status: Status,
}

/// A car that was spawned for a local race, and the id that it got.
#[derive(Debug)]
pub struct SpawnedRaceCar {
    pub join: LocalRaceJoin,
    pub car_id: u64,
    pub engine_car_id: u64,
}

/// A car whose driver the race has taken in.
#[derive(Debug)]
pub struct RegisteredRaceCar {
    pub spawned: SpawnedRaceCar,
    pub participant_index: u32,
}

/// A car with the start slot that it is put on.
#[derive(Debug)]
pub struct SlottedRaceCar {
    pub registered: RegisteredRaceCar,
    pub start_slot: u64,
}

/// A car that has joined a local race.
#[derive(Debug)]
pub struct JoinedLocalRace {
    pub car_id: u64,
    pub race_id: String,
    pub participant_index: u32,
}

/// The answer is that of the engine's error.
pub open spec fn is_worker_refusal(refusal: Refusal, undo: Undo, err: EngineWorkerError) -> bool {
    refusal.undo == undo && refusal.status@ == worker_status(err)
}

/// The engine has spawned a car for the race, or has not. The car gets an id; next the
/// race is to take its driver in.
pub fn on_race_car_spawned(
    store: &mut RaceRuntimeStore,
    join: LocalRaceJoin,
    spawned: Result<u64, EngineWorkerError>,
) -> (r: Result<SpawnedRaceCar, Refusal>)
    ensures
        match spawned {
            Err(err) => {
                &&& r matches Err(refusal) && is_worker_refusal(refusal, Undo::Nothing, err)
                &&& final(store)@ == old(store)@
            },
            Ok(engine_car_id) => {
                &&& r == Ok::<SpawnedRaceCar, Refusal>(
                    SpawnedRaceCar {
                        join,
                        car_id: old(store)@.next_public_car_id,
                        engine_car_id,
                    },
                )
                &&& final(store)@ == with_next_id(old(store)@)
            },
        },
{
    match spawned {
        Err(err) => Err(Refusal { undo: Undo::Nothing, status: map_worker_err(err) }),
        Ok(engine_car_id) => {
            let car_id: u64 = store.allocate_public_car_id();
            Ok(SpawnedRaceCar { join, car_id, engine_car_id })
        },
    }
}

/// The race has taken the driver in under an index, or has not. Next the number of
/// start slots is to be read.
pub fn on_driver_registered(
    spawned: SpawnedRaceCar,
    registered: Result<u32, LocalRaceStateError>,
) -> (r: Result<RegisteredRaceCar, Refusal>)
    ensures
        match registered {
            Err(err) => r matches Err(refusal) && refusal.undo == (Undo::Despawn {
                engine_car_id: spawned.engine_car_id,
            }) && refusal.status@ == state_error(err),
            Ok(participant_index) => r == Ok::<RegisteredRaceCar, Refusal>(
                RegisteredRaceCar { spawned, participant_index },
            ),
        },
{
    match registered {
        Err(err) => Err(
            Refusal {
                undo: Undo::Despawn { engine_car_id: spawned.engine_car_id },
                status: map_local_race_state_err(err),
            },
        ),
        Ok(participant_index) => Ok(RegisteredRaceCar { spawned, participant_index }),
    }
}

/// The number of start slots was read, or was not. Next the car is to be put on its
/// slot. A map without slots refuses the driver and leaves the car where it is.
pub fn on_slots_read(
    registered: RegisteredRaceCar,
    slots: Result<u64, EngineWorkerError>,
) -> (r: Result<SlottedRaceCar, Refusal>)
    ensures
        match slots {
            Err(err) => r matches Err(refusal) && is_worker_refusal(refusal, Undo::Nothing, err),
            Ok(slots) => if slots == 0 {
                r matches Err(refusal) && refusal.undo == Undo::Nothing && refusal.status@ == (
                    Code::FailedPrecondition,
                    "no start slots available for selected map"@,
                )
            } else {
                r == Ok::<SlottedRaceCar, Refusal>(
                    SlottedRaceCar {
                        registered,
                        start_slot: start_slot_of(registered.participant_index, slots),
                    },
                )
            },
        },
        r matches Ok(slotted) ==> slots matches Ok(n) && 1 <= slotted.start_slot <= n,
{
    match slots {
        Err(err) => Err(Refusal { undo: Undo::Nothing, status: map_worker_err(err) }),
        Ok(slots) => match local_race_start_slot(registered.participant_index, slots) {
            Err(status) => Err(Refusal { undo: Undo::Nothing, status }),
            Ok(start_slot) => Ok(SlottedRaceCar { registered, start_slot }),
        },
    }
}

/// The slot of the driver with the index: the slots are dealt out in order, again and
/// again.
pub open spec fn start_slot_of(participant_index: u32, slots: u64) -> u64 {
    let place = if participant_index == 0 {
        0
    } else {
        participant_index - 1
    };
    (place % (slots as int) + 1) as u64
}

/// The engine has put the car on its slot, or has not. A car on its slot is registered
/// and has joined.
pub fn on_race_car_placed(
    store: &mut RaceRuntimeStore,
    slotted: SlottedRaceCar,
    placed: Result<(), EngineWorkerError>,
) -> (r: Result<JoinedLocalRace, Refusal>)
    ensures
        ({
            let car = slotted.registered.spawned;
            match placed {
                Err(err) => {
                    &&& r matches Err(refusal) && is_worker_refusal(
                        refusal,
                        Undo::DespawnAndLeave {
                            engine_car_id: car.engine_car_id,
                            car_id: car.car_id,
                        },
                        err,
                    )
                    &&& final(store)@ == old(store)@
                },
                Ok(_) => {
                    &&& r == Ok::<JoinedLocalRace, Refusal>(
                        JoinedLocalRace {
                            car_id: car.car_id,
                            race_id: car.join.race_id,
                            participant_index: slotted.registered.participant_index,
                        },
                    )
                    &&& final(store)@ == with_race_car(
                        old(store)@,
                        car,
                        slotted.registered.participant_index,
                    )
                },
            }
        }),
{
    let SlottedRaceCar { registered, start_slot: _ } = slotted;
    let participant_index: u32 = registered.participant_index;
    let car: SpawnedRaceCar = registered.spawned;
    match placed {
        Err(err) => Err(
            Refusal {
                undo: Undo::DespawnAndLeave {
                    engine_car_id: car.engine_car_id,
                    car_id: car.car_id,
                },
                status: map_worker_err(err),
            },
        ),
        Ok(_) => {
            register_local_race_car(
                store,
                car.car_id,
                car.engine_car_id,
                &car.join,
                participant_index,
            );
            Ok(
                JoinedLocalRace {
                    car_id: car.car_id,
                    race_id: car.join.race_id,
                    participant_index,
                },
            )
        },
    }
}

/// The store with the car of a local race.
pub open spec fn with_race_car(
    s: StoreView,
    car: SpawnedRaceCar,
    participant_index: u32,
) -> StoreView {
    s.with_record(
        car.car_id,
        fresh_registration(
            s.record(car.car_id),
            car.engine_car_id,
            TargetView::LocalRace { race_id: car.join.race_id@ },
            race_identity(car.join.display_name@, participant_index),
        ),
    )
}

/// The sandbox that a car joins, and the map that it runs on.
#[derive(Debug)]
pub struct JoinableSandbox {
    pub sandbox_id: String,
    pub map_id: String,
}

/// Finds the sandbox that a driver asks for among those that run; the only one where
/// none is named. Next a car is to be spawned in it.
pub fn begin_sandbox_join(state: &EngineRuntimeState, requested_sandbox_id: &str) -> (r: Result<
    JoinableSandbox,
    Status,
>)
    ensures
        exists|choice: Result<usize, Status>|
            {
                &&& #[trigger] is_sandbox_choice(*state, requested_sandbox_id@, choice)
                &&& match choice {
                    Ok(i) => r matches Ok(found) && found.sandbox_id
                        == state.active_sandboxes@[i as int].sandbox_id && found.map_id
                        == state.active_sandboxes@[i as int].map_id,
                    Err(e) => r == Err::<JoinableSandbox, Status>(e),
                }
            },
{
    let choice: Result<usize, Status> = select_quick_join_sandbox(state, requested_sandbox_id);
    assert(is_sandbox_choice(*state, requested_sandbox_id@, choice));
    match choice {
        Ok(i) => Ok(
            JoinableSandbox {
                sandbox_id: state.active_sandboxes[i].sandbox_id.clone(),
                map_id: state.active_sandboxes[i].map_id.clone(),
            },
        ),
        Err(e) => Err(e),
    }
}

/// The spawn mode of the sandbox and the number of its start slots were read. The
/// number counts for a random slot only. Next the car is to be placed.
pub fn on_spawn_mode(
    engine_car_id: u64,
    mode: Result<LocalSandboxSpawnModeRecord, Status>,
    slots: Result<u64, EngineWorkerError>,
) -> (r: Result<Placement, Refusal>)
    ensures
        match mode {
            Err(status) => r == Err::<Placement, Refusal>(
                Refusal { undo: Undo::Despawn { engine_car_id }, status },
            ),
            Ok(LocalSandboxSpawnModeRecord::StartLine) => r == Ok::<Placement, Refusal>(
                Placement::BeforeFinishLine,
            ),
            Ok(LocalSandboxSpawnModeRecord::RandomOnTrack) => r == Ok::<Placement, Refusal>(
                Placement::RandomOnTrack,
            ),
            Ok(LocalSandboxSpawnModeRecord::InPit) => r == Ok::<Placement, Refusal>(
                Placement::InPit,
            ),
            Ok(LocalSandboxSpawnModeRecord::RandomStartSlot) => match slots {
                Err(err) => r matches Err(refusal) && is_worker_refusal(
                    refusal,
                    Undo::Despawn { engine_car_id },
                    err,
                ),
                Ok(slots) => if slots == 0 {
                    r matches Err(refusal) && refusal.undo == (Undo::Despawn { engine_car_id })
                        && refusal.status@ == (
                        Code::FailedPrecondition,
                        "no start slots available for selected map"@,
                    )
                } else {
                    r matches Ok(Placement::StartSlot(slot)) && 1 <= slot <= slots
                },
            },
        },
{
    let mode: LocalSandboxSpawnModeRecord = match mode {
        Err(status) => {
            return Err(Refusal { undo: Undo::Despawn { engine_car_id }, status });
        },
        Ok(mode) => mode,
    };
    let slots: u64 = match mode {
        LocalSandboxSpawnModeRecord::RandomStartSlot => match slots {
            Err(err) => {
                return Err(
                    Refusal { undo: Undo::Despawn { engine_car_id }, status: map_worker_err(err) },
                );
            },
            Ok(slots) => slots,
        },
        _ => 0,
    };
    match place_for_spawn_mode(mode, slots) {
        Ok(placement) => Ok(placement),
        Err(status) => Err(Refusal { undo: Undo::Despawn { engine_car_id }, status }),
    }
}

/// The engine has placed the car, or has not. A car in its place is registered and has
/// joined, for the driver that the token names.
pub fn on_sandbox_car_placed(
    store: &mut RaceRuntimeStore,
    mode: BackendMode,
    sandbox_id: &str,
    engine_car_id: u64,
    placed: Result<(), EngineWorkerError>,
    claims: Option<TokenClaims>,
) -> (r: Result<u64, Refusal>)
    ensures
        match placed {
            Err(err) => {
                &&& r matches Err(refusal) && is_worker_refusal(
                    refusal,
                    Undo::Despawn { engine_car_id },
                    err,
                )
                &&& final(store)@ == old(store)@
            },
            Ok(_) => if !mode.standalone() && claims is None {
                &&& r matches Err(refusal) && refusal.undo == Undo::Nothing && refusal.status@ == (
                    Code::Unauthenticated,
                    "missing x-ha3-game-token"@,
                )
                &&& final(store)@ == with_next_id(old(store)@)
            } else {
                &&& r == Ok::<u64, Refusal>(old(store)@.next_public_car_id)
                &&& final(store)@ == with_sandbox_car(
                    old(store)@,
                    sandbox_id@,
                    engine_car_id,
                    if mode.standalone() {
                        None
                    } else {
                        claims
                    },
                )
            },
        },
{
    match placed {
        Err(err) => Err(
            Refusal { undo: Undo::Despawn { engine_car_id }, status: map_worker_err(err) },
        ),
        Ok(_) => match register_sandbox_car(store, mode, sandbox_id, engine_car_id, claims) {
            Ok(car_id) => Ok(car_id),
            Err(status) => Err(Refusal { undo: Undo::Nothing, status }),
        },
    }
}

/// A driver that has joined a local race is known, stands in the race under the index
/// that the race gave, and no other car has changed.
pub proof fn joined_driver_is_in_the_race(
    s: StoreView,
    car: SpawnedRaceCar,
    participant_index: u32,
    other: u64,
)
    ensures
        ({
            let after = with_race_car(s, car, participant_index);
            let record = after.record(car.car_id);
            &&& record.known
            &&& record.target == Some(TargetView::LocalRace { race_id: car.join.race_id@ })
            &&& record.engine_car_id == Some(car.engine_car_id)
            &&& record.identity == Some(race_identity(car.join.display_name@, participant_index))
            &&& other != car.car_id ==> after.record(other) == s.record(other)
        }),
{
}

/// The first driver gets the first slot, each that follows the next one, and after the last
/// slot comes the first again.
pub proof fn slots_are_dealt_in_order(participant_index: u32, slots: u64)
    requires
        1 <= participant_index < u32::MAX,
        slots > 0,
    ensures
        start_slot_of(0, slots) == 1,
        start_slot_of(1, slots) == 1,
        1 <= start_slot_of(participant_index, slots) <= slots,
        participant_index <= slots ==> start_slot_of(participant_index, slots)
            == participant_index,
        start_slot_of((participant_index + 1) as u32, slots) == if start_slot_of(
            participant_index,
            slots,
        ) == slots {
            1
        } else {
            start_slot_of(participant_index, slots) + 1
        },
{
    let n = slots as int;
    let place = participant_index - 1;
    let q = place / n;
    let m = place % n;
    vstd::arithmetic::div_mod::lemma_fundamental_div_mod(place, n);
    vstd::arithmetic::div_mod::lemma_small_mod(0, slots as nat);
    if participant_index <= slots {
        vstd::arithmetic::div_mod::lemma_small_mod(place as nat, slots as nat);
    }
    assert(0 <= m < n) by {
        vstd::arithmetic::div_mod::lemma_mod_bound(place, n);
    }
    if m + 1 < n {
        vstd::arithmetic::div_mod::lemma_fundamental_div_mod_converse(place + 1, n, q, m + 1);
    } else {
        assert(place + 1 == n * (q + 1) + 0) by (nonlinear_arith)
            requires
                place == n * q + m,
                m + 1 == n,
        ;
        assert(n * (q + 1) == (q + 1) * n) by (nonlinear_arith);
        vstd::arithmetic::div_mod::lemma_fundamental_div_mod_converse(place + 1, n, q + 1, 0);
    }
}

/// A refusal by the engine undoes what was asked for and tells the engine's error.
pub proof fn worker_refusal_tells_the_error(refusal: Refusal, undo: Undo, err: EngineWorkerError)
    ensures
        is_worker_refusal(refusal, undo, err) ==> refusal.undo == undo && refusal.status@
            == worker_status(err),
{
}

/// A car that has joined a race has nothing heard from its driver yet; its owner, its stops
/// and its controls stay, and no id is spent.
pub proof fn joined_race_car_keeps_its_past(
    s: StoreView,
    car: SpawnedRaceCar,
    participant_index: u32,
)
    ensures
        ({
            let after = with_race_car(s, car, participant_index);
            let record = after.record(car.car_id);
            &&& record.last_client_seq == Some(0u64)
            &&& record.owner == s.record(car.car_id).owner
            &&& record.pit_state == s.record(car.car_id).pit_state
            &&& record.controls_input == s.record(car.car_id).controls_input
            &&& record.identity matches Some(identity)
            &&& identity.local_race_display_name == Some(car.join.display_name@)
            &&& identity.local_race_participant_index == Some(participant_index)
            &&& after.next_public_car_id == s.next_public_car_id
            &&& after.instance_cars == s.instance_cars
        }),
{
}

} // verus!
