//! The commands of the race service: what a team or a developer can have done with
//! a car from outside its stream.

use vstd::prelude::*;
use crate::mappers::{engine_gear_shift_to_proto, wire_shift, Controls, EngineGearShift, WireGearShift};
use crate::mode::BackendMode;
use crate::participant::stream::{
    with_back_to_track, with_emergency_pitstop, with_input, ParticipantCommandRejectReason,
    ParticipantCommandStatus,
};
use crate::race::runtime_store::{
    PitView, RaceRuntimeStore, RuntimePitTireType, TELEPORT_IDLE_WINDOW_MS,
};
use crate::status::{Code, Status};
use crate::text;

verus! {

/// The answer to a command.
#[derive(Clone, Copy, PartialEq, Eq, Debug, Structural)]
pub struct CommandResponse {
    pub status: ParticipantCommandStatus,
    pub applies_from_tick: u64,
    pub rejected_reason: ParticipantCommandRejectReason,
}

/// A command that was carried out is accepted, one that was not is not allowed.
pub open spec fn response_to(done: bool, tick: u64) -> CommandResponse {
    if done {
        CommandResponse {
            status: ParticipantCommandStatus::Accepted,
            applies_from_tick: tick,
            rejected_reason: ParticipantCommandRejectReason::Unspecified,
        }
    } else {
        CommandResponse {
            status: ParticipantCommandStatus::Rejected,
            applies_from_tick: tick,
            rejected_reason: ParticipantCommandRejectReason::NotAllowed,
        }
    }
}

fn respond(done: bool, tick: u64) -> (r: CommandResponse)
    ensures
        r == response_to(done, tick),
{
    if done {
        CommandResponse {
            status: ParticipantCommandStatus::Accepted,
            applies_from_tick: tick,
            rejected_reason: ParticipantCommandRejectReason::Unspecified,
        }
    } else {
        CommandResponse {
            status: ParticipantCommandStatus::Rejected,
            applies_from_tick: tick,
            rejected_reason: ParticipantCommandRejectReason::NotAllowed,
        }
    }
}

/// A command that only the official backend has.
pub fn require_official(mode: BackendMode, command: &str) -> (r: Result<(), Status>)
    ensures
        mode.official() ==> r == Ok::<(), Status>(()),
        !mode.official() ==> (r matches Err(e) && e@ == (
            Code::Unimplemented,
            command@ + " is supported only in official backend mode"@,
        )),
{
    if mode.is_official() {
        Ok(())
    } else {
        Err(
            Status::with_message(
                Code::Unimplemented,
                text::join2(command, " is supported only in official backend mode"),
            ),
        )
    }
}

/// A command that only the local backend has.
pub fn require_local(mode: BackendMode, command: &str) -> (r: Result<(), Status>)
    ensures
        mode.local() ==> r == Ok::<(), Status>(()),
        !mode.local() ==> (r matches Err(e) && e@ == (
            Code::Unimplemented,
            command@ + " is supported only in local backend mode"@,
        )),
{
    if mode.is_local() {
        Ok(())
    } else {
        Err(
            Status::with_message(
                Code::Unimplemented,
                text::join2(command, " is supported only in local backend mode"),
            ),
        )
    }
}

/// A call that needs a game token.
pub fn require_token(token: Option<String>) -> (r: Result<String, Status>)
    ensures
        match token {
            Some(token) => r == Ok::<String, Status>(token),
            None => r matches Err(e) && e@ == (
                Code::Unauthenticated,
                "missing x-ha3-game-token"@,
            ),
        },
{
    match token {
        Some(token) => Ok(token),
        None => Err(Status::new(Code::Unauthenticated, "missing x-ha3-game-token")),
    }
}

/// Quick joins are for developers.
pub fn check_quick_join(is_production: bool) -> (r: Result<(), Status>)
    ensures
        !is_production ==> r == Ok::<(), Status>(()),
        is_production ==> (r matches Err(e) && e@ == (
            Code::FailedPrecondition,
            "quick join is available only in development/preprod"@,
        )),
{
    if is_production {
        return Err(
            Status::failed_precondition("quick join is available only in development/preprod"),
        );
    }
    Ok(())
}

/// The answer to controls.
#[derive(Clone, Copy, PartialEq, Eq, Debug, Structural)]
pub struct SetControlsResponse {
    pub client_seq: u64,
    pub applies_from_tick: u64,
    pub accepted_shift: WireGearShift,
}

/// The engine has taken a developer's controls over: they are remembered for the
/// car, with the number of the request.
pub fn on_dev_controls(
    store: &mut RaceRuntimeStore,
    car_id: u64,
    client_seq: u64,
    controls: Controls,
    accepted_shift: EngineGearShift,
    tick: u64,
) -> (r: SetControlsResponse)
    ensures
        final(store)@ == with_input(old(store)@, car_id, client_seq, controls),
        r == (SetControlsResponse {
            client_seq,
            applies_from_tick: tick,
            accepted_shift: wire_shift(accepted_shift),
        }),
{
    store.set_last_client_seq(car_id, client_seq);
    store.set_controls_input(
        car_id,
        controls.throttle,
        controls.brake,
        controls.brake_balancer,
        controls.differential_lock,
    );
    proof {
        assert(store@.cars =~= with_input(old(store)@, car_id, client_seq, controls).cars);
    }
    SetControlsResponse {
        client_seq,
        applies_from_tick: tick,
        accepted_shift: engine_gear_shift_to_proto(accepted_shift),
    }
}

/// The engine has put a team's car back on the track, or has not.
pub fn on_back_to_track(
    store: &mut RaceRuntimeStore,
    car_id: u64,
    done: bool,
    tick: u64,
    now_ms: u64,
) -> (r: CommandResponse)
    requires
        now_ms + TELEPORT_IDLE_WINDOW_MS <= u64::MAX,
    ensures
        r == response_to(done, tick),
        final(store)@ == if done {
            with_back_to_track(old(store)@, car_id, now_ms)
        } else {
            old(store)@
        },
{
    if done {
        store.mark_back_to_track_applied(car_id, now_ms);
    }
    respond(done, tick)
}

/// A team asks for a pit stop, or takes the request back.
pub fn on_request_pitstop(
    store: &mut RaceRuntimeStore,
    car_id: u64,
    requested: bool,
    tick: u64,
) -> (r: CommandResponse)
    ensures
        r == response_to(true, tick),
        final(store)@ == old(store)@.with_pit(
            car_id,
            PitView { pit_request_active: requested, ..old(store)@.pit(car_id) },
        ),
{
    store.set_pit_request_active(car_id, requested);
    respond(true, tick)
}

/// The engine has sent a team's car to the pit, or has not.
pub fn on_emergency_pitstop(
    store: &mut RaceRuntimeStore,
    car_id: u64,
    done: bool,
    tick: u64,
    now_ms: u64,
) -> (r: CommandResponse)
    requires
        now_ms + TELEPORT_IDLE_WINDOW_MS <= u64::MAX,
    ensures
        r == response_to(done, tick),
        final(store)@ == if done {
            with_emergency_pitstop(old(store)@, car_id, now_ms)
        } else {
            old(store)@
        },
{
    if done {
        store.mark_emergency_pitstop_requested(car_id, now_ms);
    }
    respond(done, tick)
}

/// A team chooses the tyres for the next stop; a number that stands for no tyres is
/// rejected.
pub fn on_next_pit_tire_type(
    store: &mut RaceRuntimeStore,
    car_id: u64,
    decoded: Option<RuntimePitTireType>,
    tick: u64,
) -> (r: CommandResponse)
    ensures
        r == response_to(decoded is Some, tick),
        final(store)@ == match decoded {
            Some(tire_type) => old(store)@.with_pit(
                car_id,
                PitView { next_pit_tire_type: tire_type, ..old(store)@.pit(car_id) },
            ),
            None => old(store)@,
        },
{
    match decoded {
        Some(tire_type) => {
            store.set_next_pit_tire_type(car_id, tire_type);
            respond(true, tick)
        },
        None => respond(false, tick),
    }
}

/// A command is accepted exactly where it was carried out, and not allowed otherwise; either
/// way its answer names the tick.
pub proof fn commands_are_answered_by_what_was_done(done: bool, tick: u64)
    ensures
        (response_to(done, tick).status is Accepted) == done,
        (response_to(done, tick).status is Rejected) == !done,
        response_to(done, tick).applies_from_tick == tick,
        (response_to(done, tick).rejected_reason is Unspecified) == done,
        (response_to(done, tick).rejected_reason is NotAllowed) == !done,
{
}

} // verus!
