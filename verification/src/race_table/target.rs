//! Of which session a race table is asked for.

use vstd::prelude::*;
use crate::engine::{find_active_sandbox, has_sandbox, EngineActivityKind, EngineRuntimeState};
use crate::mode::BackendMode;
use crate::status::{Code, Status};
use crate::text;

verus! {

/// The session as it is asked for.
#[derive(Debug)]
pub enum RaceTableTarget {
    Sandbox { sandbox_id: String },
    OfficialRace,
    LocalRace { race_id: String },
}

/// The session, with an id that is not blank.
#[derive(Debug)]
pub enum ParsedRaceTableTarget {
    Sandbox { sandbox_id: String },
    OfficialRace,
    LocalRace { race_id: String },
}

pub fn parse_required_target(target: &Option<RaceTableTarget>) -> (r: Result<
    ParsedRaceTableTarget,
    Status,
>)
    ensures
        match target {
            None => r matches Err(e) && e@ == (
                Code::InvalidArgument,
                "race table target is required"@,
            ),
            Some(RaceTableTarget::Sandbox { sandbox_id }) => {
                let id = text::trimmed(sandbox_id@);
                if id.len() == 0 {
                    r matches Err(e) && e@ == (
                        Code::InvalidArgument,
                        "race table sandbox target requires non-empty sandbox_id"@,
                    )
                } else {
                    r matches Ok(ParsedRaceTableTarget::Sandbox { sandbox_id: s }) && s@ == id
                }
            },
            Some(RaceTableTarget::OfficialRace) => r matches Ok(
                ParsedRaceTableTarget::OfficialRace,
            ),
            Some(RaceTableTarget::LocalRace { race_id }) => {
                let id = text::trimmed(race_id@);
                if id.len() == 0 {
                    r matches Err(e) && e@ == (
                        Code::InvalidArgument,
                        "race table local race target requires non-empty race_id"@,
                    )
                } else {
                    r matches Ok(ParsedRaceTableTarget::LocalRace { race_id: s }) && s@ == id
                }
            },
        },
{
    match target {
        None => Err(Status::invalid_argument("race table target is required")),
        Some(RaceTableTarget::Sandbox { sandbox_id }) => {
            let id: String = text::trim(sandbox_id.as_str());
            if id.as_str().is_empty() {
                return Err(
                    Status::invalid_argument(
                        "race table sandbox target requires non-empty sandbox_id",
                    ),
                );
            }
            Ok(ParsedRaceTableTarget::Sandbox { sandbox_id: id })
        },
        Some(RaceTableTarget::OfficialRace) => Ok(ParsedRaceTableTarget::OfficialRace),
        Some(RaceTableTarget::LocalRace { race_id }) => {
            let id: String = text::trim(race_id.as_str());
            if id.as_str().is_empty() {
                return Err(
                    Status::invalid_argument(
                        "race table local race target requires non-empty race_id",
                    ),
                );
            }
            Ok(ParsedRaceTableTarget::LocalRace { race_id: id })
        },
    }
}

/// Whether the backend has such sessions at all.
pub fn ensure_target_supported(mode: BackendMode, target: &ParsedRaceTableTarget) -> (r: Result<
    (),
    Status,
>)
    ensures
        match target {
            ParsedRaceTableTarget::OfficialRace => if mode.local() {
                r matches Err(e) && e@ == (
                    Code::Unimplemented,
                    "official race-table target is not supported by local backend mode"@,
                )
            } else {
                r == Ok::<(), Status>(())
            },
            ParsedRaceTableTarget::LocalRace { .. } => if mode.local() {
                r == Ok::<(), Status>(())
            } else {
                r matches Err(e) && e@ == (
                    Code::Unimplemented,
                    "local race-table target is supported only by local backend mode"@,
                )
            },
            ParsedRaceTableTarget::Sandbox { .. } => r == Ok::<(), Status>(()),
        },
{
    match target {
        ParsedRaceTableTarget::OfficialRace => {
            if mode.is_local() {
                return Err(
                    Status::new(
                        Code::Unimplemented,
                        "official race-table target is not supported by local backend mode",
                    ),
                );
            }
            Ok(())
        },
        ParsedRaceTableTarget::LocalRace { .. } => {
            if mode.is_local() {
                return Ok(());
            }
            Err(
                Status::new(
                    Code::Unimplemented,
                    "local race-table target is supported only by local backend mode",
                ),
            )
        },
        ParsedRaceTableTarget::Sandbox { .. } => Ok(()),
    }
}

/// The local race with the id is running.
pub open spec fn runs_local_race(state: EngineRuntimeState, race_id: Seq<char>) -> bool {
    state.active_local_race matches Some(race) && race.race_id@ == race_id
}

/// Whether the session is running.
pub fn ensure_target_active(state: &EngineRuntimeState, target: &ParsedRaceTableTarget) -> (r:
    Result<(), Status>)
    ensures
        match target {
            ParsedRaceTableTarget::Sandbox { sandbox_id } => if has_sandbox(
                state.active_sandboxes@,
                sandbox_id@,
            ) {
                r == Ok::<(), Status>(())
            } else {
                r matches Err(e) && e@ == (
                    Code::NotFound,
                    "active sandbox session was not found for race-table target"@,
                )
            },
            ParsedRaceTableTarget::OfficialRace => if state.activity_kind
                == EngineActivityKind::OfficialRace {
                r == Ok::<(), Status>(())
            } else {
                r matches Err(e) && e@ == (
                    Code::NotFound,
                    "official race session is not active for race-table target"@,
                )
            },
            ParsedRaceTableTarget::LocalRace { race_id } => if runs_local_race(*state, race_id@) {
                r == Ok::<(), Status>(())
            } else {
                r matches Err(e) && e@ == (
                    Code::NotFound,
                    "active local race session was not found for race-table target"@,
                )
            },
        },
{
    match target {
        ParsedRaceTableTarget::Sandbox { sandbox_id } => {
            match find_active_sandbox(&state.active_sandboxes, sandbox_id.as_str()) {
                Some(_) => Ok(()),
                None => Err(
                    Status::not_found("active sandbox session was not found for race-table target"),
                ),
            }
        },
        ParsedRaceTableTarget::OfficialRace => {
            match state.activity_kind {
                EngineActivityKind::OfficialRace => Ok(()),
                _ => Err(
                    Status::not_found("official race session is not active for race-table target"),
                ),
            }
        },
        ParsedRaceTableTarget::LocalRace { race_id } => {
            let is_running = match &state.active_local_race {
                Some(race) => text::str_eq(race.race_id.as_str(), race_id.as_str()),
                None => false,
            };
            if is_running {
                Ok(())
            } else {
                Err(
                    Status::not_found(
                        "active local race session was not found for race-table target",
                    ),
                )
            }
        },
    }
}

/// The state in which a table is built: none can be before the first frame.
pub fn require_runtime_state(state: Option<&EngineRuntimeState>) -> (r: Result<
    &EngineRuntimeState,
    Status,
>)
    ensures
        match state {
            Some(state) => r == Ok::<&EngineRuntimeState, Status>(state),
            None => r matches Err(e) && e@ == (
                Code::NotFound,
                "runtime state is unavailable"@,
            ),
        },
{
    match state {
        Some(state) => Ok(state),
        None => Err(Status::not_found("runtime state is unavailable")),
    }
}

/// A local race runs exactly where there is an active one with the id.
pub proof fn local_race_runs_under_its_id(state: EngineRuntimeState, race_id: Seq<char>)
    ensures
        state.active_local_race is None ==> !runs_local_race(state, race_id),
        state.active_local_race matches Some(race) ==> runs_local_race(state, race_id) == (
        race.race_id@ == race_id),
{
}

} // verus!
