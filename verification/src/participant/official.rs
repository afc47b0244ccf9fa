//! Teams and their cars in the official race.

use vstd::prelude::*;
use crate::engine::{
    find_active_sandbox, has_sandbox, is_first_sandbox, opt_text, EngineActivityKind,
    EngineCommandTarget, EngineRuntimeState, TargetView,
};
use crate::participant::registry::OfficialRaceBots;
use crate::race::runtime_store::{RaceRuntimeStore, StoreView};
use crate::status::{Code, Status};
use crate::text;

verus! {

/// The bot that drives a team's car in the official race.
#[derive(Debug)]
pub struct TeamOfficialRaceBotState {
    pub public_car_id: u64,
    pub engine_car_id: u64,
    pub start_position_index: u64,
    pub slot_index: i16,
    pub container_name: String,
    pub container_id: String,
    pub submission_id: String,
    pub image_ref: String,
    pub log_file_path: String,
    pub auto_restart_attempts: u32,
}

impl Clone for TeamOfficialRaceBotState {
    fn clone(&self) -> (r: Self)
        ensures
            r == *self,
    {
        TeamOfficialRaceBotState {
            public_car_id: self.public_car_id,
            engine_car_id: self.engine_car_id,
            start_position_index: self.start_position_index,
            slot_index: self.slot_index,
            container_name: self.container_name.clone(),
            container_id: self.container_id.clone(),
            submission_id: self.submission_id.clone(),
            image_ref: self.image_ref.clone(),
            log_file_path: self.log_file_path.clone(),
            auto_restart_attempts: self.auto_restart_attempts,
        }
    }
}

/// The car is the team's car in the official race and is registered in the engine.
pub open spec fn is_team_car(s: StoreView, team_id: Seq<char>, car_id: u64) -> bool {
    let record = s.record(car_id);
    &&& record.identity matches Some(identity) && identity.team_id == Some(team_id)
    &&& record.target == Some(TargetView::OfficialRace)
    &&& record.engine_car_id is Some
}

/// The team has two cars in the official race or more.
pub open spec fn has_many_cars(s: StoreView, team_id: Seq<char>) -> bool {
    exists|a: u64, b: u64|
        a != b && #[trigger] is_team_car(s, team_id, a) && #[trigger] is_team_car(s, team_id, b)
}

/// The cars of a team in the official race.
#[derive(Clone, Copy, PartialEq, Eq, Debug, Structural)]
pub enum TeamCars {
    NoCar,
    OneCar(u64, u64),
    ManyCars,
}

pub open spec fn are_team_cars(r: TeamCars, s: StoreView, team_id: Seq<char>) -> bool {
    match r {
        TeamCars::NoCar => forall|c: u64| !#[trigger] is_team_car(s, team_id, c),
        TeamCars::OneCar(car_id, engine_car_id) => {
            &&& is_team_car(s, team_id, car_id)
            &&& s.record(car_id).engine_car_id == Some(engine_car_id)
            &&& forall|c: u64| #[trigger] is_team_car(s, team_id, c) ==> c == car_id
        },
        TeamCars::ManyCars => has_many_cars(s, team_id),
    }
}

fn team_car_engine_id(store: &RaceRuntimeStore, team_id: &str, car_id: u64) -> (r: Option<u64>)
    ensures
        r is Some <==> is_team_car(store@, team_id@, car_id),
        r is Some ==> store@.record(car_id).engine_car_id == r,
{
    let is_of_team: bool = match store.car_identity(car_id) {
        Some(identity) => match identity.team_id {
            Some(team) => text::str_eq(team.as_str(), team_id),
            None => false,
        },
        None => false,
    };
    let is_official: bool = match store.car_target(car_id) {
        Some(target) => target.is_official_race(),
        None => false,
    };
    if !is_of_team || !is_official {
        return None;
    }
    store.car_engine_id(car_id)
}

/// Finds the cars that the team has in the official race.
pub fn find_team_cars(store: &RaceRuntimeStore, team_id: &str) -> (r: TeamCars)
    ensures
        are_team_cars(r, store@, team_id@),
{
    let ids: Vec<u64> = store.car_ids();
    let mut found: Option<(u64, u64)> = None;
    let mut i: usize = 0;
    while i < ids.len()
        invariant
            i <= ids@.len(),
            ids@.no_duplicates(),
            forall|c: u64| #[trigger] ids@.contains(c) <==> store@.cars.contains_key(c),
            match found {
                None => forall|k: int|
                    0 <= k < i ==> !is_team_car(store@, team_id@, #[trigger] ids@[k]),
                Some((car_id, engine_car_id)) => {
                    &&& is_team_car(store@, team_id@, car_id)
                    &&& store@.record(car_id).engine_car_id == Some(engine_car_id)
                    &&& exists|k: int| 0 <= k < i && #[trigger] ids@[k] == car_id
                    &&& forall|k: int|
                        0 <= k < i && is_team_car(store@, team_id@, #[trigger] ids@[k]) ==> ids@[k]
                            == car_id
                },
            },
        decreases ids@.len() - i,
    {
        let id: u64 = ids[i];
        match team_car_engine_id(store, team_id, id) {
            Some(engine_car_id) => {
                match found {
                    None => {
                        found = Some((id, engine_car_id));
                    },
                    Some((car_id, _)) => {
                        proof {
                            let k = choose|k: int| 0 <= k < i && #[trigger] ids@[k] == car_id;
                            assert(ids@[k] != ids@[i as int]);
                            assert(is_team_car(store@, team_id@, car_id));
                            assert(is_team_car(store@, team_id@, id));
                        }
                        return TeamCars::ManyCars;
                    },
                }
            },
            None => {},
        }
        i += 1;
    }
    proof {
        assert forall|c: u64| #[trigger] is_team_car(store@, team_id@, c) implies exists|k: int|
            0 <= k < ids@.len() && #[trigger] ids@[k] == c by {
            assert(store@.cars.contains_key(c));
            assert(ids@.contains(c));
        }
    }
    match found {
        None => TeamCars::NoCar,
        Some((car_id, engine_car_id)) => TeamCars::OneCar(car_id, engine_car_id),
    }
}

/// The team's car in the official race and the engine car that it is, where the
/// team has one.
pub fn resolve_team_official_race_car(store: &RaceRuntimeStore, team_id: &str) -> (r: Result<
    Option<(u64, u64)>,
    Status,
>)
    ensures
        ({
            let team = text::trimmed(team_id@);
            if team.len() == 0 {
                r matches Err(e) && e@ == (Code::Unauthenticated, "missing team_id claim"@)
            } else if has_many_cars(store@, team) {
                r matches Err(e) && e@ == (
                    Code::FailedPrecondition,
                    "multiple active official-race cars found for team"@,
                )
            } else {
                r matches Ok(found) && are_team_cars(
                    match found {
                        None => TeamCars::NoCar,
                        Some((c, e)) => TeamCars::OneCar(c, e),
                    },
                    store@,
                    team,
                )
            }
        }),
{
    let team: String = text::trim(team_id);
    if team.as_str().is_empty() {
        return Err(Status::new(Code::Unauthenticated, "missing team_id claim"));
    }
    match find_team_cars(store, team.as_str()) {
        TeamCars::NoCar => Ok(None),
        TeamCars::OneCar(car_id, engine_car_id) => Ok(Some((car_id, engine_car_id))),
        TeamCars::ManyCars => Err(
            Status::failed_precondition("multiple active official-race cars found for team"),
        ),
    }
}

/// The team's car, which it must have.
pub open spec fn is_required_car(
    r: Result<(u64, u64), Status>,
    s: StoreView,
    team: Seq<char>,
) -> bool {
    if team.len() == 0 {
        r matches Err(e) && e@ == (Code::Unauthenticated, "missing team_id claim"@)
    } else if has_many_cars(s, team) {
        r matches Err(e) && e@ == (
            Code::FailedPrecondition,
            "multiple active official-race cars found for team"@,
        )
    } else if forall|c: u64| !#[trigger] is_team_car(s, team, c) {
        r matches Err(e) && e@ == (Code::NotFound, "no active official-race car for team"@)
    } else {
        r matches Ok((c, e)) && are_team_cars(TeamCars::OneCar(c, e), s, team)
    }
}

/// The team's car in the official race, which it must have.
pub fn require_team_official_race_car(store: &RaceRuntimeStore, team_id: &str) -> (r: Result<
    (u64, u64),
    Status,
>)
    ensures
        is_required_car(r, store@, text::trimmed(team_id@)),
{
    match resolve_team_official_race_car(store, team_id) {
        Err(e) => Err(e),
        Ok(None) => Err(Status::not_found("no active official-race car for team")),
        Ok(Some(pair)) => Ok(pair),
    }
}

/// The car that a team's request is about. Unlike on a stream, the team's name
/// counts with all its characters; it must not be blank.
pub fn resolve_team_official_car(store: &RaceRuntimeStore, team_id: Option<&str>) -> (r: Result<
    (u64, u64),
    Status,
>)
    ensures
        match team_id {
            None => r matches Err(e) && e@ == (Code::Unauthenticated, "missing team_id claim"@),
            Some(team) => is_required_car(
                r,
                store@,
                if text::is_blank(team@) {
                    Seq::empty()
                } else {
                    team@
                },
            ),
        },
{
    let missing = Status::new(Code::Unauthenticated, "missing team_id claim");
    match team_id {
        None => Err(missing),
        Some(team) => {
            let trimmed: String = text::trim(team);
            proof {
                text::trimmed_is_empty_iff_blank(team@);
            }
            if trimmed.as_str().is_empty() {
                return Err(missing);
            }
            proof {
                if team@.len() == 0 {
                    assert(text::is_blank(team@));
                }
            }
            match find_team_cars(store, team) {
                TeamCars::NoCar => Err(Status::not_found("no active official-race car for team")),
                TeamCars::OneCar(car_id, engine_car_id) => {
                    assert(is_team_car(store@, team@, car_id));
                    Ok((car_id, engine_car_id))
                },
                TeamCars::ManyCars => {
                    proof {
                        let (a, b) = choose|a: u64, b: u64|
                            a != b && #[trigger] is_team_car(store@, team@, a)
                                && #[trigger] is_team_car(store@, team@, b);
                        assert(is_team_car(store@, team@, a));
                    }
                    Err(
                        Status::failed_precondition(
                            "multiple active official-race cars found for team",
                        ),
                    )
                },
            }
        },
    }
}

/// The team that a token must name.
pub fn required_team_id(claimed: Option<&str>) -> (r: Result<String, Status>)
    ensures
        match claimed {
            Some(team) if text::trimmed(team@).len() > 0 => r matches Ok(t) && t@ == text::trimmed(
                team@,
            ),
            _ => r matches Err(e) && e@ == (Code::Unauthenticated, "missing team_id claim"@),
        },
{
    match claimed {
        Some(team) => {
            let trimmed: String = text::trim(team);
            if trimmed.as_str().is_empty() {
                Err(Status::new(Code::Unauthenticated, "missing team_id claim"))
            } else {
                Ok(trimmed)
            }
        },
        None => Err(Status::new(Code::Unauthenticated, "missing team_id claim")),
    }
}

/// The car that a team has in a sandbox.
#[derive(Debug)]
pub struct OfficialSandboxJoin {
    pub sandbox_id: String,
    pub slot_index: i16,
    pub public_car_id: u64,
}

/// The car that a driver without an instance streams for in the official backend.
pub open spec fn is_team_stream_car(
    r: Result<u64, Status>,
    s: StoreView,
    team: Seq<char>,
    activity: EngineActivityKind,
    sandbox_car: Option<u64>,
) -> bool {
    match activity {
        EngineActivityKind::OfficialRace => exists|required: Result<(u64, u64), Status>|
            {
                &&& #[trigger] is_required_car(required, s, team)
                &&& match required {
                    Ok(pair) => r == Ok::<u64, Status>(pair.0),
                    Err(e) => r == Err::<u64, Status>(e),
                }
            },
        EngineActivityKind::Sandbox => match sandbox_car {
            Some(car_id) => r == Ok::<u64, Status>(car_id),
            None => r matches Err(e) && e@ == (
                Code::NotFound,
                "no active official sandbox join for team"@,
            ),
        },
        EngineActivityKind::LocalRace => r matches Err(e) && e@ == (
            Code::FailedPrecondition,
            "official token stream is not available for local race"@,
        ),
        EngineActivityKind::Idle => r matches Err(e) && e@ == (
            Code::FailedPrecondition,
            "runtime is not active"@,
        ),
    }
}

/// The car that a team streams for.
pub fn resolve_team_stream_car(
    store: &RaceRuntimeStore,
    team_id: &str,
    activity: EngineActivityKind,
    sandbox_car: Option<u64>,
) -> (r: Result<u64, Status>)
    ensures
        is_team_stream_car(r, store@, text::trimmed(team_id@), activity, sandbox_car),
{
    match activity {
        EngineActivityKind::OfficialRace => {
            let required = require_team_official_race_car(store, team_id);
            assert(is_required_car(required, store@, text::trimmed(team_id@)));
            match required {
                Ok(pair) => Ok(pair.0),
                Err(e) => Err(e),
            }
        },
        EngineActivityKind::Sandbox => match sandbox_car {
            Some(car_id) => Ok(car_id),
            None => Err(Status::not_found("no active official sandbox join for team")),
        },
        EngineActivityKind::LocalRace => Err(
            Status::failed_precondition("official token stream is not available for local race"),
        ),
        EngineActivityKind::Idle => Err(Status::failed_precondition("runtime is not active")),
    }
}

/// The car that a driver with the instance streams for.
pub fn resolve_instance_stream_car(store: &RaceRuntimeStore, instance_uuid: &str) -> (r: Result<
    u64,
    Status,
>)
    ensures
        if store@.instance_cars.contains_key(instance_uuid@) {
            r == Ok::<u64, Status>(store@.instance_cars[instance_uuid@])
        } else {
            r matches Err(e) && e@ == (Code::NotFound, "unknown instance_uuid"@)
        },
{
    match store.instance_car(instance_uuid) {
        Some(car_id) => Ok(car_id),
        None => Err(Status::not_found("unknown instance_uuid")),
    }
}

/// The car id that a request names in its header.
#[derive(Debug)]
pub enum CarIdHeader {
    Missing,
    NotText,
    Text(String),
}

pub open spec fn is_parsed_car_id(header: CarIdHeader, r: Result<u64, Status>) -> bool {
    match header {
        CarIdHeader::Missing => r matches Err(e) && e@ == (
            Code::InvalidArgument,
            "missing x-ha3-car-id"@,
        ),
        CarIdHeader::NotText => r matches Err(e) && e@ == (
            Code::InvalidArgument,
            "invalid x-ha3-car-id header"@,
        ),
        CarIdHeader::Text(raw) => {
            let value = text::unsigned_value(text::trimmed(raw@));
            if value is Some && value->Some_0 <= u64::MAX {
                r == Ok::<u64, Status>(value->Some_0 as u64)
            } else {
                r matches Err(e) && e@ == (
                    Code::InvalidArgument,
                    "x-ha3-car-id must be a valid u64"@,
                )
            }
        },
    }
}

/// `tonic::metadata::MetadataMap`, the metadata of a request.
#[verifier::external_type_specification]
#[verifier::external_body]
pub struct ExMetadataMap(tonic::metadata::MetadataMap);

/// The metadata of a request: of each name under which an entry can be asked for, the
/// first value, where it is text.
pub uninterp spec fn metadata_texts(metadata: tonic::metadata::MetadataMap) -> Map<
    Seq<char>,
    Option<Seq<char>>,
>;

/// Wraps `tonic::metadata::MetadataMap::get`, followed by `MetadataValue::to_str`: the
/// first value of the entry, where there is one; it is text where it is made of visible
/// ASCII characters.
#[verifier::external_body]
fn metadata_text(metadata: &tonic::metadata::MetadataMap, name: &str) -> (r: Option<
    Option<String>,
>)
    ensures
        r is Some == metadata_texts(*metadata).contains_key(name@),
        r is Some ==> opt_text(r->Some_0) == metadata_texts(*metadata)[name@],
{
    metadata.get(name).map(|value| value.to_str().ok().map(str::to_owned))
}

/// What a request names its car with, as it stands in its metadata.
pub open spec fn is_car_id_header(
    metadata: Map<Seq<char>, Option<Seq<char>>>,
    header: CarIdHeader,
) -> bool {
    if !metadata.contains_key("x-ha3-car-id"@) {
        header is Missing
    } else {
        match metadata["x-ha3-car-id"@] {
            None => header is NotText,
            Some(value) => header matches CarIdHeader::Text(text) && text@ == value,
        }
    }
}

/// What a request names its car with.
pub fn car_id_header(metadata: &tonic::metadata::MetadataMap) -> (header: CarIdHeader)
    ensures
        is_car_id_header(metadata_texts(*metadata), header),
{
    match metadata_text(metadata, "x-ha3-car-id") {
        None => CarIdHeader::Missing,
        Some(None) => CarIdHeader::NotText,
        Some(Some(value)) => CarIdHeader::Text(value),
    }
}

/// Reads the car id that a standalone driver's request names.
pub fn parse_standalone_car_id(header: &CarIdHeader) -> (r: Result<u64, Status>)
    ensures
        is_parsed_car_id(*header, r),
{
    match header {
        CarIdHeader::Missing => Err(Status::invalid_argument("missing x-ha3-car-id")),
        CarIdHeader::NotText => Err(Status::invalid_argument("invalid x-ha3-car-id header")),
        CarIdHeader::Text(raw) => {
            let trimmed: String = text::trim(raw.as_str());
            match text::parse_u64(trimmed.as_str()) {
                Some(car_id) => Ok(car_id),
                None => Err(Status::invalid_argument("x-ha3-car-id must be a valid u64")),
            }
        },
    }
}

/// The car that a standalone driver streams for.
pub fn resolve_standalone_stream_car(store: &RaceRuntimeStore, header: &CarIdHeader) -> (r: Result<
    u64,
    Status,
>)
    ensures
        exists|parsed: Result<u64, Status>|
            {
                &&& #[trigger] is_parsed_car_id(*header, parsed)
                &&& match parsed {
                    Err(e) => r == Err::<u64, Status>(e),
                    Ok(car_id) => if store@.record(car_id).target is Some {
                        r == Ok::<u64, Status>(car_id)
                    } else {
                        r matches Err(e) && e@ == (Code::NotFound, "unknown x-ha3-car-id"@)
                    },
                }
            },
{
    let parsed: Result<u64, Status> = parse_standalone_car_id(header);
    assert(is_parsed_car_id(*header, parsed));
    match parsed {
        Err(e) => Err(e),
        Ok(car_id) => {
            if store.car_target(car_id).is_none() {
                Err(Status::not_found("unknown x-ha3-car-id"))
            } else {
                Ok(car_id)
            }
        },
    }
}

/// Session and engine car of a car that must be registered with both.
pub fn registration_of(store: &RaceRuntimeStore, car_id: u64) -> (r: Result<
    (EngineCommandTarget, u64),
    Status,
>)
    ensures
        ({
            let record = store@.record(car_id);
            if record.target is Some && record.engine_car_id is Some {
                r matches Ok((target, engine_car_id)) && Some(target@) == record.target && Some(
                    engine_car_id,
                ) == record.engine_car_id
            } else {
                r matches Err(e) && e@ == (Code::NotFound, "unknown car target"@)
            }
        }),
{
    match store.car_target(car_id) {
        None => Err(Status::not_found("unknown car target")),
        Some(target) => match store.car_engine_id(car_id) {
            None => Err(Status::not_found("unknown car target")),
            Some(engine_car_id) => Ok((target, engine_car_id)),
        },
    }
}

/// The answer to a team that prepares to join.
#[derive(Debug)]
pub struct PrepareOfficialJoinResponse {
    pub car_id: u64,
    pub map_id: String,
}

/// The map of the official race: the one that the race announces, or the one that
/// the engine runs it on.
pub open spec fn official_map(
    announced: Option<Seq<char>>,
    state: Option<EngineRuntimeState>,
) -> Option<Seq<char>> {
    match announced {
        Some(map_id) => Some(map_id),
        None => match state {
            Some(state) => if state.activity_kind == EngineActivityKind::OfficialRace {
                Some(state.map_id@)
            } else {
                None
            },
            None => None,
        },
    }
}

/// Where a team that prepares to join finds its car. A team on the roster gets its
/// car in the race; else one that has joined a sandbox gets its car there.
pub fn prepare_official_join(
    store: &RaceRuntimeStore,
    team_id: &str,
    bots: &OfficialRaceBots,
    announced_map: Option<&str>,
    frame_state: &Option<EngineRuntimeState>,
    sandbox_join: &Option<OfficialSandboxJoin>,
) -> (r: Result<PrepareOfficialJoinResponse, Status>)
    ensures
        ({
            let announced = match announced_map {
                Some(m) => Some(m@),
                None => None,
            };
            let map = official_map(announced, *frame_state);
            if bots@.contains_key(team_id@) {
                if map is None {
                    r matches Err(e) && e@ == (
                        Code::FailedPrecondition,
                        "official-race runtime map is not available"@,
                    )
                } else {
                    exists|required: Result<(u64, u64), Status>|
                        {
                            &&& #[trigger] is_required_car(
                                required,
                                store@,
                                text::trimmed(team_id@),
                            )
                            &&& match required {
                                Ok(pair) => r matches Ok(found) && found.car_id == pair.0 && Some(
                                    found.map_id@,
                                ) == map,
                                Err(e) => r == Err::<PrepareOfficialJoinResponse, Status>(e),
                            }
                        }
                }
            } else if sandbox_join is Some {
                let join = sandbox_join->Some_0;
                if frame_state is Some && has_sandbox(
                    frame_state->Some_0.active_sandboxes@,
                    join.sandbox_id@,
                ) {
                    r matches Ok(found) && found.car_id == join.public_car_id && forall|i: int|
                        #[trigger] is_first_sandbox(
                            frame_state->Some_0.active_sandboxes@,
                            join.sandbox_id@,
                            i,
                        ) ==> frame_state->Some_0.active_sandboxes@[i].map_id@ == found.map_id@
                } else {
                    r matches Err(e) && e@ == (
                        Code::FailedPrecondition,
                        "sandbox runtime is not active for team join"@,
                    )
                }
            } else {
                let activity = match frame_state {
                    Some(state) => state.activity_kind,
                    None => EngineActivityKind::Idle,
                };
                r matches Err(e) && e@ == match activity {
                    EngineActivityKind::OfficialRace => (
                        Code::NotFound,
                        "team is not part of active official-race roster"@,
                    ),
                    EngineActivityKind::Sandbox => (
                        Code::NotFound,
                        "no active official sandbox join for team"@,
                    ),
                    EngineActivityKind::LocalRace => (
                        Code::FailedPrecondition,
                        "official join is not available in local race"@,
                    ),
                    EngineActivityKind::Idle => (Code::FailedPrecondition, "runtime is not active"@),
                }
            }
        }),
{
    if bots.contains_key(team_id) {
        let map_id: Option<String> = match announced_map {
            Some(map_id) => Some(map_id.to_owned()),
            None => match frame_state {
                Some(state) => {
                    if state.activity_kind == EngineActivityKind::OfficialRace {
                        Some(state.map_id.clone())
                    } else {
                        None
                    }
                },
                None => None,
            },
        };
        let map_id: String = match map_id {
            Some(map_id) => map_id,
            None => {
                return Err(
                    Status::failed_precondition("official-race runtime map is not available"),
                );
            },
        };
        let required = require_team_official_race_car(store, team_id);
        assert(is_required_car(required, store@, text::trimmed(team_id@)));
        return match required {
            Ok(pair) => Ok(PrepareOfficialJoinResponse { car_id: pair.0, map_id }),
            Err(e) => Err(e),
        };
    }
    match sandbox_join {
        Some(join) => {
            match frame_state {
                Some(state) => {
                    match find_active_sandbox(&state.active_sandboxes, join.sandbox_id.as_str()) {
                        Some(i) => {
                            assert(state.active_sandboxes@[i as int].sandbox_id@
                                == join.sandbox_id@);
                            return Ok(
                                PrepareOfficialJoinResponse {
                                    car_id: join.public_car_id,
                                    map_id: state.active_sandboxes[i].map_id.clone(),
                                },
                            );
                        },
                        None => {},
                    }
                },
                None => {},
            }
            Err(Status::failed_precondition("sandbox runtime is not active for team join"))
        },
        None => {
            let activity: EngineActivityKind = match frame_state {
                Some(state) => state.activity_kind,
                None => EngineActivityKind::Idle,
            };
            Err(
                match activity {
                    EngineActivityKind::OfficialRace => Status::not_found(
                        "team is not part of active official-race roster",
                    ),
                    EngineActivityKind::Sandbox => Status::not_found(
                        "no active official sandbox join for team",
                    ),
                    EngineActivityKind::LocalRace => Status::failed_precondition(
                        "official join is not available in local race",
                    ),
                    EngineActivityKind::Idle => Status::failed_precondition(
                        "runtime is not active",
                    ),
                },
            )
        },
    }
}

/// A car of the official race that is to stand on its start position.
#[derive(Clone, Copy, PartialEq, Eq, Debug, Structural)]
pub struct GridPosition {
    pub public_car_id: u64,
    pub engine_car_id: u64,
    pub start_position_index: u64,
}

/// The place on the grid that a car is held at, where it has one.
pub open spec fn grid_position(s: StoreView, car_id: u64) -> Option<GridPosition> {
    let record = s.record(car_id);
    if record.target == Some(TargetView::OfficialRace) && record.engine_car_id is Some
        && record.identity is Some
        && record.identity->Some_0.official_race_start_position_index is Some {
        Some(
            GridPosition {
                public_car_id: car_id,
                engine_car_id: record.engine_car_id->Some_0,
                start_position_index: record.identity->Some_0.official_race_start_position_index->Some_0,
            },
        )
    } else {
        None
    }
}

fn grid_position_of(store: &RaceRuntimeStore, car_id: u64) -> (r: Option<GridPosition>)
    ensures
        r == grid_position(store@, car_id),
{
    let is_official: bool = match store.car_target(car_id) {
        Some(target) => target.is_official_race(),
        None => false,
    };
    if !is_official {
        return None;
    }
    let engine_car_id: u64 = match store.car_engine_id(car_id) {
        Some(id) => id,
        None => {
            return None;
        },
    };
    match store.car_identity(car_id) {
        Some(identity) => match identity.official_race_start_position_index {
            Some(start_position_index) => Some(
                GridPosition { public_car_id: car_id, engine_car_id, start_position_index },
            ),
            None => None,
        },
        None => None,
    }
}

/// The cars that are held on the grid until the race starts, in no promised order.
pub fn official_race_grid_positions(store: &RaceRuntimeStore) -> (r: Vec<GridPosition>)
    ensures
        forall|i: int, j: int|
            #![trigger r@[i], r@[j]]
            0 <= i < j < r@.len() ==> r@[i].public_car_id != r@[j].public_car_id,
        forall|i: int|
            0 <= i < r@.len() ==> grid_position(store@, (#[trigger] r@[i]).public_car_id) == Some(
                r@[i],
            ),
        forall|c: u64|
            (#[trigger] grid_position(store@, c)) is Some ==> exists|i: int|
                0 <= i < r@.len() && (#[trigger] r@[i]).public_car_id == c,
{
    let ids: Vec<u64> = store.car_ids();
    let mut r: Vec<GridPosition> = Vec::new();
    let mut i: usize = 0;
    while i < ids.len()
        invariant
            i <= ids@.len(),
            ids@.no_duplicates(),
            forall|c: u64| #[trigger] ids@.contains(c) <==> store@.cars.contains_key(c),
            forall|a: int, b: int|
                #![trigger r@[a], r@[b]]
                0 <= a < b < r@.len() ==> r@[a].public_car_id != r@[b].public_car_id,
            forall|k: int|
                0 <= k < r@.len() ==> grid_position(store@, (#[trigger] r@[k]).public_car_id)
                    == Some(r@[k]) && exists|a: int|
                    0 <= a < i && #[trigger] ids@[a] == r@[k].public_car_id,
            forall|a: int|
                0 <= a < i && grid_position(store@, #[trigger] ids@[a]) is Some ==> exists|k: int|
                    0 <= k < r@.len() && (#[trigger] r@[k]).public_car_id == ids@[a],
        decreases ids@.len() - i,
    {
        let ghost before = r@;
        match grid_position_of(store, ids[i]) {
            Some(position) => {
                proof {
                    assert forall|k: int| 0 <= k < before.len() implies (
                    #[trigger] before[k]).public_car_id != position.public_car_id by {
                        let a = choose|a: int|
                            0 <= a < i && #[trigger] ids@[a] == before[k].public_car_id;
                        assert(ids@[a] != ids@[i as int]);
                    }
                }
                r.push(position);
            },
            None => {},
        }
        proof {
            assert forall|a: int|
                0 <= a < i + 1 && grid_position(store@, #[trigger] ids@[a]) is Some implies exists|
                k: int,
            | 0 <= k < r@.len() && (#[trigger] r@[k]).public_car_id == ids@[a] by {
                if a < i {
                    let k = choose|k: int|
                        0 <= k < before.len() && (#[trigger] before[k]).public_car_id == ids@[a];
                    assert(r@[k].public_car_id == ids@[a]);
                } else {
                    assert(r@[before.len() as int].public_car_id == ids@[a]);
                }
            }
            assert forall|k: int| 0 <= k < r@.len() implies exists|a: int|
                0 <= a < i + 1 && #[trigger] ids@[a] == (#[trigger] r@[k]).public_car_id by {
                if k < before.len() {
                    assert(r@[k] == before[k]);
                    let a = choose|a: int|
                        0 <= a < i && #[trigger] ids@[a] == before[k].public_car_id;
                    assert(ids@[a] == r@[k].public_car_id);
                } else {
                    assert(ids@[i as int] == r@[k].public_car_id);
                }
            }
        }
        i += 1;
    }
    proof {
        assert forall|c: u64| (#[trigger] grid_position(store@, c)) is Some implies exists|k: int|
            0 <= k < r@.len() && (#[trigger] r@[k]).public_car_id == c by {
            assert(store@.cars.contains_key(c));
            assert(ids@.contains(c));
            let a = choose|a: int| 0 <= a < ids@.len() && ids@[a] == c;
            assert(grid_position(store@, ids@[a]) is Some);
        }
    }
    r
}

/// A car of the official race that is to leave, and what is needed for it.
#[derive(Debug)]
pub struct StaleOfficialCar {
    pub public_car_id: u64,
    pub engine_car_id: Option<u64>,
    pub team_id: Option<String>,
}

/// The cars that are still registered with the official race, in no promised order.
pub fn stale_official_cars(store: &RaceRuntimeStore) -> (r: Vec<StaleOfficialCar>)
    ensures
        forall|i: int|
            0 <= i < r@.len() ==> {
                let car = #[trigger] r@[i];
                let record = store@.record(car.public_car_id);
                &&& record.target == Some(TargetView::OfficialRace)
                &&& car.engine_car_id == record.engine_car_id
                &&& crate::engine::opt_text(car.team_id) == match record.identity {
                    Some(identity) => identity.team_id,
                    None => None,
                }
            },
        forall|c: u64|
            (#[trigger] store@.record(c)).target == Some(TargetView::OfficialRace) ==> exists|
                i: int,
            | 0 <= i < r@.len() && (#[trigger] r@[i]).public_car_id == c,
        forall|i: int, j: int|
            #![trigger r@[i], r@[j]]
            0 <= i < j < r@.len() ==> r@[i].public_car_id != r@[j].public_car_id,
{
    let ids: Vec<u64> = store.car_ids();
    let mut r: Vec<StaleOfficialCar> = Vec::new();
    let mut i: usize = 0;
    while i < ids.len()
        invariant
            i <= ids@.len(),
            ids@.no_duplicates(),
            forall|k: int|
                0 <= k < r@.len() ==> exists|a: int|
                    0 <= a < i && (#[trigger] r@[k]).public_car_id == #[trigger] ids@[a],
            forall|k: int, l: int|
                #![trigger r@[k], r@[l]]
                0 <= k < l < r@.len() ==> r@[k].public_car_id != r@[l].public_car_id,
            forall|c: u64| #[trigger] ids@.contains(c) <==> store@.cars.contains_key(c),
            forall|k: int|
                0 <= k < r@.len() ==> {
                    let car = #[trigger] r@[k];
                    let record = store@.record(car.public_car_id);
                    &&& record.target == Some(TargetView::OfficialRace)
                    &&& car.engine_car_id == record.engine_car_id
                    &&& crate::engine::opt_text(car.team_id) == match record.identity {
                        Some(identity) => identity.team_id,
                        None => None,
                    }
                },
            forall|a: int|
                0 <= a < i && store@.record(#[trigger] ids@[a]).target == Some(
                    TargetView::OfficialRace,
                ) ==> exists|k: int|
                    0 <= k < r@.len() && (#[trigger] r@[k]).public_car_id == ids@[a],
        decreases ids@.len() - i,
    {
        let ghost before = r@;
        let is_official: bool = match store.car_target(ids[i]) {
            Some(target) => target.is_official_race(),
            None => false,
        };
        if is_official {
            let team_id: Option<String> = match store.car_identity(ids[i]) {
                Some(identity) => identity.team_id,
                None => None,
            };
            r.push(
                StaleOfficialCar {
                    public_car_id: ids[i],
                    engine_car_id: store.car_engine_id(ids[i]),
                    team_id,
                },
            );
        }
        proof {
            assert forall|a: int|
                0 <= a < i + 1 && store@.record(#[trigger] ids@[a]).target == Some(
                    TargetView::OfficialRace,
                ) implies exists|k: int|
                0 <= k < r@.len() && (#[trigger] r@[k]).public_car_id == ids@[a] by {
                if a < i {
                    let k = choose|k: int|
                        0 <= k < before.len() && (#[trigger] before[k]).public_car_id == ids@[a];
                    assert(r@[k].public_car_id == ids@[a]);
                } else {
                    assert(r@[before.len() as int].public_car_id == ids@[a]);
                }
            }
        }
        i += 1;
    }
    proof {
        assert forall|c: u64|
            (#[trigger] store@.record(c)).target == Some(
                TargetView::OfficialRace,
            ) implies exists|k: int|
            0 <= k < r@.len() && (#[trigger] r@[k]).public_car_id == c by {
            assert(store@.cars.contains_key(c));
            assert(ids@.contains(c));
            let a = choose|a: int| 0 <= a < ids@.len() && ids@[a] == c;
            assert(store@.record(ids@[a]).target == Some(TargetView::OfficialRace));
        }
    }
    r
}

/// A car is a team's in the official race exactly where its identity names the team, it is
/// registered with the race, and the engine has a car for it.
pub proof fn team_car_is_known_by_its_registration(s: StoreView, team_id: Seq<char>, car_id: u64)
    ensures
        is_team_car(s, team_id, car_id) <==> {
            &&& s.record(car_id).identity is Some
            &&& s.record(car_id).identity->Some_0.team_id == Some(team_id)
            &&& s.record(car_id).target == Some(TargetView::OfficialRace)
            &&& s.record(car_id).engine_car_id is Some
        },
{
}

/// A team that is found to have one car has that car, under the engine's id for it, and no
/// other; one found to have none has none; one found to have many has two different ones.
pub proof fn team_cars_are_counted(
    r: TeamCars,
    s: StoreView,
    team_id: Seq<char>,
    car_id: u64,
)
    requires
        are_team_cars(r, s, team_id),
    ensures
        r is NoCar ==> !is_team_car(s, team_id, car_id),
        r matches TeamCars::OneCar(one, engine_car_id) ==> is_team_car(s, team_id, one)
            && s.record(one).engine_car_id == Some(engine_car_id) && (is_team_car(
            s,
            team_id,
            car_id,
        ) ==> car_id == one),
        r is ManyCars ==> exists|a: u64, b: u64|
            a != b && #[trigger] is_team_car(s, team_id, a) && #[trigger] is_team_car(
                s,
                team_id,
                b,
            ),
{
}

/// The car that a team must have is its only one. A team without a name is not authenticated,
/// one with many cars has failed a precondition, and of one without a car none is found.
pub proof fn required_car_is_the_only_one(
    r: Result<(u64, u64), Status>,
    s: StoreView,
    team: Seq<char>,
    other: u64,
)
    requires
        is_required_car(r, s, team),
    ensures
        r matches Ok(pair) ==> team.len() > 0 && is_team_car(s, team, pair.0) && s.record(
            pair.0,
        ).engine_car_id == Some(pair.1) && (is_team_car(s, team, other) ==> other == pair.0),
        r matches Err(e) ==> (e@.0 == Code::Unauthenticated) == (team.len() == 0),
        r matches Err(e) ==> (e@.0 == Code::NotFound ==> !is_team_car(s, team, other)),
        r matches Err(e) ==> (e@.0 == Code::FailedPrecondition ==> has_many_cars(s, team)),
{
}

/// A driver streams for the team's car in the race while an official race runs, and for its
/// car in the sandbox while sandboxes run; while a local race or nothing runs, for none.
pub proof fn stream_car_is_that_of_the_activity(
    r: Result<u64, Status>,
    s: StoreView,
    team: Seq<char>,
    activity: EngineActivityKind,
    sandbox_car: Option<u64>,
)
    requires
        is_team_stream_car(r, s, team, activity, sandbox_car),
    ensures
        r matches Ok(car_id) ==> activity is OfficialRace || activity is Sandbox,
        activity is OfficialRace ==> (r matches Ok(car_id) ==> is_team_car(s, team, car_id)),
        activity is Sandbox ==> (r is Ok) == (sandbox_car is Some),
        activity is Sandbox ==> (r matches Ok(car_id) ==> sandbox_car == Some(car_id)),
        activity is LocalRace || activity is Idle ==> (r matches Err(e) && e@.0
            == Code::FailedPrecondition),
{
}

/// A header names a car exactly where it is there and is, without the whitespace around it,
/// a number that an id can be; each header is the caller's own fault otherwise.
pub proof fn car_id_is_read_from_its_header(header: CarIdHeader, r: Result<u64, Status>)
    requires
        is_parsed_car_id(header, r),
    ensures
        r matches Ok(car_id) ==> (header matches CarIdHeader::Text(raw) && text::unsigned_value(
            text::trimmed(raw@),
        ) == Some(car_id as nat)),
        header matches CarIdHeader::Text(raw) ==> (text::unsigned_value(text::trimmed(raw@))
            matches Some(value) ==> (r is Ok) == (value <= u64::MAX)),
        r matches Err(e) ==> e@.0 == Code::InvalidArgument,
{
}

/// The header of a request's car is the entry of that name in its metadata.
pub proof fn car_id_header_is_the_entry(
    metadata: Map<Seq<char>, Option<Seq<char>>>,
    header: CarIdHeader,
)
    requires
        is_car_id_header(metadata, header),
    ensures
        (header is Missing) == !metadata.contains_key("x-ha3-car-id"@),
        header is NotText ==> metadata["x-ha3-car-id"@] is None,
        header matches CarIdHeader::Text(value) ==> metadata["x-ha3-car-id"@] == Some(value@),
{
}

/// The map that the race announces counts before the one that the engine runs it on, and
/// the engine's counts only while it runs the official race.
pub proof fn announced_map_counts_first(
    announced: Option<Seq<char>>,
    state: Option<EngineRuntimeState>,
)
    ensures
        announced is Some ==> official_map(announced, state) == announced,
        announced is None ==> (official_map(announced, state) is Some <==> (state matches Some(
            running,
        ) && running.activity_kind is OfficialRace)),
        announced is None ==> (state matches Some(running) ==> (official_map(announced, state)
            matches Some(map_id) ==> map_id == running.map_id@)),
{
}

/// A car is held on the grid exactly where it is registered with the official race, the
/// engine has a car for it, and it has a start position; it is held there, under both ids.
pub proof fn car_is_held_at_its_start_position(s: StoreView, car_id: u64)
    ensures
        grid_position(s, car_id) is Some <==> {
            &&& s.record(car_id).target == Some(TargetView::OfficialRace)
            &&& s.record(car_id).engine_car_id is Some
            &&& s.record(car_id).identity is Some
            &&& s.record(car_id).identity->Some_0.official_race_start_position_index is Some
        },
        grid_position(s, car_id) matches Some(place) ==> place.public_car_id == car_id && Some(
            place.engine_car_id,
        ) == s.record(car_id).engine_car_id && Some(place.start_position_index) == s.record(
            car_id,
        ).identity->Some_0.official_race_start_position_index,
{
}

/// A team that must have a car and has none, or has many, is told so in words, and so is one
/// without a name; a car id that cannot be read is told by what is wrong with its header.
pub proof fn missing_cars_are_told(
    r: Result<(u64, u64), Status>,
    s: StoreView,
    team: Seq<char>,
    header: CarIdHeader,
    parsed: Result<u64, Status>,
)
    requires
        is_required_car(r, s, team),
        is_parsed_car_id(header, parsed),
    ensures
        team.len() == 0 ==> (r matches Err(e) && e@.1 == "missing team_id claim"@),
        team.len() > 0 && has_many_cars(s, team) ==> (r matches Err(e) && e@.1
            == "multiple active official-race cars found for team"@),
        r matches Err(e) ==> (e@.0 == Code::NotFound ==> e@.1
            == "no active official-race car for team"@),
        header is Missing ==> (parsed matches Err(e) && e@.1 == "missing x-ha3-car-id"@),
        header is NotText ==> (parsed matches Err(e) && e@.1 == "invalid x-ha3-car-id header"@),
        header is Text ==> (parsed matches Err(e) ==> e@.1 == "x-ha3-car-id must be a valid u64"@),
{
}

} // verus!
