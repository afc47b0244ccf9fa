//! The race of a local backend: how it is set up, counted down, aborted and closed.

use vstd::prelude::*;
use crate::engine::EngineRuntimeTimeOfDayPreset;
use crate::ghost_mode::GhostModeSettings;
use crate::ids::uuid_v4;
use crate::local_sandbox::admin::{require_runtime_revision, runtime_mismatch};
use crate::local_sandbox::records::{
    LocalTimeOfDayMode, LocalTimeOfDaySettings, LocalWeatherSettings, WeatherType,
};
use crate::participant::join::LocalRaceStateError;
use crate::status::{Code, Status};
use crate::text;
use crate::time_of_day::{
    preset_in_engine, preset_on_wire, runtime_time_of_day_preset_from_proto,
    runtime_time_of_day_preset_to_proto, RuntimeTimeOfDayPreset,
};

verus! {

pub const DEFAULT_LOCAL_RACE_MAX_PARTICIPANTS: u32 = 33;

/// The service: the engine and the race.
#[derive(Debug)]
pub struct LocalRaceAdminServiceImpl<E, S> {
    pub engine: E,
    pub state: S,
}

impl<E, S> LocalRaceAdminServiceImpl<E, S> {
    pub fn new(engine: E, state: S) -> (r: Self)
        ensures
            r.engine == engine,
            r.state == state,
    {
        LocalRaceAdminServiceImpl { engine, state }
    }
}

/// How far a race has come.
#[derive(Clone, Copy, PartialEq, Eq, Debug, Structural)]
pub enum LocalRacePhase {
    Unspecified,
    Staging,
    Countdown,
    Running,
    Finished,
    Aborted,
}

/// The race that a request asks for.
#[derive(Debug)]
pub struct LocalRaceConfigInput {
    pub race_name: String,
    pub map_id: String,
    pub race_duration_sec: u32,
    pub time_of_day: Option<LocalTimeOfDaySettings>,
    pub ghost_mode: Option<GhostModeSettings>,
    pub weather: Option<LocalWeatherSettings>,
    pub max_participants: u32,
}

/// The name without the whitespace around it; without any it is a local race.
pub open spec fn race_name_or_default(name: Seq<char>) -> Seq<char> {
    if text::trimmed(name).len() == 0 {
        "Local race"@
    } else {
        text::trimmed(name)
    }
}

/// Why there can be no such race; the first fault counts.
pub open spec fn race_fault(config: LocalRaceConfigInput) -> Option<Seq<char>> {
    let map_id = text::trimmed(config.map_id@);
    if map_id.len() == 0 {
        Some("map_id must be non-empty"@)
    } else if !text::all_alphanumeric(map_id) {
        Some("map_id must be an alphanumeric standalone storage key"@)
    } else if config.race_duration_sec == 0 {
        Some("race_duration_sec must be greater than zero"@)
    } else {
        None
    }
}

/// Noon.
pub open spec fn default_time_of_day() -> LocalTimeOfDaySettings {
    LocalTimeOfDaySettings {
        mode: Some(LocalTimeOfDayMode::FixedPreset),
        fixed_preset: Some(RuntimeTimeOfDayPreset::Noon),
    }
}

/// A clear sky and twenty degrees.
pub open spec fn default_weather() -> LocalWeatherSettings {
    LocalWeatherSettings { weather_type: Some(WeatherType::Clear), temperature_c: 20 }
}

/// The race with all that it lacks filled in.
pub open spec fn is_normalized(r: LocalRaceConfigInput, config: LocalRaceConfigInput) -> bool {
    &&& r.race_name@ == race_name_or_default(config.race_name@)
    &&& r.map_id@ == text::trimmed(config.map_id@)
    &&& r.race_duration_sec == config.race_duration_sec
    &&& r.time_of_day == Some(
        match config.time_of_day {
            Some(settings) => settings,
            None => default_time_of_day(),
        },
    )
    &&& r.ghost_mode == config.ghost_mode
    &&& r.weather == Some(
        match config.weather {
            Some(settings) => settings,
            None => default_weather(),
        },
    )
    &&& r.max_participants == if config.max_participants == 0 {
        DEFAULT_LOCAL_RACE_MAX_PARTICIPANTS
    } else {
        config.max_participants
    }
}

pub fn normalize_config(config: LocalRaceConfigInput) -> (r: Result<LocalRaceConfigInput, Status>)
    ensures
        match race_fault(config) {
            Some(fault) => r matches Err(e) && e@ == (Code::InvalidArgument, fault),
            None => r matches Ok(normalized) && is_normalized(normalized, config),
        },
        r matches Ok(normalized) ==> {
            &&& normalized.race_duration_sec == config.race_duration_sec
            &&& normalized.race_duration_sec > 0
            &&& normalized.ghost_mode == config.ghost_mode
            &&& config.time_of_day is Some ==> normalized.time_of_day == config.time_of_day
            &&& config.weather is Some ==> normalized.weather == config.weather
            &&& config.max_participants > 0 ==> normalized.max_participants
                == config.max_participants
            &&& config.max_participants == 0 ==> normalized.max_participants == 33
        },
{
    let trimmed_name: String = text::trim(config.race_name.as_str());
    let race_name: String = if trimmed_name.as_str().is_empty() {
        "Local race".to_owned()
    } else {
        trimmed_name
    };
    let map_id: String = text::trim(config.map_id.as_str());
    if map_id.as_str().is_empty() {
        return Err(Status::invalid_argument("map_id must be non-empty"));
    }
    if !text::is_all_alphanumeric(map_id.as_str()) {
        return Err(
            Status::invalid_argument("map_id must be an alphanumeric standalone storage key"),
        );
    }
    if config.race_duration_sec == 0 {
        return Err(Status::invalid_argument("race_duration_sec must be greater than zero"));
    }
    let time_of_day: LocalTimeOfDaySettings = match config.time_of_day {
        Some(settings) => settings,
        None => LocalTimeOfDaySettings {
            mode: Some(LocalTimeOfDayMode::FixedPreset),
            fixed_preset: Some(RuntimeTimeOfDayPreset::Noon),
        },
    };
    let weather: LocalWeatherSettings = match config.weather {
        Some(settings) => settings,
        None => LocalWeatherSettings { weather_type: Some(WeatherType::Clear), temperature_c: 20 },
    };
    let max_participants: u32 = if config.max_participants == 0 {
        DEFAULT_LOCAL_RACE_MAX_PARTICIPANTS
    } else {
        config.max_participants
    };
    Ok(
        LocalRaceConfigInput {
            race_name,
            map_id,
            race_duration_sec: config.race_duration_sec,
            time_of_day: Some(time_of_day),
            ghost_mode: config.ghost_mode,
            weather: Some(weather),
            max_participants,
        },
    )
}

/// What was filled in stays as it is when it is filled in again, and a race in order stays
/// in order.
pub proof fn normalizing_twice_changes_nothing(
    config: LocalRaceConfigInput,
    once: LocalRaceConfigInput,
    twice: LocalRaceConfigInput,
)
    requires
        race_fault(config) is None,
        is_normalized(once, config),
        is_normalized(twice, once),
    ensures
        race_fault(once) is None,
        twice.race_name@ == once.race_name@,
        twice.map_id@ == once.map_id@,
        twice.race_duration_sec == once.race_duration_sec,
        twice.time_of_day == once.time_of_day,
        twice.ghost_mode == once.ghost_mode,
        twice.weather == once.weather,
        twice.max_participants == once.max_participants,
{
    text::trimming_is_idempotent(config.map_id@);
    text::trimming_is_idempotent(config.race_name@);
    reveal_strlit("Local race");
    let default_name = "Local race"@;
    assert(text::trimmed_start(default_name) == default_name);
    assert(text::trimmed_end(default_name) == default_name);
}

/// Why there is no preset to start with; the first fault counts.
pub open spec fn preset_fault(value: LocalTimeOfDaySettings) -> Option<Seq<char>> {
    if value.mode is None {
        Some("invalid time_of_day.mode"@)
    } else if value.mode == Some(LocalTimeOfDayMode::Unspecified) {
        Some("time_of_day.mode must be specified"@)
    } else if value.fixed_preset is None {
        Some("invalid time_of_day.fixed_preset"@)
    } else if value.fixed_preset == Some(RuntimeTimeOfDayPreset::Unspecified) {
        Some("time_of_day.fixed_preset must be specified"@)
    } else {
        None
    }
}

/// The time of day that the race is started with; in every mode it is the preset.
pub fn resolve_time_of_day_preset(value: &LocalTimeOfDaySettings) -> (r: Result<
    EngineRuntimeTimeOfDayPreset,
    Status,
>)
    ensures
        match preset_fault(*value) {
            Some(fault) => r matches Err(e) && e@ == (Code::InvalidArgument, fault),
            None => r == Ok::<EngineRuntimeTimeOfDayPreset, Status>(
                preset_in_engine(value.fixed_preset->Some_0),
            ),
        },
{
    match value.mode {
        None => {
            return Err(Status::invalid_argument("invalid time_of_day.mode"));
        },
        Some(mode) => {
            if mode == LocalTimeOfDayMode::Unspecified {
                return Err(Status::invalid_argument("time_of_day.mode must be specified"));
            }
        },
    }
    match value.fixed_preset {
        None => Err(Status::invalid_argument("invalid time_of_day.fixed_preset")),
        Some(preset) => {
            if preset == RuntimeTimeOfDayPreset::Unspecified {
                return Err(Status::invalid_argument("time_of_day.fixed_preset must be specified"));
            }
            Ok(runtime_time_of_day_preset_from_proto(preset))
        },
    }
}

/// The race. Times are milliseconds since the epoch.
#[derive(Debug)]
pub struct LocalRaceRuntimeInfo {
    pub race_id: String,
    pub race_name: String,
    pub map_id: String,
    pub race_duration_sec: u32,
    pub time_of_day: Option<LocalTimeOfDaySettings>,
    pub active_time_of_day_preset: RuntimeTimeOfDayPreset,
    pub ghost_mode: Option<GhostModeSettings>,
    pub weather: Option<LocalWeatherSettings>,
    /// It is missing where its number stands for none.
    pub phase: Option<LocalRacePhase>,
    pub created_at_ms: u64,
    pub countdown_end_at_ms: Option<u64>,
    pub running_started_at_ms: Option<u64>,
    pub planned_end_at_ms: Option<u64>,
    pub joined_participant_count: u32,
    pub max_participants: u32,
}

/// A race that is to be activated in the engine.
#[derive(Debug)]
pub struct LocalRacePlan {
    pub race_id: String,
    pub config: LocalRaceConfigInput,
    pub time_of_day_preset: EngineRuntimeTimeOfDayPreset,
}

/// The race of a request, under the id.
pub fn plan_local_race_as(config: Option<LocalRaceConfigInput>, race_id: String) -> (r: Result<
    LocalRacePlan,
    Status,
>)
    ensures
        match config {
            None => r matches Err(e) && e@ == (Code::InvalidArgument, "config is required"@),
            Some(config) => match race_fault(config) {
                Some(fault) => r matches Err(e) && e@ == (Code::InvalidArgument, fault),
                None => {
                    let time_of_day = match config.time_of_day {
                        Some(settings) => settings,
                        None => default_time_of_day(),
                    };
                    match preset_fault(time_of_day) {
                        Some(fault) => r matches Err(e) && e@ == (Code::InvalidArgument, fault),
                        None => r matches Ok(plan) && plan.race_id == race_id && is_normalized(
                            plan.config,
                            config,
                        ) && plan.time_of_day_preset == preset_in_engine(
                            time_of_day.fixed_preset->Some_0,
                        ),
                    }
                },
            },
        },
{
    let config: LocalRaceConfigInput = match config {
        Some(config) => config,
        None => return Err(Status::invalid_argument("config is required")),
    };
    let normalized: LocalRaceConfigInput = match normalize_config(config) {
        Ok(normalized) => normalized,
        Err(e) => return Err(e),
    };
    let time_of_day: LocalTimeOfDaySettings = match normalized.time_of_day {
        Some(settings) => settings,
        None => return Err(Status::invalid_argument("time_of_day is required")),
    };
    match resolve_time_of_day_preset(&time_of_day) {
        Err(e) => Err(e),
        Ok(time_of_day_preset) => Ok(
            LocalRacePlan { race_id, config: normalized, time_of_day_preset },
        ),
    }
}

/// The race of a request, under a new random id. Nothing is said of which id it is.
pub fn plan_local_race(config: Option<LocalRaceConfigInput>) -> (r: Result<LocalRacePlan, Status>)
    ensures
        match config {
            None => r matches Err(e) && e@ == (Code::InvalidArgument, "config is required"@),
            Some(config) => match race_fault(config) {
                Some(fault) => r matches Err(e) && e@ == (Code::InvalidArgument, fault),
                None => {
                    let time_of_day = match config.time_of_day {
                        Some(settings) => settings,
                        None => default_time_of_day(),
                    };
                    match preset_fault(time_of_day) {
                        Some(fault) => r matches Err(e) && e@ == (Code::InvalidArgument, fault),
                        None => r matches Ok(plan) && plan.race_id@.len() == 36 && is_normalized(
                            plan.config,
                            config,
                        ) && plan.time_of_day_preset == preset_in_engine(
                            time_of_day.fixed_preset->Some_0,
                        ),
                    }
                },
            },
        },
{
    plan_local_race_as(config, uuid_v4())
}

/// The race that the engine has activated: it is being staged.
pub fn stage_local_race(plan: LocalRacePlan, now_ms: u64) -> (r: LocalRaceRuntimeInfo)
    ensures
        r == (LocalRaceRuntimeInfo {
            race_id: plan.race_id,
            race_name: plan.config.race_name,
            map_id: plan.config.map_id,
            race_duration_sec: plan.config.race_duration_sec,
            time_of_day: plan.config.time_of_day,
            active_time_of_day_preset: preset_on_wire(plan.time_of_day_preset),
            ghost_mode: plan.config.ghost_mode,
            weather: plan.config.weather,
            phase: Some(LocalRacePhase::Staging),
            created_at_ms: now_ms,
            countdown_end_at_ms: None,
            running_started_at_ms: None,
            planned_end_at_ms: None,
            joined_participant_count: 0,
            max_participants: plan.config.max_participants,
        }),
{
    LocalRaceRuntimeInfo {
        race_id: plan.race_id,
        race_name: plan.config.race_name,
        map_id: plan.config.map_id,
        race_duration_sec: plan.config.race_duration_sec,
        time_of_day: plan.config.time_of_day,
        active_time_of_day_preset: runtime_time_of_day_preset_to_proto(plan.time_of_day_preset),
        ghost_mode: plan.config.ghost_mode,
        weather: plan.config.weather,
        phase: Some(LocalRacePhase::Staging),
        created_at_ms: now_ms,
        countdown_end_at_ms: None,
        running_started_at_ms: None,
        planned_end_at_ms: None,
        joined_participant_count: 0,
        max_participants: plan.config.max_participants,
    }
}

/// The status for a request about a race that is not the active one; none where it is.
pub open spec fn wrong_race(active: Option<LocalRaceRuntimeInfo>, race_id: Seq<char>) -> Option<
    (Code, Seq<char>),
> {
    match active {
        None => Some((Code::NotFound, "no active local race"@)),
        Some(race) => if race.race_id@ != race_id {
            Some((Code::NotFound, "active local race id does not match request"@))
        } else {
            None
        },
    }
}

/// The time with seconds on top of it, held at the largest value.
pub open spec fn later_by(ms: u64, seconds: u32) -> u64 {
    if ms + seconds * 1000 > u64::MAX {
        u64::MAX
    } else {
        (ms + seconds * 1000) as u64
    }
}

fn add_seconds(ms: u64, seconds: u32) -> (r: u64)
    ensures
        r == later_by(ms, seconds),
        ms + seconds * 1000 <= u64::MAX ==> r == ms + seconds * 1000,
        ms + seconds * 1000 > u64::MAX ==> r == u64::MAX,
{
    let added: u64 = seconds as u64 * 1000;
    if ms > u64::MAX - added {
        u64::MAX
    } else {
        ms + added
    }
}

/// When the countdown of the active race would end; only a race that is being staged
/// can be counted down.
pub fn check_countdown(
    expected_revision: u64,
    current_revision: u64,
    active: &Option<LocalRaceRuntimeInfo>,
    race_id: &str,
    countdown_seconds: u32,
    now_ms: u64,
) -> (r: Result<u64, Status>)
    ensures
        if current_revision != expected_revision {
            r matches Err(e) && e@ == runtime_mismatch(expected_revision, current_revision)
        } else if wrong_race(*active, race_id@) is Some {
            r matches Err(e) && Some(e@) == wrong_race(*active, race_id@)
        } else if active->Some_0.phase != Some(LocalRacePhase::Staging) {
            r matches Err(e) && e@ == (
                Code::FailedPrecondition,
                "local race countdown can be started only in staging phase"@,
            )
        } else {
            r == Ok::<u64, Status>(later_by(now_ms, countdown_seconds))
        },
{
    match require_runtime_revision(expected_revision, current_revision) {
        Err(e) => {
            return Err(e);
        },
        Ok(()) => {},
    }
    match active {
        None => Err(Status::not_found("no active local race")),
        Some(race) => {
            if !text::str_eq(race.race_id.as_str(), race_id) {
                return Err(Status::not_found("active local race id does not match request"));
            }
            let staging: bool = match race.phase {
                Some(phase) => phase == LocalRacePhase::Staging,
                None => false,
            };
            if !staging {
                return Err(
                    Status::failed_precondition(
                        "local race countdown can be started only in staging phase",
                    ),
                );
            }
            Ok(add_seconds(now_ms, countdown_seconds))
        },
    }
}

/// The race once its countdown has begun. Without seconds to count it runs at once.
pub open spec fn counted_down(
    race: LocalRaceRuntimeInfo,
    countdown_seconds: u32,
    countdown_end_ms: u64,
) -> LocalRaceRuntimeInfo {
    if countdown_seconds == 0 {
        LocalRaceRuntimeInfo {
            phase: Some(LocalRacePhase::Running),
            countdown_end_at_ms: Some(countdown_end_ms),
            running_started_at_ms: Some(countdown_end_ms),
            planned_end_at_ms: Some(later_by(countdown_end_ms, race.race_duration_sec)),
            ..race
        }
    } else {
        LocalRaceRuntimeInfo {
            phase: Some(LocalRacePhase::Countdown),
            countdown_end_at_ms: Some(countdown_end_ms),
            ..race
        }
    }
}

pub fn start_countdown(
    race: &mut LocalRaceRuntimeInfo,
    countdown_seconds: u32,
    countdown_end_ms: u64,
)
    ensures
        *final(race) == counted_down(*old(race), countdown_seconds, countdown_end_ms),
        final(race).phase == Some(
            if countdown_seconds == 0 {
                LocalRacePhase::Running
            } else {
                LocalRacePhase::Countdown
            },
        ),
        final(race).countdown_end_at_ms == Some(countdown_end_ms),
        final(race).race_id == old(race).race_id,
        final(race).race_duration_sec == old(race).race_duration_sec,
{
    race.countdown_end_at_ms = Some(countdown_end_ms);
    if countdown_seconds == 0 {
        race.phase = Some(LocalRacePhase::Running);
        race.running_started_at_ms = Some(countdown_end_ms);
        race.planned_end_at_ms = Some(add_seconds(countdown_end_ms, race.race_duration_sec));
    } else {
        race.phase = Some(LocalRacePhase::Countdown);
    }
}

/// A race whose countdown has begun cannot be counted down again, and ends no earlier
/// than it starts.
pub proof fn countdown_begins_once(
    race: LocalRaceRuntimeInfo,
    countdown_seconds: u32,
    countdown_end_ms: u64,
)
    ensures
        counted_down(race, countdown_seconds, countdown_end_ms).phase != Some(
            LocalRacePhase::Staging,
        ),
        countdown_seconds == 0 ==> counted_down(
            race,
            countdown_seconds,
            countdown_end_ms,
        ).planned_end_at_ms->Some_0 >= countdown_end_ms,
{
}

/// Takes the active race to its end before its time.
pub fn abort_race(race: &mut LocalRaceRuntimeInfo)
    ensures
        *final(race) == (LocalRaceRuntimeInfo {
            phase: Some(LocalRacePhase::Aborted),
            ..*old(race)
        }),
{
    race.phase = Some(LocalRacePhase::Aborted);
}

/// What the engine is told when a race is closed.
#[derive(Clone, Copy, PartialEq, Eq, Debug, Structural)]
pub enum CloseCommand {
    /// The race that has finished is still there.
    Deactivate,
    /// An aborted race is gone already; only the revision moves on.
    BumpRevision,
}

/// How the active race is closed; it must have come to its end.
pub fn plan_close(active: &Option<LocalRaceRuntimeInfo>, race_id: &str) -> (r: Result<
    CloseCommand,
    Status,
>)
    ensures
        if wrong_race(*active, race_id@) is Some {
            r matches Err(e) && Some(e@) == wrong_race(*active, race_id@)
        } else if active->Some_0.phase == Some(LocalRacePhase::Finished) {
            r == Ok::<CloseCommand, Status>(CloseCommand::Deactivate)
        } else if active->Some_0.phase == Some(LocalRacePhase::Aborted) {
            r == Ok::<CloseCommand, Status>(CloseCommand::BumpRevision)
        } else {
            r matches Err(e) && e@ == (
                Code::FailedPrecondition,
                "local race can be closed only when finished or aborted"@,
            )
        },
{
    match active {
        None => Err(Status::not_found("no active local race")),
        Some(race) => {
            if !text::str_eq(race.race_id.as_str(), race_id) {
                return Err(Status::not_found("active local race id does not match request"));
            }
            match race.phase {
                Some(LocalRacePhase::Finished) => Ok(CloseCommand::Deactivate),
                Some(LocalRacePhase::Aborted) => Ok(CloseCommand::BumpRevision),
                _ => Err(
                    Status::failed_precondition(
                        "local race can be closed only when finished or aborted",
                    ),
                ),
            }
        },
    }
}

/// The status for a state that could not be changed.
pub open spec fn state_error_status(err: LocalRaceStateError) -> (Code, Seq<char>) {
    match err {
        LocalRaceStateError::NoActiveRace => (Code::NotFound, "no active local race"@),
        LocalRaceStateError::RaceMismatch => (
            Code::NotFound,
            "active local race id does not match request"@,
        ),
        LocalRaceStateError::JoinClosed => (
            Code::FailedPrecondition,
            "local race join is allowed only in staging phase"@,
        ),
        LocalRaceStateError::ParticipantLimitReached => (
            Code::ResourceExhausted,
            "local race participant limit reached"@,
        ),
    }
}

pub fn map_state_err(err: LocalRaceStateError) -> (r: Status)
    ensures
        r@ == state_error_status(err),
{
    match err {
        LocalRaceStateError::NoActiveRace => Status::not_found("no active local race"),
        LocalRaceStateError::RaceMismatch => Status::not_found(
            "active local race id does not match request",
        ),
        LocalRaceStateError::JoinClosed => Status::failed_precondition(
            "local race join is allowed only in staging phase",
        ),
        LocalRaceStateError::ParticipantLimitReached => Status::new(
            Code::ResourceExhausted,
            "local race participant limit reached",
        ),
    }
}

/// There is a race exactly where its map, without the whitespace around it, is not blank
/// and alphanumeric and the race lasts.
pub proof fn races_in_order_are_taken(config: LocalRaceConfigInput)
    ensures
        race_fault(config) is None <==> {
            &&& text::trimmed(config.map_id@).len() > 0
            &&& text::all_alphanumeric(text::trimmed(config.map_id@))
            &&& config.race_duration_sec > 0
        },
{
}

/// What a race was asked for with it has, and only what it lacks is filled in: a name, noon,
/// a clear sky of twenty degrees, and thirty-three participants.
pub proof fn only_what_lacks_is_filled_in(
    normalized: LocalRaceConfigInput,
    config: LocalRaceConfigInput,
)
    requires
        is_normalized(normalized, config),
    ensures
        text::trimmed(config.race_name@).len() > 0 ==> normalized.race_name@ == text::trimmed(
            config.race_name@,
        ),
        text::trimmed(config.race_name@).len() == 0 ==> normalized.race_name@ == "Local race"@,
        normalized.map_id@ == text::trimmed(config.map_id@),
        normalized.race_duration_sec == config.race_duration_sec,
        normalized.ghost_mode == config.ghost_mode,
        config.time_of_day is Some ==> normalized.time_of_day == config.time_of_day,
        config.time_of_day is None ==> (normalized.time_of_day matches Some(t) && t.mode == Some(
            LocalTimeOfDayMode::FixedPreset,
        ) && t.fixed_preset == Some(RuntimeTimeOfDayPreset::Noon)),
        config.weather is Some ==> normalized.weather == config.weather,
        config.weather is None ==> (normalized.weather matches Some(w) && w.weather_type == Some(
            WeatherType::Clear,
        ) && w.temperature_c == 20),
        config.max_participants > 0 ==> normalized.max_participants == config.max_participants,
        config.max_participants == 0 ==> normalized.max_participants == 33,
{
}

/// There is a time of day to start with exactly where it is told where it comes from and
/// its preset is named.
pub proof fn presets_in_order_are_taken(value: LocalTimeOfDaySettings)
    ensures
        preset_fault(value) is None <==> {
            &&& value.mode matches Some(mode) && !(mode is Unspecified)
            &&& value.fixed_preset matches Some(preset) && !(preset is Unspecified)
        },
{
}

/// A request is about the active race exactly where there is one and it has the id; it is
/// not found otherwise.
pub proof fn only_the_active_race_is_meant(active: Option<LocalRaceRuntimeInfo>, race_id: Seq<char>)
    ensures
        wrong_race(active, race_id) is None <==> (active matches Some(race) && race.race_id@
            == race_id),
        wrong_race(active, race_id) matches Some(status) ==> status.0 == Code::NotFound,
{
}

/// Seconds count a thousand milliseconds each, and no sum is beyond the largest time.
pub proof fn seconds_are_added_in_milliseconds(ms: u64, seconds: u32)
    ensures
        ms + seconds * 1000 <= u64::MAX ==> later_by(ms, seconds) == ms + seconds * 1000,
        ms + seconds * 1000 > u64::MAX ==> later_by(ms, seconds) == u64::MAX,
{
}

/// A race is counted down or, without seconds to count, runs at once: then it has started at
/// the end of its countdown and ends after as many seconds as it lasts. All else of it stays,
/// and a race that is still counted down has neither started nor got an end by that.
pub proof fn countdown_sets_times_alone(
    race: LocalRaceRuntimeInfo,
    countdown_seconds: u32,
    countdown_end_ms: u64,
)
    ensures
        ({
            let r = counted_down(race, countdown_seconds, countdown_end_ms);
            &&& r.race_id == race.race_id
            &&& r.race_name == race.race_name
            &&& r.map_id == race.map_id
            &&& r.race_duration_sec == race.race_duration_sec
            &&& r.time_of_day == race.time_of_day
            &&& r.active_time_of_day_preset == race.active_time_of_day_preset
            &&& r.ghost_mode == race.ghost_mode
            &&& r.weather == race.weather
            &&& r.created_at_ms == race.created_at_ms
            &&& r.joined_participant_count == race.joined_participant_count
            &&& r.max_participants == race.max_participants
            &&& r.countdown_end_at_ms == Some(countdown_end_ms)
            &&& (r.phase == Some(LocalRacePhase::Running)) == (countdown_seconds == 0)
            &&& (r.phase == Some(LocalRacePhase::Countdown)) == (countdown_seconds > 0)
            &&& countdown_seconds == 0 ==> r.running_started_at_ms == Some(countdown_end_ms)
            &&& countdown_seconds == 0 && countdown_end_ms + race.race_duration_sec * 1000
                <= u64::MAX ==> (r.planned_end_at_ms matches Some(end) && end - countdown_end_ms
                == race.race_duration_sec * 1000)
            &&& countdown_seconds > 0 ==> r.running_started_at_ms == race.running_started_at_ms
                && r.planned_end_at_ms == race.planned_end_at_ms
        }),
{
}

/// Each reason for which the race could not be changed has its code.
pub proof fn state_errors_have_their_codes(err: LocalRaceStateError)
    ensures
        (state_error_status(err).0 == Code::NotFound) == (err is NoActiveRace || err
            is RaceMismatch),
        (state_error_status(err).0 == Code::FailedPrecondition) == (err is JoinClosed),
        (state_error_status(err).0 == Code::ResourceExhausted) == (err
            is ParticipantLimitReached),
{
}

/// Of several faults of a race the first is told: its map is missing, its map is no key, or it
/// does not last; and so with its time of day.
pub proof fn first_race_fault_is_told(config: LocalRaceConfigInput, value: LocalTimeOfDaySettings)
    ensures
        ({
            let map = text::trimmed(config.map_id@);
            &&& map.len() == 0 ==> race_fault(config) == Some("map_id must be non-empty"@)
            &&& map.len() > 0 && !text::all_alphanumeric(map) ==> race_fault(config) == Some(
                "map_id must be an alphanumeric standalone storage key"@,
            )
            &&& map.len() > 0 && text::all_alphanumeric(map) && config.race_duration_sec == 0
                ==> race_fault(config) == Some("race_duration_sec must be greater than zero"@)
        }),
        value.mode is None ==> preset_fault(value) == Some("invalid time_of_day.mode"@),
        value.mode == Some(LocalTimeOfDayMode::Unspecified) ==> preset_fault(value) == Some(
            "time_of_day.mode must be specified"@,
        ),
        value.mode is Some && value.mode != Some(LocalTimeOfDayMode::Unspecified)
            && value.fixed_preset is None ==> preset_fault(value) == Some(
            "invalid time_of_day.fixed_preset"@,
        ),
        value.mode is Some && value.mode != Some(LocalTimeOfDayMode::Unspecified)
            && value.fixed_preset == Some(RuntimeTimeOfDayPreset::Unspecified) ==> preset_fault(
            value,
        ) == Some("time_of_day.fixed_preset must be specified"@),
{
}

/// A request about another race is told whether there is one at all, and each reason for which
/// the race could not be changed is told in its own words.
pub proof fn race_refusals_are_told(
    active: Option<LocalRaceRuntimeInfo>,
    race_id: Seq<char>,
    err: LocalRaceStateError,
)
    ensures
        active is None ==> wrong_race(active, race_id) == Some(
            (Code::NotFound, "no active local race"@),
        ),
        active matches Some(race) ==> (race.race_id@ != race_id ==> wrong_race(active, race_id)
            == Some((Code::NotFound, "active local race id does not match request"@))),
        err is NoActiveRace ==> state_error_status(err).1 == "no active local race"@,
        err is RaceMismatch ==> state_error_status(err).1
            == "active local race id does not match request"@,
        err is JoinClosed ==> state_error_status(err).1
            == "local race join is allowed only in staging phase"@,
        err is ParticipantLimitReached ==> state_error_status(err).1
            == "local race participant limit reached"@,
{
}

} // verus!
