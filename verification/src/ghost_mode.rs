//! Ghost mode: when cars pass through each other.

use vstd::prelude::*;
use crate::float_bits::{F32Bits, ZERO_BITS};
use crate::status::{Code, Status};
use crate::text;

verus! {

pub const MAX_GHOST_DELAY_MS: u32 = 600_000;

pub const MAX_GHOST_UNTIL_COMPLETED_LAPS: u32 = 100_000;

/// When cars pass through each other.
#[derive(Clone, Copy, PartialEq, Eq, Debug, Structural)]
pub struct GhostModeSettings {
    pub enabled: bool,
    pub enter_speed_max_mps: F32Bits,
    pub exit_speed_min_mps: F32Bits,
    pub enter_delay_ms: u32,
    pub exit_delay_ms: u32,
    pub until_completed_laps: u32,
    pub vehicle_overlap_exit_delay_ms: u32,
}

/// The settings are equal, their speeds as numbers.
pub open spec fn equal_settings(a: GhostModeSettings, b: GhostModeSettings) -> bool {
    &&& a.enabled == b.enabled
    &&& a.enter_speed_max_mps.equal(b.enter_speed_max_mps)
    &&& a.exit_speed_min_mps.equal(b.exit_speed_min_mps)
    &&& a.enter_delay_ms == b.enter_delay_ms
    &&& a.exit_delay_ms == b.exit_delay_ms
    &&& a.until_completed_laps == b.until_completed_laps
    &&& a.vehicle_overlap_exit_delay_ms == b.vehicle_overlap_exit_delay_ms
}

pub fn are_equal_settings(a: GhostModeSettings, b: GhostModeSettings) -> (r: bool)
    ensures
        r == equal_settings(a, b),
{
    a.enabled == b.enabled && a.enter_speed_max_mps.is_equal(b.enter_speed_max_mps)
        && a.exit_speed_min_mps.is_equal(b.exit_speed_min_mps) && a.enter_delay_ms
        == b.enter_delay_ms && a.exit_delay_ms == b.exit_delay_ms && a.until_completed_laps
        == b.until_completed_laps && a.vehicle_overlap_exit_delay_ms
        == b.vehicle_overlap_exit_delay_ms
}

/// The speed is finite and not negative.
pub open spec fn is_speed(speed: F32Bits) -> bool {
    speed.finite() && !speed.below_zero()
}

/// Both speeds are speeds, and the one to enter at is not above the one to leave at.
pub open spec fn are_sound_settings(settings: GhostModeSettings) -> bool {
    &&& is_speed(settings.enter_speed_max_mps)
    &&& is_speed(settings.exit_speed_min_mps)
    &&& !settings.enter_speed_max_mps.above(settings.exit_speed_min_mps)
}

/// The settings as they were read from the file at the path, where they are sound.
pub fn check_ghost_mode_settings(settings: GhostModeSettings, path: &str) -> (r: Result<
    GhostModeSettings,
    Status,
>)
    ensures
        are_sound_settings(settings) ==> r == Ok::<GhostModeSettings, Status>(settings),
        !are_sound_settings(settings) ==> (r matches Err(e) && e@ == (
            Code::InvalidArgument,
            "invalid ghost mode settings in "@ + path@
                + ": require finite non-negative speeds and enter_speed_max_mps <= exit_speed_min_mps"@,
        )),
{
    if !settings.enter_speed_max_mps.is_finite() || !settings.exit_speed_min_mps.is_finite()
        || settings.enter_speed_max_mps.is_below_zero() || settings.exit_speed_min_mps.is_below_zero()
        || settings.enter_speed_max_mps.is_above(settings.exit_speed_min_mps) {
        return Err(
            Status::with_message(
                Code::InvalidArgument,
                text::join3(
                    "invalid ghost mode settings in ",
                    path,
                    ": require finite non-negative speeds and enter_speed_max_mps <= exit_speed_min_mps",
                ),
            ),
        );
    }
    Ok(settings)
}

/// What is wrong with the speeds of settings on the wire; the first fault counts.
pub open spec fn speed_fault(settings: GhostModeSettings) -> Option<Seq<char>> {
    if !is_speed(settings.enter_speed_max_mps) {
        Some("ghost_mode.enter_speed_max_mps must be finite and >= 0"@)
    } else if !is_speed(settings.exit_speed_min_mps) {
        Some("ghost_mode.exit_speed_min_mps must be finite and >= 0"@)
    } else if settings.enter_speed_max_mps.above(settings.exit_speed_min_mps) {
        Some("ghost_mode.enter_speed_max_mps must be <= ghost_mode.exit_speed_min_mps"@)
    } else {
        None
    }
}

/// Settings have a fault in their speeds exactly where they are not sound.
pub proof fn speed_faults_are_complete(settings: GhostModeSettings)
    ensures
        speed_fault(settings) is None <==> are_sound_settings(settings),
{
}

/// The settings of a request, where their speeds are in order.
pub fn ghost_mode_from_proto(settings: GhostModeSettings) -> (r: Result<GhostModeSettings, Status>)
    ensures
        match speed_fault(settings) {
            None => r == Ok::<GhostModeSettings, Status>(settings),
            Some(fault) => r matches Err(e) && e@ == (Code::InvalidArgument, fault),
        },
{
    if !settings.enter_speed_max_mps.is_finite() || settings.enter_speed_max_mps.is_below_zero() {
        return Err(
            Status::invalid_argument("ghost_mode.enter_speed_max_mps must be finite and >= 0"),
        );
    }
    if !settings.exit_speed_min_mps.is_finite() || settings.exit_speed_min_mps.is_below_zero() {
        return Err(
            Status::invalid_argument("ghost_mode.exit_speed_min_mps must be finite and >= 0"),
        );
    }
    if settings.enter_speed_max_mps.is_above(settings.exit_speed_min_mps) {
        return Err(
            Status::invalid_argument(
                "ghost_mode.enter_speed_max_mps must be <= ghost_mode.exit_speed_min_mps",
            ),
        );
    }
    Ok(settings)
}

/// What is wrong with settings; the first fault counts, and faults in the speeds come
/// first.
pub open spec fn settings_fault(settings: GhostModeSettings) -> Option<Seq<char>> {
    let delay = text::decimal(MAX_GHOST_DELAY_MS as nat);
    if speed_fault(settings) is Some {
        speed_fault(settings)
    } else if settings.enter_delay_ms > MAX_GHOST_DELAY_MS {
        Some("ghost_mode.enter_delay_ms must be <= "@ + delay)
    } else if settings.exit_delay_ms > MAX_GHOST_DELAY_MS {
        Some("ghost_mode.exit_delay_ms must be <= "@ + delay)
    } else if settings.vehicle_overlap_exit_delay_ms > MAX_GHOST_DELAY_MS {
        Some("ghost_mode.vehicle_overlap_exit_delay_ms must be <= "@ + delay)
    } else if settings.until_completed_laps > MAX_GHOST_UNTIL_COMPLETED_LAPS {
        Some(
            "ghost_mode.until_completed_laps must be <= "@ + text::decimal(
                MAX_GHOST_UNTIL_COMPLETED_LAPS as nat,
            ),
        )
    } else {
        None
    }
}

fn over_limit(words: &str, limit: u32) -> (r: Status)
    ensures
        r@ == (Code::InvalidArgument, words@ + text::decimal(limit as nat)),
{
    let mut message: String = words.to_owned();
    text::push_decimal(&mut message, limit as u128);
    Status::with_message(Code::InvalidArgument, message)
}

/// Checks all of the settings of a request.
pub fn validate_ghost_mode(settings: GhostModeSettings) -> (r: Result<(), Status>)
    ensures
        match settings_fault(settings) {
            None => r == Ok::<(), Status>(()),
            Some(fault) => r matches Err(e) && e@ == (Code::InvalidArgument, fault),
        },
{
    match ghost_mode_from_proto(settings) {
        Err(e) => {
            return Err(e);
        },
        Ok(_) => {},
    }
    if settings.enter_delay_ms > MAX_GHOST_DELAY_MS {
        return Err(over_limit("ghost_mode.enter_delay_ms must be <= ", MAX_GHOST_DELAY_MS));
    }
    if settings.exit_delay_ms > MAX_GHOST_DELAY_MS {
        return Err(over_limit("ghost_mode.exit_delay_ms must be <= ", MAX_GHOST_DELAY_MS));
    }
    if settings.vehicle_overlap_exit_delay_ms > MAX_GHOST_DELAY_MS {
        return Err(
            over_limit("ghost_mode.vehicle_overlap_exit_delay_ms must be <= ", MAX_GHOST_DELAY_MS),
        );
    }
    if settings.until_completed_laps > MAX_GHOST_UNTIL_COMPLETED_LAPS {
        return Err(
            over_limit(
                "ghost_mode.until_completed_laps must be <= ",
                MAX_GHOST_UNTIL_COMPLETED_LAPS,
            ),
        );
    }
    Ok(())
}

/// Settings that are switched off.
pub open spec fn no_ghost_mode() -> GhostModeSettings {
    GhostModeSettings {
        enabled: false,
        enter_speed_max_mps: F32Bits { bits: ZERO_BITS },
        exit_speed_min_mps: F32Bits { bits: ZERO_BITS },
        enter_delay_ms: 0,
        exit_delay_ms: 0,
        until_completed_laps: 0,
        vehicle_overlap_exit_delay_ms: 0,
    }
}

/// The settings that the engine gets for stored ones; without any, ghost mode is off.
pub fn engine_ghost_mode_settings_from_local_record(record: Option<GhostModeSettings>) -> (r:
    GhostModeSettings)
    ensures
        r == match record {
            Some(record) => record,
            None => no_ghost_mode(),
        },
        record is None ==> !r.enabled,
{
    match record {
        Some(record) => record,
        None => GhostModeSettings {
            enabled: false,
            enter_speed_max_mps: F32Bits { bits: ZERO_BITS },
            exit_speed_min_mps: F32Bits { bits: ZERO_BITS },
            enter_delay_ms: 0,
            exit_delay_ms: 0,
            until_completed_laps: 0,
            vehicle_overlap_exit_delay_ms: 0,
        },
    }
}

/// How the engine joins the conditions of ghost mode.
#[derive(Clone, Copy, PartialEq, Eq, Debug, Structural)]
pub enum GhostModeConditionLogic {
    Or,
}

/// The settings in the engine's own terms.
#[derive(Clone, Copy, PartialEq, Eq, Debug, Structural)]
pub struct EngineGhostModeSettings {
    pub enabled: bool,
    pub min_speed_enter_mps: F32Bits,
    pub min_speed_exit_mps: F32Bits,
    pub enter_delay_ms: u32,
    pub exit_delay_ms: u32,
    pub min_completed_laps: u32,
    pub condition_logic: GhostModeConditionLogic,
    pub overlap_exit_delay_ms: u32,
}

/// The same settings in the engine's terms.
pub open spec fn in_engine_terms(settings: GhostModeSettings) -> EngineGhostModeSettings {
    EngineGhostModeSettings {
        enabled: settings.enabled,
        min_speed_enter_mps: settings.enter_speed_max_mps,
        min_speed_exit_mps: settings.exit_speed_min_mps,
        enter_delay_ms: settings.enter_delay_ms,
        exit_delay_ms: settings.exit_delay_ms,
        min_completed_laps: settings.until_completed_laps,
        condition_logic: GhostModeConditionLogic::Or,
        overlap_exit_delay_ms: settings.vehicle_overlap_exit_delay_ms,
    }
}

/// The settings that are switched off, in the engine's terms.
pub fn default_engine_ghost_mode_settings() -> (r: EngineGhostModeSettings)
    ensures
        r == in_engine_terms(no_ghost_mode()),
{
    engine_ghost_mode_settings_from_record(None)
}

pub fn engine_ghost_mode_settings_from_record(record: Option<GhostModeSettings>) -> (r:
    EngineGhostModeSettings)
    ensures
        r == in_engine_terms(
            match record {
                Some(record) => record,
                None => no_ghost_mode(),
            },
        ),
        record matches Some(settings) ==> {
            &&& r.enabled == settings.enabled
            &&& r.min_speed_enter_mps == settings.enter_speed_max_mps
            &&& r.min_speed_exit_mps == settings.exit_speed_min_mps
            &&& r.enter_delay_ms == settings.enter_delay_ms
            &&& r.exit_delay_ms == settings.exit_delay_ms
            &&& r.min_completed_laps == settings.until_completed_laps
            &&& r.overlap_exit_delay_ms == settings.vehicle_overlap_exit_delay_ms
        },
        record is None ==> !r.enabled,
{
    let settings: GhostModeSettings = engine_ghost_mode_settings_from_local_record(record);
    EngineGhostModeSettings {
        enabled: settings.enabled,
        min_speed_enter_mps: settings.enter_speed_max_mps,
        min_speed_exit_mps: settings.exit_speed_min_mps,
        enter_delay_ms: settings.enter_delay_ms,
        exit_delay_ms: settings.exit_delay_ms,
        min_completed_laps: settings.until_completed_laps,
        condition_logic: GhostModeConditionLogic::Or,
        overlap_exit_delay_ms: settings.vehicle_overlap_exit_delay_ms,
    }
}

/// The engine's settings carry each stored value under its own meaning; conditions are
/// joined by or.
pub proof fn stored_values_keep_their_meaning(settings: GhostModeSettings)
    ensures
        in_engine_terms(settings).enabled == settings.enabled,
        in_engine_terms(settings).min_speed_enter_mps == settings.enter_speed_max_mps,
        in_engine_terms(settings).min_speed_exit_mps == settings.exit_speed_min_mps,
        in_engine_terms(settings).enter_delay_ms == settings.enter_delay_ms,
        in_engine_terms(settings).exit_delay_ms == settings.exit_delay_ms,
        in_engine_terms(settings).min_completed_laps == settings.until_completed_laps,
        in_engine_terms(settings).overlap_exit_delay_ms == settings.vehicle_overlap_exit_delay_ms,
        in_engine_terms(settings).condition_logic is Or,
{
}

/// Settings that differ in anything are different settings for the engine.
pub proof fn engine_tells_settings_apart(a: GhostModeSettings, b: GhostModeSettings)
    ensures
        in_engine_terms(a) == in_engine_terms(b) <==> a == b,
{
}

/// Without settings ghost mode is off, and every number is nothing.
pub proof fn no_settings_are_switched_off()
    ensures
        !no_ghost_mode().enabled,
        no_ghost_mode().enter_speed_max_mps.zero() && no_ghost_mode().exit_speed_min_mps.zero(),
        no_ghost_mode().enter_delay_ms == 0 && no_ghost_mode().exit_delay_ms == 0,
        no_ghost_mode().until_completed_laps == 0,
        no_ghost_mode().vehicle_overlap_exit_delay_ms == 0,
        are_sound_settings(no_ghost_mode()),
{
}

/// Settings are accepted exactly where both speeds are finite and not negative, the one to
/// enter at is not above the one to leave at, no delay is longer than ten minutes and no more
/// than a hundred thousand laps are asked for.
pub proof fn accepted_settings_are_within_limits(settings: GhostModeSettings)
    ensures
        settings_fault(settings) is None <==> {
            &&& settings.enter_speed_max_mps.finite() && !settings.enter_speed_max_mps.below_zero()
            &&& settings.exit_speed_min_mps.finite() && !settings.exit_speed_min_mps.below_zero()
            &&& !settings.enter_speed_max_mps.above(settings.exit_speed_min_mps)
            &&& settings.enter_delay_ms <= 600_000
            &&& settings.exit_delay_ms <= 600_000
            &&& settings.vehicle_overlap_exit_delay_ms <= 600_000
            &&& settings.until_completed_laps <= 100_000
        },
        speed_fault(settings) is None <==> {
            &&& settings.enter_speed_max_mps.finite() && !settings.enter_speed_max_mps.below_zero()
            &&& settings.exit_speed_min_mps.finite() && !settings.exit_speed_min_mps.below_zero()
            &&& !settings.enter_speed_max_mps.above(settings.exit_speed_min_mps)
        },
{
}

/// Settings that are equal agree in every value; the same settings are equal where their
/// speeds are numbers.
pub proof fn equal_settings_agree(a: GhostModeSettings, b: GhostModeSettings)
    ensures
        equal_settings(a, b) ==> a.enabled == b.enabled && a.enter_delay_ms == b.enter_delay_ms
            && a.exit_delay_ms == b.exit_delay_ms && a.until_completed_laps
            == b.until_completed_laps && a.vehicle_overlap_exit_delay_ms
            == b.vehicle_overlap_exit_delay_ms && a.enter_speed_max_mps.equal(
            b.enter_speed_max_mps,
        ) && a.exit_speed_min_mps.equal(b.exit_speed_min_mps),
        equal_settings(a, b) <==> equal_settings(b, a),
        a == b && !a.enter_speed_max_mps.nan() && !a.exit_speed_min_mps.nan() ==> equal_settings(
            a,
            b,
        ),
{
}

/// Of several faults the first is told: that of the speed to enter at, that of the speed to
/// leave at, their order, and then the delays and the laps, each with its limit.
pub proof fn first_ghost_fault_is_told(settings: GhostModeSettings)
    ensures
        ({
            let enter = settings.enter_speed_max_mps;
            let exit = settings.exit_speed_min_mps;
            let enter_ok = enter.finite() && !enter.below_zero();
            let exit_ok = exit.finite() && !exit.below_zero();
            let sound = enter_ok && exit_ok && !enter.above(exit);
            let limit = text::decimal(600_000);
            &&& !enter_ok ==> speed_fault(settings) == Some(
                "ghost_mode.enter_speed_max_mps must be finite and >= 0"@,
            )
            &&& enter_ok && !exit_ok ==> speed_fault(settings) == Some(
                "ghost_mode.exit_speed_min_mps must be finite and >= 0"@,
            )
            &&& enter_ok && exit_ok && enter.above(exit) ==> speed_fault(settings) == Some(
                "ghost_mode.enter_speed_max_mps must be <= ghost_mode.exit_speed_min_mps"@,
            )
            &&& !sound ==> settings_fault(settings) == speed_fault(settings)
            &&& sound && settings.enter_delay_ms > 600_000 ==> settings_fault(settings) == Some(
                "ghost_mode.enter_delay_ms must be <= "@ + limit,
            )
            &&& sound && settings.enter_delay_ms <= 600_000 && settings.exit_delay_ms > 600_000
                ==> settings_fault(settings) == Some("ghost_mode.exit_delay_ms must be <= "@ + limit)
            &&& sound && settings.enter_delay_ms <= 600_000 && settings.exit_delay_ms <= 600_000
                && settings.vehicle_overlap_exit_delay_ms > 600_000 ==> settings_fault(settings)
                == Some("ghost_mode.vehicle_overlap_exit_delay_ms must be <= "@ + limit)
            &&& sound && settings.enter_delay_ms <= 600_000 && settings.exit_delay_ms <= 600_000
                && settings.vehicle_overlap_exit_delay_ms <= 600_000
                && settings.until_completed_laps > 100_000 ==> settings_fault(settings) == Some(
                "ghost_mode.until_completed_laps must be <= "@ + text::decimal(100_000),
            )
        }),
{
}

} // verus!
