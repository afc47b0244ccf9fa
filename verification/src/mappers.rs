//! Mapping between what goes over the wire and what the engine takes and gives.
//!
//! Enumerations come in as decoded values: `None` stands for a number that names
//! no variant.

use vstd::prelude::*;
use crate::float_bits::{F32Bits, HALF_BITS, ZERO_BITS};
use crate::race::runtime_store::{
    RuntimePitEntrySource, RuntimePitHistoryEntry, RuntimePitStateSnapshot, RuntimePitTireType,
};
use crate::status::{Code, Status};

verus! {

/// A gear shift as the engine knows it.
#[derive(Clone, Copy, PartialEq, Eq, Debug, Structural)]
pub enum EngineGearShift {
    Hold,
    Upshift,
    Downshift,
}

/// A gear shift on the wire.
#[derive(Clone, Copy, PartialEq, Eq, Debug, Structural)]
pub enum WireGearShift {
    Unspecified,
    Hold,
    Upshift,
    Downshift,
}

/// What a driver does: the bit patterns of the inputs, and the gear shift.
#[derive(Clone, Copy, PartialEq, Eq, Debug, Structural)]
pub struct Controls {
    pub throttle: F32Bits,
    pub brake: F32Bits,
    pub brake_balancer: F32Bits,
    pub differential_lock: F32Bits,
    pub steering: F32Bits,
    pub gear_shift: EngineGearShift,
}

/// Controls as they come over the wire.
#[derive(Clone, Copy, PartialEq, Eq, Debug, Structural)]
pub struct WireControls {
    pub throttle: F32Bits,
    pub brake: F32Bits,
    pub brake_balancer: F32Bits,
    pub differential_lock: F32Bits,
    pub steering: F32Bits,
    pub gear_shift: Option<WireGearShift>,
}

/// The engine's gear shift for one on the wire.
pub open spec fn engine_shift(shift: WireGearShift) -> EngineGearShift {
    match shift {
        WireGearShift::Unspecified => EngineGearShift::Hold,
        WireGearShift::Hold => EngineGearShift::Hold,
        WireGearShift::Upshift => EngineGearShift::Upshift,
        WireGearShift::Downshift => EngineGearShift::Downshift,
    }
}

/// The gear shift on the wire for one of the engine's.
pub open spec fn wire_shift(shift: EngineGearShift) -> WireGearShift {
    match shift {
        EngineGearShift::Hold => WireGearShift::Hold,
        EngineGearShift::Upshift => WireGearShift::Upshift,
        EngineGearShift::Downshift => WireGearShift::Downshift,
    }
}

/// A gear shift that the engine answers with is read back as the same shift.
pub proof fn gear_shift_round_trip(shift: EngineGearShift)
    ensures
        engine_shift(wire_shift(shift)) == shift,
{
}

pub fn engine_gear_shift_to_proto(shift: EngineGearShift) -> (r: WireGearShift)
    ensures
        r == wire_shift(shift),
{
    match shift {
        EngineGearShift::Hold => WireGearShift::Hold,
        EngineGearShift::Upshift => WireGearShift::Upshift,
        EngineGearShift::Downshift => WireGearShift::Downshift,
    }
}

pub fn proto_gear_shift_to_engine(decoded: Option<WireGearShift>) -> (r: Result<
    EngineGearShift,
    Status,
>)
    ensures
        match decoded {
            Some(shift) => r matches Ok(s) && s == engine_shift(shift),
            None => r matches Err(e) && e@ == (Code::InvalidArgument, "invalid gear_shift"@),
        },
        r matches Ok(s) ==> (s is Upshift <==> decoded == Some(WireGearShift::Upshift)) && (
        s is Downshift <==> decoded == Some(WireGearShift::Downshift)),
{
    match decoded {
        Some(WireGearShift::Unspecified) => Ok(EngineGearShift::Hold),
        Some(WireGearShift::Hold) => Ok(EngineGearShift::Hold),
        Some(WireGearShift::Upshift) => Ok(EngineGearShift::Upshift),
        Some(WireGearShift::Downshift) => Ok(EngineGearShift::Downshift),
        None => Err(Status::invalid_argument("invalid gear_shift")),
    }
}

/// The controls that the engine gets for those on the wire.
pub open spec fn engine_controls(c: WireControls, shift: WireGearShift) -> Controls {
    Controls {
        throttle: c.throttle,
        brake: c.brake,
        brake_balancer: c.brake_balancer,
        differential_lock: c.differential_lock,
        steering: c.steering,
        gear_shift: engine_shift(shift),
    }
}

pub fn controls_from_proto(c: WireControls) -> (r: Result<Controls, Status>)
    ensures
        match c.gear_shift {
            Some(shift) => r matches Ok(v) && v == engine_controls(c, shift),
            None => r matches Err(e) && e@ == (Code::InvalidArgument, "invalid gear_shift"@),
        },
        r matches Ok(v) ==> {
            &&& v.throttle == c.throttle
            &&& v.brake == c.brake
            &&& v.brake_balancer == c.brake_balancer
            &&& v.differential_lock == c.differential_lock
            &&& v.steering == c.steering
            &&& v.gear_shift is Upshift <==> c.gear_shift == Some(WireGearShift::Upshift)
            &&& v.gear_shift is Downshift <==> c.gear_shift == Some(WireGearShift::Downshift)
        },
{
    match proto_gear_shift_to_engine(c.gear_shift) {
        Ok(gear_shift) => Ok(
            Controls {
                throttle: c.throttle,
                brake: c.brake,
                brake_balancer: c.brake_balancer,
                differential_lock: c.differential_lock,
                steering: c.steering,
                gear_shift,
            },
        ),
        Err(e) => Err(e),
    }
}

/// Controls of a development request, which has no brake balancer and no
/// differential lock: they stand in the middle and at zero.
pub fn proto_dev_to_controls(
    throttle: F32Bits,
    brake: F32Bits,
    steering: F32Bits,
    gear_shift: Option<WireGearShift>,
) -> (r: Result<Controls, Status>)
    ensures
        match gear_shift {
            Some(shift) => r matches Ok(v) && v == (Controls {
                throttle,
                brake,
                brake_balancer: F32Bits { bits: HALF_BITS },
                differential_lock: F32Bits { bits: ZERO_BITS },
                steering,
                gear_shift: engine_shift(shift),
            }),
            None => r matches Err(e) && e@ == (Code::InvalidArgument, "invalid gear_shift"@),
        },
{
    controls_from_proto(
        WireControls {
            throttle,
            brake,
            brake_balancer: F32Bits { bits: HALF_BITS },
            differential_lock: F32Bits { bits: ZERO_BITS },
            steering,
            gear_shift,
        },
    )
}

#[derive(Clone, Copy, PartialEq, Eq, Debug, Structural)]
pub enum EngineGhostModePhase {
    Inactive,
    PendingEnter,
    Active,
    PendingExit,
}

#[derive(Clone, Copy, PartialEq, Eq, Debug, Structural)]
pub enum WireGhostModePhase {
    Inactive,
    Active,
    PendingExit,
}

/// A car that is about to become a ghost is still shown as solid.
pub open spec fn wire_phase(phase: EngineGhostModePhase) -> WireGhostModePhase {
    match phase {
        EngineGhostModePhase::Inactive => WireGhostModePhase::Inactive,
        EngineGhostModePhase::PendingEnter => WireGhostModePhase::Inactive,
        EngineGhostModePhase::Active => WireGhostModePhase::Active,
        EngineGhostModePhase::PendingExit => WireGhostModePhase::PendingExit,
    }
}

pub fn ghost_mode_phase_to_proto(phase: EngineGhostModePhase) -> (r: WireGhostModePhase)
    ensures
        r == wire_phase(phase),
{
    match phase {
        EngineGhostModePhase::Inactive => WireGhostModePhase::Inactive,
        EngineGhostModePhase::PendingEnter => WireGhostModePhase::Inactive,
        EngineGhostModePhase::Active => WireGhostModePhase::Active,
        EngineGhostModePhase::PendingExit => WireGhostModePhase::PendingExit,
    }
}

/// What keeps a car in ghost mode.
#[derive(Clone, Copy, PartialEq, Eq, Debug, Structural)]
pub enum GhostModeBlocker {
    LapsRequirementNotMet,
    ExitSpeedNotMet,
    ExitDelayRunning,
    VehicleOverlapActive,
    OverlapExitDelayRunning,
    InPit,
}

/// The blockers that the engine reports, one flag each.
#[derive(Clone, Copy, PartialEq, Eq, Debug, Structural)]
pub struct GhostModeBlockerFlags {
    pub laps_requirement_not_met: bool,
    pub exit_speed_not_met: bool,
    pub exit_delay_running: bool,
    pub vehicle_overlap_active: bool,
    pub overlap_exit_delay_running: bool,
    pub in_pit: bool,
}

/// The list with `blocker` where `set`.
pub open spec fn listed_if(set: bool, blocker: GhostModeBlocker) -> Seq<GhostModeBlocker> {
    if set {
        seq![blocker]
    } else {
        Seq::empty()
    }
}

/// The blockers whose flags are set, in their fixed order.
pub open spec fn listed_blockers(f: GhostModeBlockerFlags) -> Seq<GhostModeBlocker> {
    listed_if(f.laps_requirement_not_met, GhostModeBlocker::LapsRequirementNotMet) + listed_if(
        f.exit_speed_not_met,
        GhostModeBlocker::ExitSpeedNotMet,
    ) + listed_if(f.exit_delay_running, GhostModeBlocker::ExitDelayRunning) + listed_if(
        f.vehicle_overlap_active,
        GhostModeBlocker::VehicleOverlapActive,
    ) + listed_if(f.overlap_exit_delay_running, GhostModeBlocker::OverlapExitDelayRunning)
        + listed_if(f.in_pit, GhostModeBlocker::InPit)
}

fn push_if(list: &mut Vec<GhostModeBlocker>, set: bool, blocker: GhostModeBlocker)
    ensures
        final(list)@ == old(list)@ + listed_if(set, blocker),
{
    if set {
        list.push(blocker);
    }
    proof {
        assert(list@ =~= old(list)@ + listed_if(set, blocker));
    }
}

pub fn ghost_mode_blockers_to_proto(flags: GhostModeBlockerFlags) -> (r: Vec<GhostModeBlocker>)
    ensures
        r@ == listed_blockers(flags),
{
    let mut r: Vec<GhostModeBlocker> = Vec::new();
    push_if(&mut r, flags.laps_requirement_not_met, GhostModeBlocker::LapsRequirementNotMet);
    push_if(&mut r, flags.exit_speed_not_met, GhostModeBlocker::ExitSpeedNotMet);
    push_if(&mut r, flags.exit_delay_running, GhostModeBlocker::ExitDelayRunning);
    push_if(&mut r, flags.vehicle_overlap_active, GhostModeBlocker::VehicleOverlapActive);
    push_if(&mut r, flags.overlap_exit_delay_running, GhostModeBlocker::OverlapExitDelayRunning);
    push_if(&mut r, flags.in_pit, GhostModeBlocker::InPit);
    proof {
        assert(Seq::<GhostModeBlocker>::empty() + listed_if(
            flags.laps_requirement_not_met,
            GhostModeBlocker::LapsRequirementNotMet,
        ) =~= listed_if(
            flags.laps_requirement_not_met,
            GhostModeBlocker::LapsRequirementNotMet,
        ));
    }
    r
}

/// A car's ghost mode as the engine reports it.
#[derive(Clone, Copy, Debug)]
pub struct GhostModeRuntimeState {
    pub can_collide_now: bool,
    pub phase: EngineGhostModePhase,
    pub blockers: GhostModeBlockerFlags,
    pub exit_delay_remaining_ms: u32,
}

/// A car's ghost mode on the wire.
#[derive(Debug)]
pub struct GhostModeState {
    pub can_collide_now: bool,
    pub phase: WireGhostModePhase,
    pub blockers: Vec<GhostModeBlocker>,
    pub exit_delay_remaining_ms: u32,
}

pub fn ghost_mode_state_from_runtime(runtime: &GhostModeRuntimeState) -> (r: GhostModeState)
    ensures
        r.can_collide_now == runtime.can_collide_now,
        r.phase == wire_phase(runtime.phase),
        r.blockers@ == listed_blockers(runtime.blockers),
        r.exit_delay_remaining_ms == runtime.exit_delay_remaining_ms,
{
    GhostModeState {
        can_collide_now: runtime.can_collide_now,
        phase: ghost_mode_phase_to_proto(runtime.phase),
        blockers: ghost_mode_blockers_to_proto(runtime.blockers),
        exit_delay_remaining_ms: runtime.exit_delay_remaining_ms,
    }
}

/// The gear that a car is in.
#[derive(Clone, Copy, PartialEq, Eq, Debug, Structural)]
pub enum Gear {
    Reverse,
    Neutral,
    Forward(u8),
}

/// The number that a gear is shown as.
pub fn gear_number(gear: Gear) -> (r: i32)
    ensures
        r == match gear {
            Gear::Reverse => -1int,
            Gear::Neutral => 0int,
            Gear::Forward(n) => n as int,
        },
{
    match gear {
        Gear::Reverse => -1,
        Gear::Neutral => 0,
        Gear::Forward(n) => n as i32,
    }
}

#[derive(Clone, Copy, PartialEq, Eq, Debug, Structural)]
pub enum TyreType {
    Hard,
    Soft,
    Wet,
}

/// One value for each wheel.
#[derive(Clone, Copy, PartialEq, Eq, Debug, Structural)]
pub struct PerWheel {
    pub front_left: F32Bits,
    pub front_right: F32Bits,
    pub rear_left: F32Bits,
    pub rear_right: F32Bits,
}

impl PerWheel {
    pub open spec fn all_zero(self) -> bool {
        self.front_left.zero() && self.front_right.zero() && self.rear_left.zero()
            && self.rear_right.zero()
    }

    pub open spec fn all_finite(self) -> bool {
        self.front_left.finite() && self.front_right.finite() && self.rear_left.finite()
            && self.rear_right.finite()
    }

    pub fn is_all_zero(&self) -> (r: bool)
        ensures
            r == self.all_zero(),
    {
        self.front_left.is_zero() && self.front_right.is_zero() && self.rear_left.is_zero()
            && self.rear_right.is_zero()
    }

    pub fn is_all_finite(&self) -> (r: bool)
        ensures
            r == self.all_finite(),
    {
        self.front_left.is_finite() && self.front_right.is_finite() && self.rear_left.is_finite()
            && self.rear_right.is_finite()
    }
}

/// What is shown of a car's tyres.
#[derive(Clone, Copy, PartialEq, Eq, Debug, Structural)]
pub struct TireTelemetry {
    pub tire_type: RuntimePitTireType,
    pub wear: Option<PerWheel>,
    pub temperature_celsius: Option<PerWheel>,
    pub slip: Option<PerWheel>,
}

pub open spec fn shown_tyre(tyre: TyreType) -> RuntimePitTireType {
    match tyre {
        TyreType::Hard => RuntimePitTireType::Hard,
        TyreType::Soft => RuntimePitTireType::Soft,
        TyreType::Wet => RuntimePitTireType::Wet,
    }
}

/// Whether the readings say anything: all are finite, and wear or temperature is
/// not zero all round.
pub open spec fn has_tyre_signal(health: PerWheel, temperature: PerWheel, slip: PerWheel) -> bool {
    health.all_finite() && temperature.all_finite() && slip.all_finite() && !(health.all_zero()
        && temperature.all_zero())
}

/// The tyre readings of a car; nothing where they carry no signal.
pub fn tire_telemetry_from_state(
    tyre_type: TyreType,
    health: PerWheel,
    temperature_celsius: PerWheel,
    slip: PerWheel,
) -> (r: TireTelemetry)
    ensures
        r == if has_tyre_signal(health, temperature_celsius, slip) {
            TireTelemetry {
                tire_type: shown_tyre(tyre_type),
                wear: Some(health),
                temperature_celsius: Some(temperature_celsius),
                slip: Some(slip),
            }
        } else {
            TireTelemetry {
                tire_type: RuntimePitTireType::Unspecified,
                wear: None,
                temperature_celsius: None,
                slip: None,
            }
        },
{
    let all_finite: bool = health.is_all_finite() && temperature_celsius.is_all_finite()
        && slip.is_all_finite();
    if !all_finite || (health.is_all_zero() && temperature_celsius.is_all_zero()) {
        return TireTelemetry {
            tire_type: RuntimePitTireType::Unspecified,
            wear: None,
            temperature_celsius: None,
            slip: None,
        };
    }
    let tire_type: RuntimePitTireType = match tyre_type {
        TyreType::Hard => RuntimePitTireType::Hard,
        TyreType::Soft => RuntimePitTireType::Soft,
        TyreType::Wet => RuntimePitTireType::Wet,
    };
    TireTelemetry {
        tire_type,
        wear: Some(health),
        temperature_celsius: Some(temperature_celsius),
        slip: Some(slip),
    }
}

/// A car's pit state on the wire.
#[derive(Clone, Copy, PartialEq, Eq, Debug, Structural)]
pub struct PitRuntimeState {
    pub pit_request_active: bool,
    pub emergency_lock_remaining_ms: u32,
    pub last_pit_time_ms: u64,
    pub last_pit_source: RuntimePitEntrySource,
    pub last_pit_lap: u32,
}

pub fn pit_runtime_from_snapshot(snapshot: &RuntimePitStateSnapshot) -> (r: PitRuntimeState)
    ensures
        r.pit_request_active == snapshot.pit_request_active,
        r.emergency_lock_remaining_ms == snapshot.emergency_lock_remaining_ms,
        r.last_pit_time_ms == snapshot.last_pit_time_ms,
        r.last_pit_source == snapshot.last_pit_source,
        r.last_pit_lap == snapshot.last_pit_lap,
{
    PitRuntimeState {
        pit_request_active: snapshot.pit_request_active,
        emergency_lock_remaining_ms: snapshot.emergency_lock_remaining_ms,
        last_pit_time_ms: snapshot.last_pit_time_ms,
        last_pit_source: snapshot.last_pit_source,
        last_pit_lap: snapshot.last_pit_lap,
    }
}

/// The stops of a car, newest first.
pub fn pit_history_from_snapshot(snapshot: &RuntimePitStateSnapshot) -> (r: Vec<
    RuntimePitHistoryEntry,
>)
    ensures
        r@ == snapshot.history@,
{
    let mut r: Vec<RuntimePitHistoryEntry> = Vec::new();
    let mut i: usize = 0;
    while i < snapshot.history.len()
        invariant
            i <= snapshot.history@.len(),
            r@ =~= snapshot.history@.subrange(0, i as int),
        decreases snapshot.history@.len() - i,
    {
        r.push(snapshot.history[i]);
        i += 1;
    }
    r
}

/// The tyre type that a decoded value stands for; an unknown one is refused.
pub fn runtime_tire_type_from_proto(decoded: Option<RuntimePitTireType>) -> (r: Result<
    RuntimePitTireType,
    (),
>)
    ensures
        match decoded {
            Some(t) => r == Ok::<RuntimePitTireType, ()>(t),
            None => r is Err,
        },
{
    match decoded {
        Some(t) => Ok(t),
        None => Err(()),
    }
}

#[derive(Clone, Copy, PartialEq, Eq, Debug, Structural)]
pub enum GroundType {
    Asphalt,
    Grass,
    Sand,
    Gravel,
    Wall,
    Kerb,
}

/// Ground on the wire, which knows no sand.
#[derive(Clone, Copy, PartialEq, Eq, Debug, Structural)]
pub enum WireGroundType {
    Asphalt,
    Grass,
    Gravel,
    Wall,
    Kerb,
}

/// The ground as it is shown: sand counts as gravel.
pub fn ground_type_to_proto(ground: GroundType) -> (r: WireGroundType)
    ensures
        r == match ground {
            GroundType::Asphalt => WireGroundType::Asphalt,
            GroundType::Grass => WireGroundType::Grass,
            GroundType::Sand => WireGroundType::Gravel,
            GroundType::Gravel => WireGroundType::Gravel,
            GroundType::Wall => WireGroundType::Wall,
            GroundType::Kerb => WireGroundType::Kerb,
        },
{
    match ground {
        GroundType::Asphalt => WireGroundType::Asphalt,
        GroundType::Grass => WireGroundType::Grass,
        GroundType::Sand => WireGroundType::Gravel,
        GroundType::Gravel => WireGroundType::Gravel,
        GroundType::Wall => WireGroundType::Wall,
        GroundType::Kerb => WireGroundType::Kerb,
    }
}

/// The engine is handed the driver's inputs as they were sent, each as itself. It shifts up
/// or down where the driver asked for that, and else holds the gear.
pub proof fn driver_inputs_reach_the_engine(c: WireControls, shift: WireGearShift)
    ensures
        engine_controls(c, shift).throttle == c.throttle,
        engine_controls(c, shift).brake == c.brake,
        engine_controls(c, shift).brake_balancer == c.brake_balancer,
        engine_controls(c, shift).differential_lock == c.differential_lock,
        engine_controls(c, shift).steering == c.steering,
        engine_controls(c, shift).gear_shift is Upshift <==> shift is Upshift,
        engine_controls(c, shift).gear_shift is Downshift <==> shift is Downshift,
        engine_controls(c, shift).gear_shift is Hold <==> shift is Hold || shift is Unspecified,
{
}

/// Two messages that the engine cannot tell apart have the same inputs.
pub proof fn different_inputs_stay_different(
    a: WireControls,
    b: WireControls,
    shift: WireGearShift,
)
    requires
        engine_controls(a, shift) == engine_controls(b, shift),
    ensures
        a.throttle == b.throttle,
        a.brake == b.brake,
        a.brake_balancer == b.brake_balancer,
        a.differential_lock == b.differential_lock,
        a.steering == b.steering,
{
}

/// The shift that the engine accepted is told as it is.
pub proof fn accepted_shift_is_told(shift: EngineGearShift)
    ensures
        wire_shift(shift) is Upshift <==> shift is Upshift,
        wire_shift(shift) is Downshift <==> shift is Downshift,
        wire_shift(shift) is Hold <==> shift is Hold,
{
}

/// A car is shown as a ghost while it is one, and as about to leave while it is, and at no
/// other time.
pub proof fn ghosts_are_shown_while_they_are(phase: EngineGhostModePhase)
    ensures
        wire_phase(phase) is Active <==> phase is Active,
        wire_phase(phase) is PendingExit <==> phase is PendingExit,
        wire_phase(phase) is Inactive <==> phase is Inactive || phase is PendingEnter,
{
}

proof fn lemma_listed_behind(s: Seq<GhostModeBlocker>, set: bool, b: GhostModeBlocker)
    ensures
        forall|x: GhostModeBlocker| #[trigger]
            (s + listed_if(set, b)).contains(x) <==> s.contains(x) || (set && x == b),
        s.no_duplicates() && !s.contains(b) ==> (s + listed_if(set, b)).no_duplicates(),
{
    let all = s + listed_if(set, b);
    if set {
        assert(all =~= s.push(b));
        assert(all[s.len() as int] == b);
    } else {
        assert(all =~= s);
    }
    assert forall|x: GhostModeBlocker| #[trigger] all.contains(x) <==> s.contains(x) || (set && x
        == b) by {
        if s.contains(x) {
            let k = choose|k: int| 0 <= k < s.len() && s[k] == x;
            assert(all[k] == x);
        }
    }
    if s.no_duplicates() && !s.contains(b) && set {
        assert forall|i: int, j: int| 0 <= i < all.len() && 0 <= j < all.len() && i
            != j implies all[i] != all[j] by {
            if i < s.len() {
                assert(s.contains(s[i]));
            }
            if j < s.len() {
                assert(s.contains(s[j]));
            }
        }
    }
}

/// A blocker is listed exactly where its own flag is set, and once; the laps come first and
/// the pit last.
pub proof fn set_blockers_are_listed(f: GhostModeBlockerFlags)
    ensures
        listed_blockers(f).contains(GhostModeBlocker::LapsRequirementNotMet)
            <==> f.laps_requirement_not_met,
        listed_blockers(f).contains(GhostModeBlocker::ExitSpeedNotMet) <==> f.exit_speed_not_met,
        listed_blockers(f).contains(GhostModeBlocker::ExitDelayRunning) <==> f.exit_delay_running,
        listed_blockers(f).contains(GhostModeBlocker::VehicleOverlapActive)
            <==> f.vehicle_overlap_active,
        listed_blockers(f).contains(GhostModeBlocker::OverlapExitDelayRunning)
            <==> f.overlap_exit_delay_running,
        listed_blockers(f).contains(GhostModeBlocker::InPit) <==> f.in_pit,
        listed_blockers(f).no_duplicates(),
        f.laps_requirement_not_met ==> listed_blockers(f)[0]
            == GhostModeBlocker::LapsRequirementNotMet,
        f.in_pit ==> listed_blockers(f).last() == GhostModeBlocker::InPit,
{
    let none = Seq::<GhostModeBlocker>::empty();
    let a = listed_if(f.laps_requirement_not_met, GhostModeBlocker::LapsRequirementNotMet);
    assert(none + a =~= a);
    lemma_listed_behind(none, f.laps_requirement_not_met, GhostModeBlocker::LapsRequirementNotMet);
    let b = a + listed_if(f.exit_speed_not_met, GhostModeBlocker::ExitSpeedNotMet);
    lemma_listed_behind(a, f.exit_speed_not_met, GhostModeBlocker::ExitSpeedNotMet);
    let c = b + listed_if(f.exit_delay_running, GhostModeBlocker::ExitDelayRunning);
    lemma_listed_behind(b, f.exit_delay_running, GhostModeBlocker::ExitDelayRunning);
    let d = c + listed_if(f.vehicle_overlap_active, GhostModeBlocker::VehicleOverlapActive);
    lemma_listed_behind(c, f.vehicle_overlap_active, GhostModeBlocker::VehicleOverlapActive);
    let e = d + listed_if(f.overlap_exit_delay_running, GhostModeBlocker::OverlapExitDelayRunning);
    lemma_listed_behind(
        d,
        f.overlap_exit_delay_running,
        GhostModeBlocker::OverlapExitDelayRunning,
    );
    lemma_listed_behind(e, f.in_pit, GhostModeBlocker::InPit);
    assert(listed_blockers(f) == e + listed_if(f.in_pit, GhostModeBlocker::InPit));
}

/// Readings of the tyres are shown as soon as all of them are finite and some wear or some
/// temperature is not zero; a single reading that is not finite hides them all.
pub proof fn tyres_are_shown_with_a_signal(health: PerWheel, temperature: PerWheel, slip: PerWheel)
    ensures
        has_tyre_signal(health, temperature, slip) ==> health.front_left.finite()
            && health.front_right.finite() && health.rear_left.finite()
            && health.rear_right.finite() && temperature.front_left.finite()
            && temperature.front_right.finite() && temperature.rear_left.finite()
            && temperature.rear_right.finite() && slip.front_left.finite()
            && slip.front_right.finite() && slip.rear_left.finite() && slip.rear_right.finite(),
        health.all_finite() && temperature.all_finite() && slip.all_finite() ==> (has_tyre_signal(
            health,
            temperature,
            slip,
        ) <==> !(health.front_left.zero() && health.front_right.zero() && health.rear_left.zero()
            && health.rear_right.zero() && temperature.front_left.zero()
            && temperature.front_right.zero() && temperature.rear_left.zero()
            && temperature.rear_right.zero())),
        health.all_finite() <==> health.front_left.finite() && health.front_right.finite()
            && health.rear_left.finite() && health.rear_right.finite(),
{
}

/// Tyres are shown as what they are, and always as some kind.
pub proof fn tyres_are_shown_as_they_are(tyre: TyreType)
    ensures
        shown_tyre(tyre) is Hard <==> tyre is Hard,
        shown_tyre(tyre) is Soft <==> tyre is Soft,
        shown_tyre(tyre) is Wet <==> tyre is Wet,
        shown_tyre(tyre) !is Unspecified,
{
}

} // verus!
