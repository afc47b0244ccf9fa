//! The store of the cars that take part in a session: who drives them, where
//! they are registered in the engine, and their pit state.

use std::collections::VecDeque;
use dashmap::DashMap;
use vstd::prelude::*;
use crate::engine::{opt_target, opt_text, EngineCommandTarget, TargetView};
use crate::float_bits::{F32Bits, HALF_BITS, ZERO_BITS};
use crate::text;

verus! {

pub const PIT_HISTORY_MAX_ENTRIES: usize = 32;

pub const EMERGENCY_PIT_LOCK_MS: u64 = 30_000;

pub const TELEPORT_IDLE_WINDOW_MS: u64 = 500;

/// Who a car belongs to.
#[derive(Debug)]
pub struct RuntimeCarIdentity {
    pub subject: Option<String>,
    pub team_id: Option<String>,
    pub instance_uuid: Option<String>,
    pub local_bot_index: Option<u32>,
    pub local_race_display_name: Option<String>,
    pub local_race_participant_index: Option<u32>,
    pub official_race_start_position_index: Option<u64>,
}

/// Who a car belongs to, by the characters of the names.
pub struct IdentityView {
    pub subject: Option<Seq<char>>,
    pub team_id: Option<Seq<char>>,
    pub instance_uuid: Option<Seq<char>>,
    pub local_bot_index: Option<u32>,
    pub local_race_display_name: Option<Seq<char>>,
    pub local_race_participant_index: Option<u32>,
    pub official_race_start_position_index: Option<u64>,
}

/// The identity of a car of which nothing is known.
pub open spec fn no_identity() -> IdentityView {
    IdentityView {
        subject: None,
        team_id: None,
        instance_uuid: None,
        local_bot_index: None,
        local_race_display_name: None,
        local_race_participant_index: None,
        official_race_start_position_index: None,
    }
}

impl View for RuntimeCarIdentity {
    type V = IdentityView;

    open spec fn view(&self) -> IdentityView {
        IdentityView {
            subject: opt_text(self.subject),
            team_id: opt_text(self.team_id),
            instance_uuid: opt_text(self.instance_uuid),
            local_bot_index: self.local_bot_index,
            local_race_display_name: opt_text(self.local_race_display_name),
            local_race_participant_index: self.local_race_participant_index,
            official_race_start_position_index: self.official_race_start_position_index,
        }
    }
}

fn clone_text(o: &Option<String>) -> (r: Option<String>)
    ensures
        r == *o,
{
    match o {
        Some(s) => Some(s.clone()),
        None => None,
    }
}

impl Clone for RuntimeCarIdentity {
    fn clone(&self) -> (r: Self)
        ensures
            r == *self,
    {
        RuntimeCarIdentity {
            subject: clone_text(&self.subject),
            team_id: clone_text(&self.team_id),
            instance_uuid: clone_text(&self.instance_uuid),
            local_bot_index: self.local_bot_index,
            local_race_display_name: clone_text(&self.local_race_display_name),
            local_race_participant_index: self.local_race_participant_index,
            official_race_start_position_index: self.official_race_start_position_index,
        }
    }
}

impl Default for RuntimeCarIdentity {
    fn default() -> (r: Self)
        ensures
            r@ == no_identity(),
    {
        RuntimeCarIdentity {
            subject: None,
            team_id: None,
            instance_uuid: None,
            local_bot_index: None,
            local_race_display_name: None,
            local_race_participant_index: None,
            official_race_start_position_index: None,
        }
    }
}

#[derive(Clone, Copy, PartialEq, Eq, Debug, Structural)]
pub enum RuntimePitTireType {
    Unspecified,
    Hard,
    Soft,
    Wet,
}

/// Why a car went into the pit.
#[derive(Clone, Copy, PartialEq, Eq, Debug, Structural)]
pub enum RuntimePitEntrySource {
    BotDecision,
    Requested,
    Emergency,
}

/// One completed pit stop.
#[derive(Clone, Copy, PartialEq, Eq, Debug, Structural)]
pub struct RuntimePitHistoryEntry {
    pub pit_time_ms: u64,
    pub lap: u32,
    pub source: RuntimePitEntrySource,
    pub new_tire_type: RuntimePitTireType,
}

/// A car's pit state at a moment.
#[derive(Debug)]
pub struct RuntimePitStateSnapshot {
    pub pit_request_active: bool,
    pub emergency_lock_remaining_ms: u32,
    pub force_idle: bool,
    pub last_pit_time_ms: u64,
    pub last_pit_source: RuntimePitEntrySource,
    pub last_pit_lap: u32,
    pub next_pit_tire_type: RuntimePitTireType,
    pub history: Vec<RuntimePitHistoryEntry>,
}

/// A car's pit state at a moment, with the history as a sequence, newest first.
pub struct PitSnapshotView {
    pub pit_request_active: bool,
    pub emergency_lock_remaining_ms: u32,
    pub force_idle: bool,
    pub last_pit_time_ms: u64,
    pub last_pit_source: RuntimePitEntrySource,
    pub last_pit_lap: u32,
    pub next_pit_tire_type: RuntimePitTireType,
    pub history: Seq<RuntimePitHistoryEntry>,
}

impl View for RuntimePitStateSnapshot {
    type V = PitSnapshotView;

    open spec fn view(&self) -> PitSnapshotView {
        PitSnapshotView {
            pit_request_active: self.pit_request_active,
            emergency_lock_remaining_ms: self.emergency_lock_remaining_ms,
            force_idle: self.force_idle,
            last_pit_time_ms: self.last_pit_time_ms,
            last_pit_source: self.last_pit_source,
            last_pit_lap: self.last_pit_lap,
            next_pit_tire_type: self.next_pit_tire_type,
            history: self.history@,
        }
    }
}

/// What a driver put in last: the bit patterns of the inputs.
#[derive(Clone, Copy, PartialEq, Eq, Debug, Structural)]
pub struct RuntimeControlInputSnapshot {
    pub input_throttle: F32Bits,
    pub input_brake: F32Bits,
    pub current_brake_balancer: F32Bits,
    pub current_differential_lock: F32Bits,
}

/// Inputs of a driver that has sent none: the brake balancer in the middle, the
/// rest at zero.
pub open spec fn default_controls() -> RuntimeControlInputSnapshot {
    RuntimeControlInputSnapshot {
        input_throttle: F32Bits { bits: ZERO_BITS },
        input_brake: F32Bits { bits: ZERO_BITS },
        current_brake_balancer: F32Bits { bits: HALF_BITS },
        current_differential_lock: F32Bits { bits: ZERO_BITS },
    }
}

impl Default for RuntimeControlInputSnapshot {
    fn default() -> (r: Self)
        ensures
            r == default_controls(),
    {
        RuntimeControlInputSnapshot {
            input_throttle: F32Bits { bits: ZERO_BITS },
            input_brake: F32Bits { bits: ZERO_BITS },
            current_brake_balancer: F32Bits { bits: HALF_BITS },
            current_differential_lock: F32Bits { bits: ZERO_BITS },
        }
    }
}

/// A car's pit state between two moments.
#[derive(Debug)]
pub struct RuntimePitState {
    pub pit_request_active: bool,
    pub emergency_lock_until_ms: u64,
    pub force_idle_until_ms: u64,
    pub last_pit_time_ms: u64,
    pub last_pit_source: RuntimePitEntrySource,
    pub last_pit_lap: u32,
    pub next_pit_tire_type: RuntimePitTireType,
    pub history: VecDeque<RuntimePitHistoryEntry>,
    pub was_fix_stationary_full_pit: bool,
    pub emergency_intent_pending: bool,
}

/// A car's pit state, with the history as a sequence, newest first.
pub struct PitView {
    pub pit_request_active: bool,
    pub emergency_lock_until_ms: u64,
    pub force_idle_until_ms: u64,
    pub last_pit_time_ms: u64,
    pub last_pit_source: RuntimePitEntrySource,
    pub last_pit_lap: u32,
    pub next_pit_tire_type: RuntimePitTireType,
    pub history: Seq<RuntimePitHistoryEntry>,
    pub was_fix_stationary_full_pit: bool,
    pub emergency_intent_pending: bool,
}

impl View for RuntimePitState {
    type V = PitView;

    open spec fn view(&self) -> PitView {
        PitView {
            pit_request_active: self.pit_request_active,
            emergency_lock_until_ms: self.emergency_lock_until_ms,
            force_idle_until_ms: self.force_idle_until_ms,
            last_pit_time_ms: self.last_pit_time_ms,
            last_pit_source: self.last_pit_source,
            last_pit_lap: self.last_pit_lap,
            next_pit_tire_type: self.next_pit_tire_type,
            history: self.history@,
            was_fix_stationary_full_pit: self.was_fix_stationary_full_pit,
            emergency_intent_pending: self.emergency_intent_pending,
        }
    }
}

/// The pit state of a car that has not been in the pit.
pub open spec fn fresh_pit() -> PitView {
    PitView {
        pit_request_active: false,
        emergency_lock_until_ms: 0,
        force_idle_until_ms: 0,
        last_pit_time_ms: 0,
        last_pit_source: RuntimePitEntrySource::BotDecision,
        last_pit_lap: 0,
        next_pit_tire_type: RuntimePitTireType::Unspecified,
        history: Seq::empty(),
        was_fix_stationary_full_pit: false,
        emergency_intent_pending: false,
    }
}

/// What is left of the emergency lock at `now_ms`, cut to 32 bits.
pub open spec fn lock_remaining(until_ms: u64, now_ms: u64) -> u32 {
    if until_ms <= now_ms {
        0
    } else if until_ms - now_ms > u32::MAX {
        u32::MAX
    } else {
        (until_ms - now_ms) as u32
    }
}

/// The pit state as seen at `now_ms`.
pub open spec fn pit_snapshot(p: PitView, now_ms: u64) -> PitSnapshotView {
    PitSnapshotView {
        pit_request_active: p.pit_request_active,
        emergency_lock_remaining_ms: lock_remaining(p.emergency_lock_until_ms, now_ms),
        force_idle: p.force_idle_until_ms > now_ms || p.emergency_lock_until_ms > now_ms,
        last_pit_time_ms: p.last_pit_time_ms,
        last_pit_source: p.last_pit_source,
        last_pit_lap: p.last_pit_lap,
        next_pit_tire_type: p.next_pit_tire_type,
        history: p.history,
    }
}

/// A pit stop counts while the car stands in the repair zone on all four wheels.
pub open spec fn standing_in_fix_zone(reading: VehiclePitReading) -> bool {
    reading.in_fix_zone && reading.wheels_in_pitstop == 4 && reading.speed.zero()
}

/// The reason on record for the stop that a car makes now.
pub open spec fn stop_source(p: PitView) -> RuntimePitEntrySource {
    if p.emergency_intent_pending {
        RuntimePitEntrySource::Emergency
    } else if p.pit_request_active {
        RuntimePitEntrySource::Requested
    } else {
        RuntimePitEntrySource::BotDecision
    }
}

/// The stop that a car makes now.
pub open spec fn stop_entry(p: PitView, completed_laps: Option<u32>, now_ms: u64) -> RuntimePitHistoryEntry {
    RuntimePitHistoryEntry {
        pit_time_ms: now_ms,
        lap: match completed_laps {
            Some(laps) => laps,
            None => 0,
        },
        source: stop_source(p),
        new_tire_type: p.next_pit_tire_type,
    }
}

/// The newest stops, at most as many as are kept.
pub open spec fn kept_history(history: Seq<RuntimePitHistoryEntry>) -> Seq<RuntimePitHistoryEntry> {
    if history.len() > PIT_HISTORY_MAX_ENTRIES {
        history.subrange(0, PIT_HISTORY_MAX_ENTRIES as int)
    } else {
        history
    }
}

/// The pit state after a reading: a stop is recorded when the car comes to stand
/// in the repair zone, once until it moves again.
pub open spec fn pit_after_reading(
    p: PitView,
    reading: VehiclePitReading,
    completed_laps: Option<u32>,
    now_ms: u64,
) -> PitView {
    let standing = standing_in_fix_zone(reading);
    if standing && !p.was_fix_stationary_full_pit {
        let entry = stop_entry(p, completed_laps, now_ms);
        PitView {
            history: kept_history(seq![entry] + p.history),
            last_pit_time_ms: now_ms,
            last_pit_source: entry.source,
            last_pit_lap: entry.lap,
            emergency_intent_pending: false,
            pit_request_active: false,
            was_fix_stationary_full_pit: true,
            ..p
        }
    } else {
        PitView { was_fix_stationary_full_pit: standing, ..p }
    }
}

/// What the engine reports of a car in or near the pit.
#[derive(Clone, Copy, Debug)]
pub struct VehiclePitReading {
    pub in_fix_zone: bool,
    pub wheels_in_pitstop: u32,
    pub speed: F32Bits,
}

fn copy_history(history: &VecDeque<RuntimePitHistoryEntry>) -> (r: VecDeque<
    RuntimePitHistoryEntry,
>)
    ensures
        r@ == history@,
{
    let mut r: VecDeque<RuntimePitHistoryEntry> = VecDeque::new();
    let mut i: usize = 0;
    while i < history.len()
        invariant
            i <= history@.len(),
            r@ =~= history@.subrange(0, i as int),
        decreases history@.len() - i,
    {
        r.push_back(history[i]);
        i += 1;
    }
    r
}

fn list_history(history: &VecDeque<RuntimePitHistoryEntry>) -> (r: Vec<RuntimePitHistoryEntry>)
    ensures
        r@ == history@,
{
    let mut r: Vec<RuntimePitHistoryEntry> = Vec::new();
    let mut i: usize = 0;
    while i < history.len()
        invariant
            i <= history@.len(),
            r@ =~= history@.subrange(0, i as int),
        decreases history@.len() - i,
    {
        r.push(history[i]);
        i += 1;
    }
    r
}

impl Default for RuntimePitState {
    fn default() -> (r: Self)
        ensures
            r@ == fresh_pit(),
    {
        RuntimePitState {
            pit_request_active: false,
            emergency_lock_until_ms: 0,
            force_idle_until_ms: 0,
            last_pit_time_ms: 0,
            last_pit_source: RuntimePitEntrySource::BotDecision,
            last_pit_lap: 0,
            next_pit_tire_type: RuntimePitTireType::Unspecified,
            history: VecDeque::new(),
            was_fix_stationary_full_pit: false,
            emergency_intent_pending: false,
        }
    }
}

impl Clone for RuntimePitState {
    fn clone(&self) -> (r: Self)
        ensures
            r@ == self@,
    {
        RuntimePitState {
            pit_request_active: self.pit_request_active,
            emergency_lock_until_ms: self.emergency_lock_until_ms,
            force_idle_until_ms: self.force_idle_until_ms,
            last_pit_time_ms: self.last_pit_time_ms,
            last_pit_source: self.last_pit_source,
            last_pit_lap: self.last_pit_lap,
            next_pit_tire_type: self.next_pit_tire_type,
            history: copy_history(&self.history),
            was_fix_stationary_full_pit: self.was_fix_stationary_full_pit,
            emergency_intent_pending: self.emergency_intent_pending,
        }
    }
}

impl RuntimePitState {
    /// The pit state as seen at `now_ms`.
    pub fn snapshot(&self, now_ms: u64) -> (r: RuntimePitStateSnapshot)
        ensures
            r@ == pit_snapshot(self@, now_ms),
    {
        let emergency_lock_remaining_ms: u32 = if self.emergency_lock_until_ms > now_ms {
            let remaining: u64 = self.emergency_lock_until_ms - now_ms;
            if remaining > u32::MAX as u64 {
                u32::MAX
            } else {
                remaining as u32
            }
        } else {
            0
        };
        RuntimePitStateSnapshot {
            pit_request_active: self.pit_request_active,
            emergency_lock_remaining_ms,
            force_idle: self.force_idle_until_ms > now_ms || emergency_lock_remaining_ms > 0,
            last_pit_time_ms: self.last_pit_time_ms,
            last_pit_source: self.last_pit_source,
            last_pit_lap: self.last_pit_lap,
            next_pit_tire_type: self.next_pit_tire_type,
            history: list_history(&self.history),
        }
    }

    fn apply_reading(
        &mut self,
        reading: VehiclePitReading,
        completed_laps: Option<u32>,
        now_ms: u64,
    )
        ensures
            final(self)@ == pit_after_reading(old(self)@, reading, completed_laps, now_ms),
    {
        let standing: bool = reading.in_fix_zone && reading.wheels_in_pitstop == 4
            && reading.speed.is_zero();
        if standing && !self.was_fix_stationary_full_pit {
            let source: RuntimePitEntrySource = if self.emergency_intent_pending {
                RuntimePitEntrySource::Emergency
            } else if self.pit_request_active {
                RuntimePitEntrySource::Requested
            } else {
                RuntimePitEntrySource::BotDecision
            };
            let lap: u32 = match completed_laps {
                Some(laps) => laps,
                None => 0,
            };
            let entry = RuntimePitHistoryEntry {
                pit_time_ms: now_ms,
                lap,
                source,
                new_tire_type: self.next_pit_tire_type,
            };
            self.history.push_front(entry);
            self.history.truncate(PIT_HISTORY_MAX_ENTRIES);
            proof {
                assert(self.history@ =~= kept_history(seq![entry] + old(self)@.history));
            }
            self.last_pit_time_ms = now_ms;
            self.last_pit_source = source;
            self.last_pit_lap = lap;
            self.emergency_intent_pending = false;
            self.pit_request_active = false;
        }
        self.was_fix_stationary_full_pit = standing;
    }
}

/// All that is held of one car.
#[derive(Debug)]
pub struct CarRecord {
    pub known: bool,
    pub last_client_seq: Option<u64>,
    pub owner: Option<String>,
    pub engine_car_id: Option<u64>,
    pub target: Option<EngineCommandTarget>,
    pub identity: Option<RuntimeCarIdentity>,
    pub pit_state: Option<RuntimePitState>,
    pub controls_input: Option<RuntimeControlInputSnapshot>,
}

/// All that is held of one car, by views.
pub struct CarRecordView {
    pub known: bool,
    pub last_client_seq: Option<u64>,
    pub owner: Option<Seq<char>>,
    pub engine_car_id: Option<u64>,
    pub target: Option<TargetView>,
    pub identity: Option<IdentityView>,
    pub pit_state: Option<PitView>,
    pub controls_input: Option<RuntimeControlInputSnapshot>,
}

pub open spec fn opt_identity(o: Option<RuntimeCarIdentity>) -> Option<IdentityView> {
    match o {
        Some(i) => Some(i@),
        None => None,
    }
}

pub open spec fn opt_pit(o: Option<RuntimePitState>) -> Option<PitView> {
    match o {
        Some(p) => Some(p@),
        None => None,
    }
}

impl View for CarRecord {
    type V = CarRecordView;

    open spec fn view(&self) -> CarRecordView {
        CarRecordView {
            known: self.known,
            last_client_seq: self.last_client_seq,
            owner: opt_text(self.owner),
            engine_car_id: self.engine_car_id,
            target: opt_target(self.target),
            identity: opt_identity(self.identity),
            pit_state: opt_pit(self.pit_state),
            controls_input: self.controls_input,
        }
    }
}

/// The record of a car of which nothing is held.
pub open spec fn no_record() -> CarRecordView {
    CarRecordView {
        known: false,
        last_client_seq: None,
        owner: None,
        engine_car_id: None,
        target: None,
        identity: None,
        pit_state: None,
        controls_input: None,
    }
}

impl Clone for CarRecord {
    fn clone(&self) -> (r: Self)
        ensures
            r@ == self@,
    {
        CarRecord {
            known: self.known,
            last_client_seq: self.last_client_seq,
            owner: clone_text(&self.owner),
            engine_car_id: self.engine_car_id,
            target: match &self.target {
                Some(t) => Some(t.clone()),
                None => None,
            },
            identity: match &self.identity {
                Some(i) => Some(i.clone()),
                None => None,
            },
            pit_state: match &self.pit_state {
                Some(p) => Some(p.clone()),
                None => None,
            },
            controls_input: self.controls_input,
        }
    }
}

impl Default for CarRecord {
    fn default() -> (r: Self)
        ensures
            r@ == no_record(),
    {
        CarRecord {
            known: false,
            last_client_seq: None,
            owner: None,
            engine_car_id: None,
            target: None,
            identity: None,
            pit_state: None,
            controls_input: None,
        }
    }
}

/// `dashmap::DashMap`, a sharded hash map.
#[verifier::external_type_specification]
#[verifier::external_body]
#[verifier::reject_recursive_types(K)]
#[verifier::reject_recursive_types(V)]
#[verifier::reject_recursive_types(S)]
pub struct ExDashMap<K, V, S>(DashMap<K, V, S>);

/// What a map of car records holds: the view of each record by car id.
pub uninterp spec fn car_records(m: DashMap<u64, CarRecord>) -> Map<u64, CarRecordView>;

/// What a map from instance ids to cars holds, by the characters of the ids.
pub uninterp spec fn instance_entries(m: DashMap<String, u64>) -> Map<Seq<char>, u64>;

/// What a map of next bot indices holds, by the characters of sandbox and user.
pub uninterp spec fn bot_index_entries(m: DashMap<(String, String), u32>) -> Map<
    (Seq<char>, Seq<char>),
    u32,
>;

/// `DashMap::new` makes an empty map.
#[verifier::external_body]
fn new_cars() -> (m: DashMap<u64, CarRecord>)
    ensures
        (car_records(m) == Map::<u64, CarRecordView>::empty()),
{
    DashMap::new()
}

/// `DashMap::insert` puts the record under the car's id, in place of what was there.
#[verifier::external_body]
fn insert_car(m: &mut DashMap<u64, CarRecord>, car_id: u64, record: CarRecord)
    ensures
        car_records(*final(m)) == car_records(*old(m)).insert(car_id, record@),
{
    m.insert(car_id, record);
}

/// `DashMap::remove` takes the record out and hands it over.
#[verifier::external_body]
fn remove_car_record(m: &mut DashMap<u64, CarRecord>, car_id: u64) -> (r: Option<CarRecord>)
    ensures
        car_records(*final(m)) == car_records(*old(m)).remove(car_id),
        r is Some <==> car_records(*old(m)).contains_key(car_id),
        r is Some ==> r->Some_0@ == car_records(*old(m))[car_id],
{
    m.remove(&car_id).map(|entry| entry.1)
}

/// `DashMap::get` finds the record under the car's id; what is returned is a copy.
#[verifier::external_body]
fn get_car(m: &DashMap<u64, CarRecord>, car_id: u64) -> (r: Option<CarRecord>)
    ensures
        r is Some <==> car_records(*m).contains_key(car_id),
        r is Some ==> r->Some_0@ == car_records(*m)[car_id],
{
    m.get(&car_id).map(|entry| entry.value().clone())
}

/// `DashMap::iter` visits each entry once, in no order that is promised; what is
/// returned are the keys.
#[verifier::external_body]
fn car_keys(m: &DashMap<u64, CarRecord>) -> (r: Vec<u64>)
    ensures
        r@.no_duplicates(),
        forall|k: u64| #[trigger] r@.contains(k) <==> car_records(*m).contains_key(k),
{
    m.iter().map(|entry| *entry.key()).collect()
}

/// `DashMap::new` makes an empty map.
#[verifier::external_body]
fn new_instances() -> (m: DashMap<String, u64>)
    ensures
        (instance_entries(m) == Map::<Seq<char>, u64>::empty()),
{
    DashMap::new()
}

/// `DashMap::insert` puts the car under the instance id, in place of what was there.
#[verifier::external_body]
fn insert_instance(m: &mut DashMap<String, u64>, instance_uuid: String, car_id: u64)
    ensures
        instance_entries(*final(m)) == instance_entries(*old(m)).insert(instance_uuid@, car_id),
{
    m.insert(instance_uuid, car_id);
}

/// `DashMap::remove` takes the entry out.
#[verifier::external_body]
fn remove_instance(m: &mut DashMap<String, u64>, instance_uuid: &str)
    ensures
        instance_entries(*final(m)) == instance_entries(*old(m)).remove(instance_uuid@),
{
    m.remove(instance_uuid);
}

/// `DashMap::get` finds the car under the instance id.
#[verifier::external_body]
fn get_instance(m: &DashMap<String, u64>, instance_uuid: &str) -> (r: Option<u64>)
    ensures
        r is Some <==> instance_entries(*m).contains_key(instance_uuid@),
        r is Some ==> r->Some_0 == instance_entries(*m)[instance_uuid@],
{
    m.get(instance_uuid).map(|entry| *entry.value())
}

/// `DashMap::iter` visits each entry once, in no order that is promised; what is
/// returned are the keys.
#[verifier::external_body]
fn instance_keys(m: &DashMap<String, u64>) -> (r: Vec<String>)
    ensures
        forall|k: Seq<char>| #[trigger]
            text::text_views(r@).contains(k) <==> instance_entries(*m).contains_key(k),
{
    m.iter().map(|entry| entry.key().clone()).collect()
}

/// `DashMap::new` makes an empty map.
#[verifier::external_body]
fn new_bot_indices() -> (m: DashMap<(String, String), u32>)
    ensures
        (bot_index_entries(m) == Map::<(Seq<char>, Seq<char>), u32>::empty()),
{
    DashMap::new()
}

/// `DashMap::insert` puts the index under the pair, in place of what was there.
#[verifier::external_body]
fn insert_bot_index(
    m: &mut DashMap<(String, String), u32>,
    sandbox_id: String,
    user_id: String,
    index: u32,
)
    ensures
        bot_index_entries(*final(m)) == bot_index_entries(*old(m)).insert(
            (sandbox_id@, user_id@),
            index,
        ),
{
    m.insert((sandbox_id, user_id), index);
}

/// `DashMap::get` finds the index under the pair.
#[verifier::external_body]
fn get_bot_index(
    m: &DashMap<(String, String), u32>,
    sandbox_id: String,
    user_id: String,
) -> (r: Option<u32>)
    ensures
        r is Some <==> bot_index_entries(*m).contains_key((sandbox_id@, user_id@)),
        r is Some ==> r->Some_0 == bot_index_entries(*m)[(sandbox_id@, user_id@)],
{
    m.get(&(sandbox_id, user_id)).map(|entry| *entry.value())
}

/// The cars of all sessions.
pub struct RaceRuntimeStore {
    next_public_car_id: u64,
    cars: DashMap<u64, CarRecord>,
    instance_cars: DashMap<String, u64>,
    local_bot_next_index: DashMap<(String, String), u32>,
}

/// The cars of all sessions, as mathematical maps.
pub struct StoreView {
    pub next_public_car_id: u64,
    pub cars: Map<u64, CarRecordView>,
    pub instance_cars: Map<Seq<char>, u64>,
    pub local_bot_next_index: Map<(Seq<char>, Seq<char>), u32>,
}

impl StoreView {
    /// What is held of the car.
    pub open spec fn record(self, car_id: u64) -> CarRecordView {
        if self.cars.contains_key(car_id) {
            self.cars[car_id]
        } else {
            no_record()
        }
    }

    /// The store with another record for the car.
    pub open spec fn with_record(self, car_id: u64, record: CarRecordView) -> StoreView {
        StoreView { cars: self.cars.insert(car_id, record), ..self }
    }

    /// The car's pit state, fresh where none is held.
    pub open spec fn pit(self, car_id: u64) -> PitView {
        match self.record(car_id).pit_state {
            Some(p) => p,
            None => fresh_pit(),
        }
    }

    /// The store with another pit state for the car.
    pub open spec fn with_pit(self, car_id: u64, pit: PitView) -> StoreView {
        self.with_record(
            car_id,
            CarRecordView { pit_state: Some(pit), ..self.record(car_id) },
        )
    }

    /// The index that the user's next bot in the sandbox gets.
    pub open spec fn next_bot_index(self, sandbox_id: Seq<char>, user_id: Seq<char>) -> u32 {
        if self.local_bot_next_index.contains_key((sandbox_id, user_id)) {
            self.local_bot_next_index[(sandbox_id, user_id)]
        } else {
            1
        }
    }

    /// The store without the car. Its owner's instance loses the car too, unless
    /// it has moved on to another.
    pub open spec fn without_car(self, car_id: u64) -> StoreView {
        let owner = self.record(car_id).owner;
        StoreView {
            cars: self.cars.remove(car_id),
            instance_cars: match owner {
                Some(uuid) => if self.instance_cars.contains_key(uuid) && self.instance_cars[uuid]
                    == car_id {
                    self.instance_cars.remove(uuid)
                } else {
                    self.instance_cars
                },
                None => self.instance_cars,
            },
            ..self
        }
    }

    /// The store after the car was given up as a car that drives: it is not known,
    /// owned or registered any more, while its identity, its pit state and its
    /// controls stay.
    pub open spec fn without_driving(self, car_id: u64) -> StoreView {
        if self.cars.contains_key(car_id) {
            StoreView {
                cars: self.cars.insert(
                    car_id,
                    CarRecordView {
                        known: false,
                        last_client_seq: None,
                        owner: None,
                        engine_car_id: None,
                        target: None,
                        ..self.cars[car_id]
                    },
                ),
                ..self.without_car(car_id)
            }
        } else {
            self
        }
    }

    /// The store after the car was forgotten by the clients: it is not known any
    /// more, and no instance has it.
    pub open spec fn without_client(self, car_id: u64) -> StoreView {
        StoreView {
            instance_cars: Map::new(
                |u: Seq<char>| self.instance_cars.contains_key(u) && self.instance_cars[u] != car_id,
                |u: Seq<char>| self.instance_cars[u],
            ),
            ..self.with_record(
                car_id,
                CarRecordView { known: false, last_client_seq: None, ..self.record(car_id) },
            )
        }
    }

    /// No car's pit history is longer than what is kept.
    pub open spec fn histories_are_bounded(self) -> bool {
        forall|c: u64| (#[trigger] self.pit(c)).history.len() <= PIT_HISTORY_MAX_ENTRIES
    }
}

impl View for RaceRuntimeStore {
    type V = StoreView;

    closed spec fn view(&self) -> StoreView {
        StoreView {
            next_public_car_id: self.next_public_car_id,
            cars: car_records(self.cars),
            instance_cars: instance_entries(self.instance_cars),
            local_bot_next_index: bot_index_entries(self.local_bot_next_index),
        }
    }
}

/// The larger of two times.
pub open spec fn later(a: u64, b: u64) -> u64 {
    if a >= b {
        a
    } else {
        b
    }
}

/// `a + b`, held at the largest value.
pub open spec fn capped_sum(a: u64, b: u64) -> u64 {
    if a + b > u64::MAX {
        u64::MAX
    } else {
        (a + b) as u64
    }
}

impl RaceRuntimeStore {
    pub fn new() -> (r: Self)
        ensures
            r@ == (StoreView {
                next_public_car_id: 1,
                cars: Map::empty(),
                instance_cars: Map::empty(),
                local_bot_next_index: Map::empty(),
            }),
            r@.histories_are_bounded(),
    {
        RaceRuntimeStore {
            next_public_car_id: 1,
            cars: new_cars(),
            instance_cars: new_instances(),
            local_bot_next_index: new_bot_indices(),
        }
    }

    /// The next car id; the counter wraps round after the largest one.
    pub fn allocate_public_car_id(&mut self) -> (id: u64)
        ensures
            id == old(self)@.next_public_car_id,
            final(self)@ == with_next_id(old(self)@),
    {
        let id: u64 = self.next_public_car_id;
        self.next_public_car_id = if id == u64::MAX {
            0
        } else {
            id + 1
        };
        id
    }

    /// The index of the user's next bot in the sandbox, counted from 1.
    pub fn allocate_local_bot_index(&mut self, sandbox_id: &str, user_id: &str) -> (index: u32)
        ensures
            index == old(self)@.next_bot_index(sandbox_id@, user_id@),
            final(self)@ == (StoreView {
                local_bot_next_index: old(self)@.local_bot_next_index.insert(
                    (sandbox_id@, user_id@),
                    if index == u32::MAX {
                        u32::MAX
                    } else {
                        (index + 1) as u32
                    },
                ),
                ..old(self)@
            }),
    {
        let found: Option<u32> = get_bot_index(
            &self.local_bot_next_index,
            sandbox_id.to_owned(),
            user_id.to_owned(),
        );
        let index: u32 = match found {
            Some(i) => i,
            None => 1,
        };
        insert_bot_index(
            &mut self.local_bot_next_index,
            sandbox_id.to_owned(),
            user_id.to_owned(),
            index.saturating_add(1),
        );
        index
    }

    fn take_record(&mut self, car_id: u64) -> (r: CarRecord)
        ensures
            r@ == old(self)@.record(car_id),
            final(self)@ == (StoreView { cars: old(self)@.cars.remove(car_id), ..old(self)@ }),
    {
        match remove_car_record(&mut self.cars, car_id) {
            Some(record) => record,
            None => CarRecord::default(),
        }
    }

    fn put_record(&mut self, car_id: u64, record: CarRecord)
        ensures
            final(self)@ == (StoreView {
                cars: old(self)@.cars.insert(car_id, record@),
                ..old(self)@
            }),
    {
        insert_car(&mut self.cars, car_id, record);
    }

    fn read_record(&self, car_id: u64) -> (r: CarRecord)
        ensures
            r@ == self@.record(car_id),
    {
        match get_car(&self.cars, car_id) {
            Some(record) => record,
            None => CarRecord::default(),
        }
    }

    pub fn set_car_identity(&mut self, car_id: u64, identity: RuntimeCarIdentity)
        ensures
            final(self)@ == old(self)@.with_record(
                car_id,
                CarRecordView { identity: Some(identity@), ..old(self)@.record(car_id) },
            ),
    {
        let mut record: CarRecord = self.take_record(car_id);
        record.identity = Some(identity);
        self.put_record(car_id, record);
        proof {
            assert(self@.cars =~= old(self)@.with_record(
                car_id,
                CarRecordView { identity: Some(identity@), ..old(self)@.record(car_id) },
            ).cars);
        }
    }

    pub fn car_identity(&self, car_id: u64) -> (r: Option<RuntimeCarIdentity>)
        ensures
            opt_identity(r) == self@.record(car_id).identity,
    {
        self.read_record(car_id).identity
    }

    /// Registers the car with the session and the engine car that it is there.
    pub fn set_car_target(&mut self, car_id: u64, target: EngineCommandTarget)
        ensures
            final(self)@ == old(self)@.with_record(
                car_id,
                CarRecordView { target: Some(target@), ..old(self)@.record(car_id) },
            ),
    {
        let mut record: CarRecord = self.take_record(car_id);
        record.target = Some(target);
        self.put_record(car_id, record);
        proof {
            assert(self@.cars =~= old(self)@.with_record(
                car_id,
                CarRecordView { target: Some(target@), ..old(self)@.record(car_id) },
            ).cars);
        }
    }

    pub fn car_target(&self, car_id: u64) -> (r: Option<EngineCommandTarget>)
        ensures
            opt_target(r) == self@.record(car_id).target,
    {
        self.read_record(car_id).target
    }

    pub fn set_car_engine_id(&mut self, car_id: u64, engine_car_id: u64)
        ensures
            final(self)@ == old(self)@.with_record(
                car_id,
                CarRecordView { engine_car_id: Some(engine_car_id), ..old(self)@.record(car_id) },
            ),
    {
        let mut record: CarRecord = self.take_record(car_id);
        record.engine_car_id = Some(engine_car_id);
        self.put_record(car_id, record);
        proof {
            assert(self@.cars =~= old(self)@.with_record(
                car_id,
                CarRecordView { engine_car_id: Some(engine_car_id), ..old(self)@.record(car_id) },
            ).cars);
        }
    }

    pub fn car_engine_id(&self, car_id: u64) -> (r: Option<u64>)
        ensures
            r == self@.record(car_id).engine_car_id,
    {
        self.read_record(car_id).engine_car_id
    }

    pub fn set_last_client_seq(&mut self, car_id: u64, client_seq: u64)
        ensures
            final(self)@ == old(self)@.with_record(
                car_id,
                CarRecordView { last_client_seq: Some(client_seq), ..old(self)@.record(car_id) },
            ),
    {
        let mut record: CarRecord = self.take_record(car_id);
        record.last_client_seq = Some(client_seq);
        self.put_record(car_id, record);
        proof {
            assert(self@.cars =~= old(self)@.with_record(
                car_id,
                CarRecordView { last_client_seq: Some(client_seq), ..old(self)@.record(car_id) },
            ).cars);
        }
    }

    /// The number of the last message that the car's driver sent, 0 before the first.
    pub fn car_last_client_seq(&self, car_id: u64) -> (r: u64)
        ensures
            r == match self@.record(car_id).last_client_seq {
                Some(seq) => seq,
                None => 0,
            },
    {
        match self.read_record(car_id).last_client_seq {
            Some(seq) => seq,
            None => 0,
        }
    }

    pub fn mark_known_car(&mut self, car_id: u64)
        ensures
            final(self)@ == old(self)@.with_record(
                car_id,
                CarRecordView { known: true, ..old(self)@.record(car_id) },
            ),
    {
        let mut record: CarRecord = self.take_record(car_id);
        record.known = true;
        self.put_record(car_id, record);
        proof {
            assert(self@.cars =~= old(self)@.with_record(
                car_id,
                CarRecordView { known: true, ..old(self)@.record(car_id) },
            ).cars);
        }
    }

    /// Makes the instance the owner of the car.
    pub fn set_car_owner(&mut self, car_id: u64, instance_uuid: &str)
        ensures
            final(self)@ == (StoreView {
                instance_cars: old(self)@.instance_cars.insert(instance_uuid@, car_id),
                ..old(self)@.with_record(
                    car_id,
                    CarRecordView { owner: Some(instance_uuid@), ..old(self)@.record(car_id) },
                )
            }),
    {
        insert_instance(&mut self.instance_cars, instance_uuid.to_owned(), car_id);
        let mut record: CarRecord = self.take_record(car_id);
        record.owner = Some(instance_uuid.to_owned());
        self.put_record(car_id, record);
        proof {
            assert(self@.cars =~= old(self)@.cars.insert(
                car_id,
                CarRecordView { owner: Some(instance_uuid@), ..old(self)@.record(car_id) },
            ));
        }
    }

    /// The instance that owns the car.
    pub fn car_owner(&self, car_id: u64) -> (r: Option<String>)
        ensures
            opt_text(r) == self@.record(car_id).owner,
    {
        self.read_record(car_id).owner
    }

    /// The car that the instance drives.
    pub fn instance_car(&self, instance_uuid: &str) -> (r: Option<u64>)
        ensures
            match r {
                Some(car_id) => self@.instance_cars.contains_key(instance_uuid@) && car_id
                    == self@.instance_cars[instance_uuid@],
                None => !self@.instance_cars.contains_key(instance_uuid@),
            },
    {
        get_instance(&self.instance_cars, instance_uuid)
    }

    /// The known cars' ids, in ascending order.
    pub fn known_car_ids(&self) -> (r: Vec<u64>)
        ensures
            forall|i: int, j: int| 0 <= i < j < r@.len() ==> r@[i] < r@[j],
            forall|c: u64| #[trigger] r@.contains(c) <==> self@.record(c).known,
    {
        let keys: Vec<u64> = car_keys(&self.cars);
        let mut r: Vec<u64> = Vec::new();
        let mut i: usize = 0;
        while i < keys.len()
            invariant
                i <= keys@.len(),
                keys@.no_duplicates(),
                forall|k: u64| #[trigger] keys@.contains(k) <==> self@.cars.contains_key(k),
                forall|a: int, b: int| 0 <= a < b < r@.len() ==> r@[a] < r@[b],
                forall|c: u64| #[trigger]
                    r@.contains(c) <==> (self@.record(c).known && keys@.subrange(
                        0,
                        i as int,
                    ).contains(c)),
            decreases keys@.len() - i,
        {
            let key: u64 = keys[i];
            let ghost seen = keys@.subrange(0, i as int);
            let ghost seen_next = keys@.subrange(0, i + 1);
            let known: bool = self.read_record(key).known;
            proof {
                assert(seen_next =~= seen.push(key));
                assert(!seen.contains(key)) by {
                    if seen.contains(key) {
                        let a = choose|a: int| 0 <= a < seen.len() && seen[a] == key;
                        assert(keys@[a] == keys@[i as int]);
                    }
                }
                assert forall|c: u64| #[trigger] seen_next.contains(c) <==> (seen.contains(c) || c
                    == key) by {
                    if seen.contains(c) {
                        let a = choose|a: int| 0 <= a < seen.len() && seen[a] == c;
                        assert(seen_next[a] == c);
                    }
                    if c == key {
                        assert(seen_next[i as int] == c);
                    }
                }
                assert(!r@.contains(key));
            }
            if known {
                insert_ascending(&mut r, key);
            }
            i += 1;
        }
        proof {
            assert(keys@.subrange(0, keys@.len() as int) =~= keys@);
            assert forall|c: u64| #[trigger] r@.contains(c) <==> self@.record(c).known by {
                if self@.record(c).known {
                    assert(self@.cars.contains_key(c));
                    assert(keys@.contains(c));
                }
            }
        }
        r
    }

    /// The ids of all cars of which anything is held, in no promised order.
    pub fn car_ids(&self) -> (r: Vec<u64>)
        ensures
            r@.no_duplicates(),
            forall|c: u64| #[trigger] r@.contains(c) <==> self@.cars.contains_key(c),
    {
        car_keys(&self.cars)
    }

    /// How many cars each sandbox has, for the sandboxes that have any. The
    /// sandboxes come in no promised order.
    pub fn active_car_counts_by_sandbox(&self) -> (r: Vec<SandboxCarCount>)
        ensures
            counts_match(r@, self@),
    {
        let ids: Vec<u64> = car_keys(&self.cars);
        let mut counts: Vec<SandboxCarCount> = Vec::new();
        let mut i: usize = 0;
        proof {
            assert(ids@.subrange(0, 0) =~= Seq::<u64>::empty());
        }
        while i < ids.len()
            invariant
                i <= ids@.len(),
                counts_match_ids(counts@, self@, ids@.subrange(0, i as int)),
            decreases ids@.len() - i,
        {
            let ghost seen = ids@.subrange(0, i as int);
            let ghost seen_next = ids@.subrange(0, i + 1);
            let ghost before = counts@;
            let target: Option<EngineCommandTarget> = self.car_target(ids[i]);
            proof {
                assert(seen_next.drop_last() =~= seen);
                assert(seen_next.last() == ids@[i as int]);
            }
            match target {
                Some(EngineCommandTarget::Sandbox { sandbox_id }) => {
                    add_to_counts(&mut counts, sandbox_id.as_str());
                    proof {
                        lemma_counts_step(before, counts@, self@, seen_next, sandbox_id@);
                    }
                },
                _ => {
                    proof {
                        lemma_counts_skip(before, self@, seen_next);
                    }
                },
            }
            i += 1;
        }
        proof {
            assert(ids@.subrange(0, ids@.len() as int) =~= ids@);
            assert forall|id: Seq<char>| #[trigger] count_in(ids@, self@, id) == cars_in_sandbox(
                self@,
                id,
            ).len() by {
                lemma_count_is_set_len(ids@, self@, id);
                assert(ids@.to_set() =~= self@.cars.dom());
                assert(cars_in_sandbox(self@, id) =~= ids@.to_set().filter(
                    |c: u64| self@.record(c).target == Some(TargetView::Sandbox { sandbox_id: id }),
                ));
            }
            assert forall|id: Seq<char>|
                (#[trigger] cars_in_sandbox(self@, id)).len() > 0 implies exists|i: int|
                0 <= i < counts@.len() && (#[trigger] counts@[i]).sandbox_id@ == id by {
                assert(count_in(ids@, self@, id) > 0);
            }
        }
        counts
    }

    /// Takes the car out of the store.
    pub fn remove_car(&mut self, car_id: u64)
        ensures
            final(self)@ == old(self)@.without_car(car_id),
    {
        let record: CarRecord = self.take_record(car_id);
        match record.owner {
            Some(owner) => {
                let current: Option<u64> = get_instance(&self.instance_cars, owner.as_str());
                match current {
                    Some(current_car) => {
                        if current_car == car_id {
                            remove_instance(&mut self.instance_cars, owner.as_str());
                        }
                    },
                    None => {},
                }
            },
            None => {},
        }
    }

    /// Gives the car up as a car that drives.
    pub fn remove_car_state(&mut self, car_id: u64)
        ensures
            final(self)@ == old(self)@.without_driving(car_id),
    {
        let held: Option<CarRecord> = get_car(&self.cars, car_id);
        match held {
            None => {},
            Some(record) => {
                self.remove_car(car_id);
                let mut left: CarRecord = record;
                left.known = false;
                left.last_client_seq = None;
                left.owner = None;
                left.engine_car_id = None;
                left.target = None;
                self.put_record(car_id, left);
                proof {
                    assert(self@.cars =~= old(self)@.without_driving(car_id).cars);
                }
            },
        }
    }

    /// The instance drives the car from now on.
    pub fn set_instance_car(&mut self, instance_uuid: &str, car_id: u64)
        ensures
            final(self)@ == (StoreView {
                instance_cars: old(self)@.instance_cars.insert(instance_uuid@, car_id),
                ..old(self)@
            }),
    {
        insert_instance(&mut self.instance_cars, instance_uuid.to_owned(), car_id);
    }

    /// The clients forget the car.
    pub fn forget_client_car(&mut self, car_id: u64)
        ensures
            final(self)@ == old(self)@.without_client(car_id),
    {
        let ghost before = self@;
        let mut record: CarRecord = self.take_record(car_id);
        record.known = false;
        record.last_client_seq = None;
        self.put_record(car_id, record);
        let uuids: Vec<String> = instance_keys(&self.instance_cars);
        let ghost entries = self@.instance_cars;
        let ghost cars = self@.cars;
        let mut i: usize = 0;
        while i < uuids.len()
            invariant
                i <= uuids@.len(),
                entries == before.instance_cars,
                self@.cars == cars,
                self@.next_public_car_id == before.next_public_car_id,
                self@.local_bot_next_index == before.local_bot_next_index,
                forall|u: Seq<char>| #[trigger]
                    self@.instance_cars.contains_key(u) ==> entries.contains_key(u)
                        && self@.instance_cars[u] == entries[u],
                forall|u: Seq<char>|
                    entries.contains_key(u) && entries[u] != car_id ==> (
                    #[trigger] self@.instance_cars.contains_key(u)),
                forall|k: int|
                    0 <= k < i && entries.contains_key((#[trigger] uuids@[k])@)
                        && entries[uuids@[k]@] == car_id ==> !self@.instance_cars.contains_key(
                        uuids@[k]@,
                    ),
            decreases uuids@.len() - i,
        {
            let ghost prior = self@.instance_cars;
            let current: Option<u64> = get_instance(&self.instance_cars, uuids[i].as_str());
            match current {
                Some(current_car) => {
                    if current_car == car_id {
                        remove_instance(&mut self.instance_cars, uuids[i].as_str());
                    }
                },
                None => {},
            }
            proof {
                assert forall|u: Seq<char>| #[trigger] self@.instance_cars.contains_key(
                    u,
                ) implies entries.contains_key(u) && self@.instance_cars[u] == entries[u] by {
                    assert(prior.contains_key(u));
                }
                assert forall|u: Seq<char>|
                    entries.contains_key(u) && entries[u] != car_id implies (
                #[trigger] self@.instance_cars.contains_key(u)) by {
                    assert(prior.contains_key(u));
                }
            }
            i += 1;
        }
        proof {
            let after = before.without_client(car_id);
            assert forall|u: Seq<char>| #[trigger] self@.instance_cars.contains_key(
                u,
            ) implies entries[u] != car_id by {
                assert(text::text_views(uuids@).contains(u));
                let k = choose|k: int| 0 <= k < text::text_views(uuids@).len() && text::text_views(uuids@)[k] == u;
                assert(uuids@[k]@ == u);
            }
            assert(self@.instance_cars =~= after.instance_cars);
            assert(self@.cars =~= after.cars);
        }
    }

    fn take_pit(&mut self, car_id: u64) -> (r: (CarRecord, RuntimePitState))
        ensures
            r.1@ == old(self)@.pit(car_id),
            r.0@ == (CarRecordView { pit_state: None, ..old(self)@.record(car_id) }),
            final(self)@ == (StoreView { cars: old(self)@.cars.remove(car_id), ..old(self)@ }),
    {
        let mut record: CarRecord = self.take_record(car_id);
        let taken: Option<RuntimePitState> = record.pit_state;
        record.pit_state = None;
        let pit: RuntimePitState = match taken {
            Some(p) => p,
            None => RuntimePitState::default(),
        };
        (record, pit)
    }

    fn put_pit(&mut self, car_id: u64, record: CarRecord, pit: RuntimePitState)
        ensures
            final(self)@ == (StoreView {
                cars: old(self)@.cars.insert(
                    car_id,
                    CarRecordView { pit_state: Some(pit@), ..record@ },
                ),
                ..old(self)@
            }),
    {
        let mut whole: CarRecord = record;
        whole.pit_state = Some(pit);
        self.put_record(car_id, whole);
    }

    pub fn set_pit_request_active(&mut self, car_id: u64, active: bool)
        ensures
            final(self)@ == old(self)@.with_pit(
                car_id,
                PitView { pit_request_active: active, ..old(self)@.pit(car_id) },
            ),
    {
        let (record, mut pit) = self.take_pit(car_id);
        pit.pit_request_active = active;
        self.put_pit(car_id, record, pit);
        proof {
            assert(self@.cars =~= old(self)@.with_pit(car_id, pit@).cars);
        }
    }

    pub fn set_controls_input(
        &mut self,
        car_id: u64,
        throttle: F32Bits,
        brake: F32Bits,
        brake_balancer: F32Bits,
        differential_lock: F32Bits,
    )
        ensures
            final(self)@ == old(self)@.with_record(
                car_id,
                CarRecordView {
                    controls_input: Some(
                        RuntimeControlInputSnapshot {
                            input_throttle: throttle,
                            input_brake: brake,
                            current_brake_balancer: brake_balancer,
                            current_differential_lock: differential_lock,
                        },
                    ),
                    ..old(self)@.record(car_id)
                },
            ),
    {
        let mut record: CarRecord = self.take_record(car_id);
        record.controls_input = Some(
            RuntimeControlInputSnapshot {
                input_throttle: throttle,
                input_brake: brake,
                current_brake_balancer: brake_balancer,
                current_differential_lock: differential_lock,
            },
        );
        self.put_record(car_id, record);
        proof {
            assert(self@.cars =~= old(self)@.cars.insert(car_id, record@));
        }
    }

    pub fn controls_input_snapshot(&self, car_id: u64) -> (r: RuntimeControlInputSnapshot)
        ensures
            r == match self@.record(car_id).controls_input {
                Some(input) => input,
                None => default_controls(),
            },
    {
        match self.read_record(car_id).controls_input {
            Some(input) => input,
            None => RuntimeControlInputSnapshot::default(),
        }
    }

    pub fn set_next_pit_tire_type(&mut self, car_id: u64, tire_type: RuntimePitTireType)
        ensures
            final(self)@ == old(self)@.with_pit(
                car_id,
                PitView { next_pit_tire_type: tire_type, ..old(self)@.pit(car_id) },
            ),
    {
        let (record, mut pit) = self.take_pit(car_id);
        pit.next_pit_tire_type = tire_type;
        self.put_pit(car_id, record, pit);
        proof {
            assert(self@.cars =~= old(self)@.with_pit(car_id, pit@).cars);
        }
    }

    /// The car was put back on the track: its driver is held idle for a moment.
    pub fn mark_back_to_track_applied(&mut self, car_id: u64, now_ms: u64)
        requires
            now_ms + TELEPORT_IDLE_WINDOW_MS <= u64::MAX,
        ensures
            final(self)@ == old(self)@.with_pit(
                car_id,
                PitView {
                    force_idle_until_ms: later(
                        old(self)@.pit(car_id).force_idle_until_ms,
                        (now_ms + TELEPORT_IDLE_WINDOW_MS) as u64,
                    ),
                    ..old(self)@.pit(car_id)
                },
            ),
    {
        let (record, mut pit) = self.take_pit(car_id);
        let until: u64 = now_ms + TELEPORT_IDLE_WINDOW_MS;
        if pit.force_idle_until_ms < until {
            pit.force_idle_until_ms = until;
        }
        self.put_pit(car_id, record, pit);
        proof {
            assert(self@.cars =~= old(self)@.with_pit(car_id, pit@).cars);
        }
    }

    /// The car was sent to the pit in an emergency: the stop that follows counts
    /// as one, and the controls are locked.
    pub fn mark_emergency_pitstop_requested(&mut self, car_id: u64, now_ms: u64)
        requires
            now_ms + TELEPORT_IDLE_WINDOW_MS <= u64::MAX,
        ensures
            final(self)@ == old(self)@.with_pit(
                car_id,
                PitView {
                    emergency_intent_pending: true,
                    emergency_lock_until_ms: later(
                        old(self)@.pit(car_id).emergency_lock_until_ms,
                        capped_sum(now_ms, EMERGENCY_PIT_LOCK_MS),
                    ),
                    force_idle_until_ms: later(
                        old(self)@.pit(car_id).force_idle_until_ms,
                        (now_ms + TELEPORT_IDLE_WINDOW_MS) as u64,
                    ),
                    ..old(self)@.pit(car_id)
                },
            ),
    {
        let (record, mut pit) = self.take_pit(car_id);
        pit.emergency_intent_pending = true;
        let lock_until: u64 = now_ms.saturating_add(EMERGENCY_PIT_LOCK_MS);
        if pit.emergency_lock_until_ms < lock_until {
            pit.emergency_lock_until_ms = lock_until;
        }
        let until: u64 = now_ms + TELEPORT_IDLE_WINDOW_MS;
        if pit.force_idle_until_ms < until {
            pit.force_idle_until_ms = until;
        }
        self.put_pit(car_id, record, pit);
        proof {
            assert(self@.cars =~= old(self)@.with_pit(car_id, pit@).cars);
        }
    }

    /// The car's pit state at `now_ms`.
    pub fn pit_state_snapshot(&self, car_id: u64, now_ms: u64) -> (r: RuntimePitStateSnapshot)
        ensures
            r@ == pit_snapshot(self@.pit(car_id), now_ms),
    {
        match self.read_record(car_id).pit_state {
            Some(pit) => pit.snapshot(now_ms),
            None => RuntimePitState::default().snapshot(now_ms),
        }
    }

    /// Takes note of what the engine reports of the car, and gives its pit state.
    pub fn update_pit_state_from_runtime(
        &mut self,
        car_id: u64,
        reading: VehiclePitReading,
        completed_laps: Option<u32>,
        now_ms: u64,
    ) -> (r: RuntimePitStateSnapshot)
        ensures
            final(self)@ == old(self)@.with_pit(
                car_id,
                pit_after_reading(old(self)@.pit(car_id), reading, completed_laps, now_ms),
            ),
            r@ == pit_snapshot(final(self)@.pit(car_id), now_ms),
    {
        let (record, mut pit) = self.take_pit(car_id);
        pit.apply_reading(reading, completed_laps, now_ms);
        let snapshot: RuntimePitStateSnapshot = pit.snapshot(now_ms);
        self.put_pit(car_id, record, pit);
        proof {
            assert(self@.cars =~= old(self)@.with_pit(car_id, pit@).cars);
        }
        snapshot
    }
}

impl Default for RaceRuntimeStore {
    fn default() -> (r: Self)
        ensures
            r@ == (StoreView {
                next_public_car_id: 1,
                cars: Map::empty(),
                instance_cars: Map::empty(),
                local_bot_next_index: Map::empty(),
            }),
    {
        RaceRuntimeStore::new()
    }
}

/// How many cars a sandbox has.
#[derive(Debug)]
pub struct SandboxCarCount {
    pub sandbox_id: String,
    pub count: u32,
}

/// The cars that are in the sandbox.
pub open spec fn cars_in_sandbox(s: StoreView, sandbox_id: Seq<char>) -> Set<u64> {
    s.cars.dom().filter(
        |c: u64| s.record(c).target == Some(TargetView::Sandbox { sandbox_id }),
    )
}

/// `n`, held at the largest 32-bit value.
pub open spec fn capped_u32(n: nat) -> u32 {
    if n > u32::MAX {
        u32::MAX
    } else {
        n as u32
    }
}

/// `counts` has one entry for each sandbox that has cars, with their number.
pub open spec fn counts_match(counts: Seq<SandboxCarCount>, s: StoreView) -> bool {
    &&& forall|i: int, j: int|
        #![trigger counts[i], counts[j]]
        0 <= i < j < counts.len() ==> counts[i].sandbox_id@ != counts[j].sandbox_id@
    &&& forall|i: int|
        0 <= i < counts.len() ==> (#[trigger] counts[i]).count == capped_u32(
            cars_in_sandbox(s, counts[i].sandbox_id@).len(),
        ) && counts[i].count > 0
    &&& forall|id: Seq<char>|
        (#[trigger] cars_in_sandbox(s, id)).len() > 0 ==> exists|i: int|
            0 <= i < counts.len() && (#[trigger] counts[i]).sandbox_id@ == id
}

/// How many of `ids` are in the sandbox.
spec fn count_in(ids: Seq<u64>, s: StoreView, sandbox_id: Seq<char>) -> nat
    decreases ids.len(),
{
    if ids.len() == 0 {
        0
    } else {
        count_in(ids.drop_last(), s, sandbox_id) + if s.record(ids.last()).target == Some(
            TargetView::Sandbox { sandbox_id },
        ) {
            1nat
        } else {
            0nat
        }
    }
}

spec fn counts_match_ids(counts: Seq<SandboxCarCount>, s: StoreView, ids: Seq<u64>) -> bool {
    &&& forall|i: int, j: int|
        #![trigger counts[i], counts[j]]
        0 <= i < j < counts.len() ==> counts[i].sandbox_id@ != counts[j].sandbox_id@
    &&& forall|i: int|
        0 <= i < counts.len() ==> (#[trigger] counts[i]).count == capped_u32(
            count_in(ids, s, counts[i].sandbox_id@),
        ) && counts[i].count > 0
    &&& forall|id: Seq<char>|
        (#[trigger] count_in(ids, s, id)) > 0 ==> exists|i: int|
            0 <= i < counts.len() && (#[trigger] counts[i]).sandbox_id@ == id
}

/// `after` is `before` with one more for the sandbox.
spec fn counted_once_more(
    before: Seq<SandboxCarCount>,
    after: Seq<SandboxCarCount>,
    sandbox_id: Seq<char>,
) -> bool {
    ||| exists|k: int|
        {
            &&& 0 <= k < before.len()
            &&& (#[trigger] before[k]).sandbox_id@ == sandbox_id
            &&& after.len() == before.len()
            &&& after[k].sandbox_id@ == sandbox_id
            &&& after[k].count == capped_u32((before[k].count + 1) as nat)
            &&& forall|j: int|
                0 <= j < before.len() && j != k ==> #[trigger] after[j] == before[j]
        }
    ||| {
        &&& forall|j: int|
            0 <= j < before.len() ==> (#[trigger] before[j]).sandbox_id@ != sandbox_id
        &&& after.len() == before.len() + 1
        &&& forall|j: int| 0 <= j < before.len() ==> #[trigger] after[j] == before[j]
        &&& after.last().sandbox_id@ == sandbox_id
        &&& after.last().count == 1
    }
}

fn add_to_counts(counts: &mut Vec<SandboxCarCount>, sandbox_id: &str)
    ensures
        counted_once_more(old(counts)@, final(counts)@, sandbox_id@),
{
    let ghost before = counts@;
    let mut k: usize = 0;
    while k < counts.len()
        invariant
            k <= counts@.len(),
            counts@ == before,
            before == old(counts)@,
            forall|j: int| 0 <= j < k ==> (#[trigger] counts@[j]).sandbox_id@ != sandbox_id@,
        decreases counts@.len() - k,
    {
        if text::str_eq(counts[k].sandbox_id.as_str(), sandbox_id) {
            let count: u32 = counts[k].count.saturating_add(1);
            let name: String = sandbox_id.to_owned();
            counts.set(k, SandboxCarCount { sandbox_id: name, count });
            proof {
                let k = k as int;
                assert(before[k].sandbox_id@ == sandbox_id@);
                assert(counts@[k].count == capped_u32((before[k].count + 1) as nat));
                assert(forall|j: int|
                    0 <= j < before.len() && j != k ==> #[trigger] counts@[j] == before[j]);
            }
            return;
        }
        k += 1;
    }
    counts.push(SandboxCarCount { sandbox_id: sandbox_id.to_owned(), count: 1 });
}

proof fn lemma_counts_step(
    before: Seq<SandboxCarCount>,
    after: Seq<SandboxCarCount>,
    s: StoreView,
    ids: Seq<u64>,
    sandbox_id: Seq<char>,
)
    requires
        ids.len() > 0,
        s.record(ids.last()).target == Some(TargetView::Sandbox { sandbox_id }),
        counts_match_ids(before, s, ids.drop_last()),
        counted_once_more(before, after, sandbox_id),
    ensures
        counts_match_ids(after, s, ids),
{
    let head = ids.drop_last();
    assert forall|id: Seq<char>| #[trigger] count_in(ids, s, id) == count_in(head, s, id) + (if id
        == sandbox_id {
        1nat
    } else {
        0nat
    }) by {}
    if exists|k: int| 0 <= k < before.len() && (#[trigger] before[k]).sandbox_id@ == sandbox_id {
        let k = choose|k: int|
            {
                &&& 0 <= k < before.len()
                &&& (#[trigger] before[k]).sandbox_id@ == sandbox_id
                &&& after.len() == before.len()
                &&& after[k].sandbox_id@ == sandbox_id
                &&& after[k].count == capped_u32((before[k].count + 1) as nat)
                &&& forall|j: int|
                    0 <= j < before.len() && j != k ==> #[trigger] after[j] == before[j]
            };
        assert forall|i: int, j: int|
            #![trigger after[i], after[j]]
            0 <= i < j < after.len() implies after[i].sandbox_id@ != after[j].sandbox_id@ by {
            assert(before[i].sandbox_id@ != before[j].sandbox_id@);
        }
        assert forall|i: int| 0 <= i < after.len() implies (#[trigger] after[i]).count
            == capped_u32(count_in(ids, s, after[i].sandbox_id@)) && after[i].count > 0 by {
            assert(before[i].count == capped_u32(count_in(head, s, before[i].sandbox_id@)));
            if i != k {
                assert(after[i] == before[i]);
                if i < k {
                    assert(before[i].sandbox_id@ != before[k].sandbox_id@);
                } else {
                    assert(before[k].sandbox_id@ != before[i].sandbox_id@);
                }
            }
        }
        assert forall|id: Seq<char>|
            (#[trigger] count_in(ids, s, id)) > 0 implies exists|i: int|
            0 <= i < after.len() && (#[trigger] after[i]).sandbox_id@ == id by {
            if id == sandbox_id {
                assert(after[k].sandbox_id@ == id);
            } else {
                assert(count_in(head, s, id) > 0);
                let i = choose|i: int|
                    0 <= i < before.len() && (#[trigger] before[i]).sandbox_id@ == id;
                assert(after[i].sandbox_id@ == id);
            }
        }
    } else {
        assert(count_in(head, s, sandbox_id) == 0);
        assert forall|i: int, j: int|
            #![trigger after[i], after[j]]
            0 <= i < j < after.len() implies after[i].sandbox_id@ != after[j].sandbox_id@ by {
            assert(after[i] == before[i]);
            if j < before.len() {
                assert(after[j] == before[j]);
            }
        }
        assert forall|i: int| 0 <= i < after.len() implies (#[trigger] after[i]).count
            == capped_u32(count_in(ids, s, after[i].sandbox_id@)) && after[i].count > 0 by {
            if i < before.len() {
                assert(after[i] == before[i]);
            }
        }
        assert forall|id: Seq<char>|
            (#[trigger] count_in(ids, s, id)) > 0 implies exists|i: int|
            0 <= i < after.len() && (#[trigger] after[i]).sandbox_id@ == id by {
            if id == sandbox_id {
                assert(after[after.len() - 1].sandbox_id@ == id);
            } else {
                assert(count_in(head, s, id) > 0);
                let i = choose|i: int|
                    0 <= i < before.len() && (#[trigger] before[i]).sandbox_id@ == id;
                assert(after[i].sandbox_id@ == id);
            }
        }
    }
}

proof fn lemma_counts_skip(counts: Seq<SandboxCarCount>, s: StoreView, ids: Seq<u64>)
    requires
        ids.len() > 0,
        s.record(ids.last()).target is Some ==> s.record(
            ids.last(),
        ).target->Some_0 !is Sandbox,
        counts_match_ids(counts, s, ids.drop_last()),
    ensures
        counts_match_ids(counts, s, ids),
{
    assert forall|id: Seq<char>| #[trigger] count_in(ids, s, id) == count_in(
        ids.drop_last(),
        s,
        id,
    ) by {
        assert(s.record(ids.last()).target != Some(TargetView::Sandbox { sandbox_id: id }));
    }
}

proof fn lemma_count_is_set_len(ids: Seq<u64>, s: StoreView, sandbox_id: Seq<char>)
    requires
        ids.no_duplicates(),
    ensures
        count_in(ids, s, sandbox_id) == ids.to_set().filter(
            |c: u64| s.record(c).target == Some(TargetView::Sandbox { sandbox_id }),
        ).len(),
        ids.to_set().filter(
            |c: u64| s.record(c).target == Some(TargetView::Sandbox { sandbox_id }),
        ).finite(),
    decreases ids.len(),
{
    let p = |c: u64| s.record(c).target == Some(TargetView::Sandbox { sandbox_id });
    if ids.len() == 0 {
        assert(ids.to_set().filter(p) =~= Set::empty());
    } else {
        let head = ids.drop_last();
        let last = ids.last();
        assert(head.no_duplicates());
        lemma_count_is_set_len(head, s, sandbox_id);
        assert(!head.to_set().contains(last)) by {
            if head.contains(last) {
                let a = choose|a: int| 0 <= a < head.len() && head[a] == last;
                assert(ids[a] == ids[ids.len() - 1]);
            }
        }
        assert(ids =~= head.push(last));
        assert(ids.to_set() =~= head.to_set().insert(last)) by {
            assert forall|c: u64| ids.to_set().contains(c) <==> head.to_set().insert(
                last,
            ).contains(c) by {
                if ids.contains(c) {
                    let a = choose|a: int| 0 <= a < ids.len() && ids[a] == c;
                    if a < head.len() {
                        assert(head[a] == c);
                    }
                }
                if head.contains(c) {
                    let a = choose|a: int| 0 <= a < head.len() && head[a] == c;
                    assert(ids[a] == c);
                }
                if c == last {
                    assert(ids[ids.len() - 1] == c);
                }
            }
        }
        if p(last) {
            assert(ids.to_set().filter(p) =~= head.to_set().filter(p).insert(last));
        } else {
            assert(ids.to_set().filter(p) =~= head.to_set().filter(p));
        }
    }
}

/// The store after the next car id was given out.
pub open spec fn with_next_id(s: StoreView) -> StoreView {
    StoreView {
        next_public_car_id: if s.next_public_car_id == u64::MAX {
            0
        } else {
            (s.next_public_car_id + 1) as u64
        },
        ..s
    }
}

/// A call on the store hands out the next id or leaves the counter alone.
pub open spec fn is_store_step(a: StoreView, b: StoreView) -> bool {
    b.next_public_car_id == a.next_public_car_id || b.next_public_car_id == with_next_id(
        a,
    ).next_public_car_id
}

pub open spec fn is_step_at(states: Seq<StoreView>, k: int) -> bool {
    is_store_step(states[k], states[k + 1])
}

/// The `k`th call hands out an id, which is where the counter stood.
pub open spec fn hands_out(states: Seq<StoreView>, k: int) -> bool {
    states[k + 1].next_public_car_id != states[k].next_public_car_id
}

/// How many ids were handed out before the `k`th call.
pub open spec fn ids_before(states: Seq<StoreView>, k: int) -> nat
    decreases k,
{
    if k <= 0 {
        0
    } else {
        ids_before(states, k - 1) + if hands_out(states, k - 1) {
            1nat
        } else {
            0nat
        }
    }
}

proof fn lemma_counter_counts(states: Seq<StoreView>, k: int)
    requires
        0 <= k < states.len(),
        states[0].next_public_car_id == 1,
        forall|i: int| 0 <= i < states.len() - 1 ==> #[trigger] is_step_at(states, i),
        ids_before(states, k) <= u64::MAX,
    ensures
        states[k].next_public_car_id == if ids_before(states, k) == u64::MAX {
            0
        } else {
            ids_before(states, k) + 1
        },
    decreases k,
{
    if k > 0 {
        lemma_counter_counts(states, k - 1);
        assert(is_step_at(states, k - 1));
    }
}

/// From a new store on, whatever is called and however often: the first id is 1, every
/// later one is the next number, and so none is handed out twice, not even after its car
/// was removed. `states` are the store before each call and after the last. The law holds
/// until every number has been handed out; the last of them is 0.
pub proof fn car_ids_are_never_repeated(states: Seq<StoreView>, j: int, k: int)
    requires
        0 <= j < k < states.len() - 1,
        states[0].next_public_car_id == 1,
        forall|i: int| 0 <= i < states.len() - 1 ==> #[trigger] is_step_at(states, i),
        hands_out(states, j),
        hands_out(states, k),
        ids_before(states, k) <= u64::MAX,
    ensures
        states[j].next_public_car_id == ids_before(states, j) + 1,
        ids_before(states, k) < u64::MAX ==> states[k].next_public_car_id == ids_before(states, k)
            + 1,
        states[j].next_public_car_id != states[k].next_public_car_id,
{
    lemma_ids_before_grows(states, j + 1, k);
    lemma_counter_counts(states, j);
    lemma_counter_counts(states, k);
}

proof fn lemma_ids_before_grows(states: Seq<StoreView>, j: int, k: int)
    requires
        0 <= j <= k,
    ensures
        ids_before(states, j) <= ids_before(states, k),
    decreases k - j,
{
    if j < k {
        lemma_ids_before_grows(states, j, k - 1);
    }
}

/// Writing a car's record is read back, and no other car's record changes.
pub proof fn record_is_read_back(s: StoreView, car_id: u64, record: CarRecordView, other: u64)
    ensures
        s.with_record(car_id, record).record(car_id) == record,
        other != car_id ==> s.with_record(car_id, record).record(other) == s.record(other),
{
}

/// A removed car leaves nothing behind: no record, and no instance that it owned
/// still leads to it. Other cars keep their records, and instances that lead to
/// other cars keep leading there.
pub proof fn removed_car_leaves_nothing(s: StoreView, car_id: u64, other: u64, uuid: Seq<char>)
    ensures
        s.without_car(car_id).record(car_id) == no_record(),
        other != car_id ==> s.without_car(car_id).record(other) == s.record(other),
        s.record(car_id).owner == Some(uuid) && s.without_car(car_id).instance_cars.contains_key(
            uuid,
        ) ==> s.without_car(car_id).instance_cars[uuid] != car_id,
        s.instance_cars.contains_key(uuid) && s.instance_cars[uuid] != car_id ==> s.without_car(
            car_id,
        ).instance_cars.contains_key(uuid) && s.without_car(car_id).instance_cars[uuid]
            == s.instance_cars[uuid],
{
}

/// Removing a car twice is the same as removing it once.
pub proof fn removal_is_idempotent(s: StoreView, car_id: u64)
    ensures
        s.without_car(car_id).without_car(car_id) == s.without_car(car_id),
{
    assert(s.without_car(car_id).cars.remove(car_id) =~= s.without_car(car_id).cars);
}

/// Bounded pit histories stay bounded: writing a record whose history is bounded
/// and removing a car keep them so.
pub proof fn histories_stay_bounded(s: StoreView, car_id: u64, record: CarRecordView)
    requires
        s.histories_are_bounded(),
        record.pit_state is Some ==> record.pit_state->Some_0.history.len()
            <= PIT_HISTORY_MAX_ENTRIES,
    ensures
        s.with_record(car_id, record).histories_are_bounded(),
        s.without_car(car_id).histories_are_bounded(),
{
    let written = s.with_record(car_id, record);
    assert forall|c: u64| (#[trigger] written.pit(c)).history.len() <= PIT_HISTORY_MAX_ENTRIES by {
        assert(s.pit(c).history.len() <= PIT_HISTORY_MAX_ENTRIES);
    }
    let removed = s.without_car(car_id);
    assert forall|c: u64| (#[trigger] removed.pit(c)).history.len() <= PIT_HISTORY_MAX_ENTRIES by {
        assert(s.pit(c).history.len() <= PIT_HISTORY_MAX_ENTRIES);
    }
}

/// A reading never lets a bounded history grow past what is kept, and the stop it
/// records comes first.
pub proof fn reading_keeps_history_bounded(
    p: PitView,
    reading: VehiclePitReading,
    completed_laps: Option<u32>,
    now_ms: u64,
)
    requires
        p.history.len() <= PIT_HISTORY_MAX_ENTRIES,
    ensures
        pit_after_reading(p, reading, completed_laps, now_ms).history.len()
            <= PIT_HISTORY_MAX_ENTRIES,
        standing_in_fix_zone(reading) && !p.was_fix_stationary_full_pit ==> pit_after_reading(
            p,
            reading,
            completed_laps,
            now_ms,
        ).history[0] == stop_entry(p, completed_laps, now_ms),
{
}

/// A stop is recorded once: while the car keeps standing, further readings leave
/// its history as it is.
pub proof fn stop_is_recorded_once(
    p: PitView,
    first: VehiclePitReading,
    second: VehiclePitReading,
    laps: Option<u32>,
    now_ms: u64,
    later_ms: u64,
)
    requires
        standing_in_fix_zone(first),
        standing_in_fix_zone(second),
    ensures
        pit_after_reading(pit_after_reading(p, first, laps, now_ms), second, laps, later_ms)
            == pit_after_reading(p, first, laps, now_ms),
{
}

/// A driver whose controls are locked is always held idle.
pub proof fn locked_driver_is_idle(p: PitView, now_ms: u64)
    ensures
        pit_snapshot(p, now_ms).emergency_lock_remaining_ms > 0 ==> pit_snapshot(
            p,
            now_ms,
        ).force_idle,
{
}

/// Puts `x` into an ascending vector that does not hold it.
fn insert_ascending(v: &mut Vec<u64>, x: u64)
    requires
        forall|i: int, j: int| 0 <= i < j < old(v)@.len() ==> old(v)@[i] < old(v)@[j],
        !old(v)@.contains(x),
    ensures
        forall|i: int, j: int| 0 <= i < j < final(v)@.len() ==> final(v)@[i] < final(v)@[j],
        forall|c: u64| #[trigger] final(v)@.contains(c) <==> (old(v)@.contains(c) || c == x),
{
    let ghost before = v@;
    let mut k: usize = v.len();
    while k > 0 && v[k - 1] > x
        invariant
            k <= v@.len(),
            v@ == before,
            forall|j: int| k <= j < v@.len() ==> v@[j] > x,
        decreases k,
    {
        k -= 1;
    }
    v.insert(k, x);
    proof {
        assert(v@ == before.insert(k as int, x));
        assert(k > 0 ==> before[k - 1] != x) by {
            if k > 0 && before[k - 1] == x {
                assert(before.contains(x));
            }
        }
        assert forall|i: int, j: int| 0 <= i < j < v@.len() implies v@[i] < v@[j] by {
            if i < k && j > k {
                assert(before[i] < before[j - 1]);
            } else if j == k {
                assert(before[i] <= before[k - 1]);
            }
        }
        assert forall|c: u64| #[trigger] v@.contains(c) <==> (before.contains(c) || c == x) by {
            if before.contains(c) {
                let a = choose|a: int| 0 <= a < before.len() && before[a] == c;
                assert(v@[if a < k {
                    a
                } else {
                    a + 1
                }] == c);
            }
            if c == x {
                assert(v@[k as int] == c);
            }
            if v@.contains(c) {
                let a = choose|a: int| 0 <= a < v@.len() && v@[a] == c;
                if a < k {
                    assert(before[a] == c);
                } else if a > k {
                    assert(before[a - 1] == c);
                }
            }
        }
    }
}

/// A stop is recorded when the car comes to stand in the repair zone on all four wheels, and
/// only then: the newest entry is of now, of the lap that the car is in, with the tyres that
/// were chosen. Readings touch nothing else but the request and the emergency, which a
/// recorded stop uses up.
pub proof fn recorded_stop_uses_up_its_cause(
    p: PitView,
    reading: VehiclePitReading,
    completed_laps: Option<u32>,
    now_ms: u64,
)
    requires
        p.history.len() <= 32,
    ensures
        ({
            let after = pit_after_reading(p, reading, completed_laps, now_ms);
            let stands = reading.in_fix_zone && reading.wheels_in_pitstop == 4
                && reading.speed.zero();
            &&& after.was_fix_stationary_full_pit == stands
            &&& after.next_pit_tire_type == p.next_pit_tire_type
            &&& after.emergency_lock_until_ms == p.emergency_lock_until_ms
            &&& after.force_idle_until_ms == p.force_idle_until_ms
            &&& stands && !p.was_fix_stationary_full_pit ==> {
                &&& !after.emergency_intent_pending
                &&& !after.pit_request_active
                &&& after.last_pit_time_ms == now_ms
                &&& completed_laps is Some ==> after.last_pit_lap == completed_laps->Some_0
                &&& completed_laps is None ==> after.last_pit_lap == 0
                &&& after.history.len() > 0
                &&& after.history[0].pit_time_ms == now_ms
                &&& after.history[0].lap == after.last_pit_lap
                &&& after.history[0].source == after.last_pit_source
                &&& after.history[0].new_tire_type == p.next_pit_tire_type
                &&& after.last_pit_source is Emergency <==> p.emergency_intent_pending
                &&& after.last_pit_source is Requested <==> !p.emergency_intent_pending
                    && p.pit_request_active
                &&& p.history.len() < 32 ==> after.history.len() == p.history.len() + 1
                &&& p.history.len() == 32 ==> after.history.len() == 32
                &&& forall|i: int|
                    1 <= i < after.history.len() ==> #[trigger] after.history[i] == p.history[i - 1]
            }
            &&& !stands || p.was_fix_stationary_full_pit ==> {
                &&& after.history == p.history
                &&& after.emergency_intent_pending == p.emergency_intent_pending
                &&& after.pit_request_active == p.pit_request_active
                &&& after.last_pit_time_ms == p.last_pit_time_ms
                &&& after.last_pit_source == p.last_pit_source
                &&& after.last_pit_lap == p.last_pit_lap
            }
        }),
{
}

/// The cause of a stop is its own: after a recorded stop, however it came about, a car that
/// drives off and stops again without a new request or emergency has stopped by its own
/// decision.
pub proof fn next_stop_has_its_own_cause(
    p: PitView,
    first: VehiclePitReading,
    away: VehiclePitReading,
    second: VehiclePitReading,
    first_laps: Option<u32>,
    away_laps: Option<u32>,
    second_laps: Option<u32>,
    first_ms: u64,
    away_ms: u64,
    second_ms: u64,
)
    requires
        !p.was_fix_stationary_full_pit,
        standing_in_fix_zone(first),
        !standing_in_fix_zone(away),
        standing_in_fix_zone(second),
    ensures
        ({
            let stopped = pit_after_reading(p, first, first_laps, first_ms);
            let gone = pit_after_reading(stopped, away, away_laps, away_ms);
            let again = pit_after_reading(gone, second, second_laps, second_ms);
            &&& again.last_pit_source is BotDecision
            &&& again.history[0].source is BotDecision
            &&& again.history[0].pit_time_ms == second_ms
            &&& again.history[1].pit_time_ms == first_ms
        }),
{
}

/// A car stands in the repair zone exactly where it is in the zone, on all four wheels, and
/// its speed is zero.
pub proof fn standing_is_on_four_wheels(reading: VehiclePitReading)
    ensures
        standing_in_fix_zone(reading) <==> reading.in_fix_zone && reading.wheels_in_pitstop == 4
            && (reading.speed.bits == 0 || reading.speed.bits == 0x8000_0000),
{
}

/// What is left of a lock and the time are its end, until it has run out; a driver is idle as
/// long as either the lock or the idle window lasts. The rest of a snapshot is the state's
/// own.
pub proof fn snapshot_counts_down_the_lock(p: PitView, now_ms: u64)
    ensures
        ({
            let shown = pit_snapshot(p, now_ms);
            &&& p.emergency_lock_until_ms <= now_ms ==> shown.emergency_lock_remaining_ms == 0
            &&& p.emergency_lock_until_ms > now_ms && p.emergency_lock_until_ms - now_ms
                <= u32::MAX ==> now_ms + shown.emergency_lock_remaining_ms
                == p.emergency_lock_until_ms
            &&& p.emergency_lock_until_ms - now_ms > u32::MAX ==> shown.emergency_lock_remaining_ms
                == u32::MAX
            &&& shown.force_idle <==> p.force_idle_until_ms > now_ms || p.emergency_lock_until_ms
                > now_ms
            &&& shown.pit_request_active == p.pit_request_active
            &&& shown.last_pit_time_ms == p.last_pit_time_ms
            &&& shown.last_pit_source == p.last_pit_source
            &&& shown.last_pit_lap == p.last_pit_lap
            &&& shown.next_pit_tire_type == p.next_pit_tire_type
            &&& shown.history == p.history
        }),
{
}

/// A car that was never in the pit has no request, no lock, no chosen tyres and no stops, and
/// a driver that has sent nothing neither throttles nor brakes.
pub proof fn nothing_is_held_of_a_new_car(s: StoreView, car_id: u64)
    requires
        !s.cars.contains_key(car_id),
    ensures
        !s.record(car_id).known,
        s.record(car_id).last_client_seq is None,
        s.record(car_id).owner is None,
        s.record(car_id).engine_car_id is None,
        s.record(car_id).target is None,
        s.record(car_id).identity is None,
        s.record(car_id).pit_state is None,
        s.record(car_id).controls_input is None,
        !s.pit(car_id).pit_request_active,
        !s.pit(car_id).emergency_intent_pending,
        !s.pit(car_id).was_fix_stationary_full_pit,
        s.pit(car_id).emergency_lock_until_ms == 0,
        s.pit(car_id).force_idle_until_ms == 0,
        s.pit(car_id).last_pit_time_ms == 0 && s.pit(car_id).last_pit_lap == 0,
        s.pit(car_id).last_pit_source is BotDecision,
        s.pit(car_id).next_pit_tire_type is Unspecified,
        s.pit(car_id).history.len() == 0,
        default_controls().input_throttle.zero() && default_controls().input_brake.zero(),
        default_controls().current_differential_lock.zero(),
        default_controls().current_brake_balancer.bits == 0x3f00_0000,
{
}

/// A pit state that is written is read back; all else of the car, and every other car, stays.
pub proof fn pit_state_is_read_back(s: StoreView, car_id: u64, pit: PitView, other: u64)
    ensures
        s.with_pit(car_id, pit).pit(car_id) == pit,
        s.with_pit(car_id, pit).record(car_id).known == s.record(car_id).known,
        s.with_pit(car_id, pit).record(car_id).last_client_seq == s.record(car_id).last_client_seq,
        s.with_pit(car_id, pit).record(car_id).owner == s.record(car_id).owner,
        s.with_pit(car_id, pit).record(car_id).engine_car_id == s.record(car_id).engine_car_id,
        s.with_pit(car_id, pit).record(car_id).target == s.record(car_id).target,
        s.with_pit(car_id, pit).record(car_id).identity == s.record(car_id).identity,
        s.with_pit(car_id, pit).record(car_id).controls_input == s.record(car_id).controls_input,
        other != car_id ==> s.with_pit(car_id, pit).record(other) == s.record(other)
            && s.with_pit(car_id, pit).pit(other) == s.pit(other),
        s.with_pit(car_id, pit).instance_cars == s.instance_cars,
        s.with_pit(car_id, pit).local_bot_next_index == s.local_bot_next_index,
        s.with_pit(car_id, pit).next_public_car_id == s.next_public_car_id,
{
}

/// Writing a record touches nothing but the car.
pub proof fn writing_a_record_touches_the_car_alone(
    s: StoreView,
    car_id: u64,
    record: CarRecordView,
)
    ensures
        s.with_record(car_id, record).instance_cars == s.instance_cars,
        s.with_record(car_id, record).local_bot_next_index == s.local_bot_next_index,
        s.with_record(car_id, record).next_public_car_id == s.next_public_car_id,
        s.without_car(car_id).local_bot_next_index == s.local_bot_next_index,
        s.without_car(car_id).next_public_car_id == s.next_public_car_id,
        with_next_id(s).cars == s.cars,
        with_next_id(s).instance_cars == s.instance_cars,
        with_next_id(s).local_bot_next_index == s.local_bot_next_index,
        s.next_public_car_id < u64::MAX ==> with_next_id(s).next_public_car_id
            == s.next_public_car_id + 1,
{
}

/// A user's bots in a sandbox are numbered from 1, and each user and sandbox for itself.
pub proof fn bots_are_numbered_from_one(
    s: StoreView,
    sandbox_id: Seq<char>,
    user_id: Seq<char>,
    next: u32,
    other_sandbox_id: Seq<char>,
    other_user_id: Seq<char>,
)
    ensures
        !s.local_bot_next_index.contains_key((sandbox_id, user_id)) ==> s.next_bot_index(
            sandbox_id,
            user_id,
        ) == 1,
        ({
            let after = StoreView {
                local_bot_next_index: s.local_bot_next_index.insert((sandbox_id, user_id), next),
                ..s
            };
            &&& after.next_bot_index(sandbox_id, user_id) == next
            &&& other_sandbox_id != sandbox_id || other_user_id != user_id ==> after.next_bot_index(
                other_sandbox_id,
                other_user_id,
            ) == s.next_bot_index(other_sandbox_id, other_user_id)
        }),
{
}

/// A car that is given up as one that drives is unknown, unowned and registered nowhere, but
/// keeps its identity, its pit state and its inputs. Its owner's instance has no car any more
/// where it had this one. Every other car stays as it is.
pub proof fn given_up_car_keeps_its_past(s: StoreView, car_id: u64, other: u64, uuid: Seq<char>)
    ensures
        ({
            let after = s.without_driving(car_id);
            &&& !after.record(car_id).known
            &&& after.record(car_id).last_client_seq is None
            &&& after.record(car_id).owner is None
            &&& after.record(car_id).engine_car_id is None
            &&& after.record(car_id).target is None
            &&& after.record(car_id).identity == s.record(car_id).identity
            &&& after.record(car_id).pit_state == s.record(car_id).pit_state
            &&& after.record(car_id).controls_input == s.record(car_id).controls_input
            &&& other != car_id ==> after.record(other) == s.record(other)
            &&& s.record(car_id).owner == Some(uuid) && after.instance_cars.contains_key(uuid)
                ==> after.instance_cars[uuid] != car_id
            &&& s.record(car_id).owner != Some(uuid) ==> after.instance_cars.contains_key(uuid)
                == s.instance_cars.contains_key(uuid) && (s.instance_cars.contains_key(uuid)
                ==> after.instance_cars[uuid] == s.instance_cars[uuid])
            &&& after.next_public_car_id == s.next_public_car_id
            &&& after.local_bot_next_index == s.local_bot_next_index
        }),
{
}

/// A removed car takes its owner's instance with it only where that had this car; instances
/// that do not own it stay.
pub proof fn removed_car_leaves_other_instances(s: StoreView, car_id: u64, uuid: Seq<char>)
    ensures
        s.record(car_id).owner != Some(uuid) ==> s.without_car(car_id).instance_cars.contains_key(
            uuid,
        ) == s.instance_cars.contains_key(uuid) && (s.instance_cars.contains_key(uuid)
            ==> s.without_car(car_id).instance_cars[uuid] == s.instance_cars[uuid]),
        s.record(car_id).owner == Some(uuid) && s.instance_cars.contains_key(uuid)
            && s.instance_cars[uuid] == car_id ==> !s.without_car(
            car_id,
        ).instance_cars.contains_key(uuid),
        !s.without_car(car_id).cars.contains_key(car_id),
{
}

/// A car that the clients have forgotten is unknown and no instance has it; all else of it,
/// every other car and every instance of another car stays.
pub proof fn forgotten_car_stays_registered(s: StoreView, car_id: u64, other: u64, uuid: Seq<char>)
    ensures
        ({
            let after = s.without_client(car_id);
            &&& !after.record(car_id).known
            &&& after.record(car_id).last_client_seq is None
            &&& after.record(car_id).owner == s.record(car_id).owner
            &&& after.record(car_id).engine_car_id == s.record(car_id).engine_car_id
            &&& after.record(car_id).target == s.record(car_id).target
            &&& after.record(car_id).identity == s.record(car_id).identity
            &&& after.record(car_id).pit_state == s.record(car_id).pit_state
            &&& after.record(car_id).controls_input == s.record(car_id).controls_input
            &&& other != car_id ==> after.record(other) == s.record(other)
            &&& after.instance_cars.contains_key(uuid) <==> s.instance_cars.contains_key(uuid)
                && s.instance_cars[uuid] != car_id
            &&& after.instance_cars.contains_key(uuid) ==> after.instance_cars[uuid]
                == s.instance_cars[uuid]
            &&& after.next_public_car_id == s.next_public_car_id
            &&& after.local_bot_next_index == s.local_bot_next_index
        }),
{
}

/// The later of two times is one of them and before neither; a sum is exact until it would
/// not fit.
pub proof fn later_and_capped_sum(a: u64, b: u64)
    ensures
        later(a, b) == a || later(a, b) == b,
        later(a, b) >= a && later(a, b) >= b,
        a + b <= u64::MAX ==> capped_sum(a, b) == a + b,
        a + b > u64::MAX ==> capped_sum(a, b) == u64::MAX,
{
}

/// A car is counted for a sandbox exactly where it is registered there, and a count is exact
/// until it would not fit; of two entries none is of the same sandbox.
pub proof fn cars_are_counted_where_they_are(
    counts: Seq<SandboxCarCount>,
    s: StoreView,
    car_id: u64,
    sandbox_id: Seq<char>,
)
    requires
        counts_match(counts, s),
        s.cars.dom().finite(),
    ensures
        cars_in_sandbox(s, sandbox_id).contains(car_id) <==> s.cars.contains_key(car_id)
            && s.cars[car_id].target == Some(TargetView::Sandbox { sandbox_id }),
        cars_in_sandbox(s, sandbox_id).contains(car_id) ==> exists|i: int|
            0 <= i < counts.len() && (#[trigger] counts[i]).sandbox_id@ == sandbox_id,
        forall|i: int|
            0 <= i < counts.len() ==> 1 <= (#[trigger] counts[i]).count && (cars_in_sandbox(
                s,
                counts[i].sandbox_id@,
            ).len() <= u32::MAX ==> counts[i].count == cars_in_sandbox(
                s,
                counts[i].sandbox_id@,
            ).len()),
        forall|i: int, j: int|
            #![trigger counts[i], counts[j]]
            0 <= i < j < counts.len() ==> counts[i].sandbox_id@ != counts[j].sandbox_id@,
{
    if cars_in_sandbox(s, sandbox_id).contains(car_id) {
        if cars_in_sandbox(s, sandbox_id).len() == 0 {
            assert(cars_in_sandbox(s, sandbox_id) =~= Set::<u64>::empty());
        }
    }
}

/// The pit state of a car, the part of it that is shown, and the identity of a car are seen
/// field by field.
pub proof fn car_states_are_seen_as_they_are(
    pit: RuntimePitState,
    shown: RuntimePitStateSnapshot,
    identity: RuntimeCarIdentity,
)
    ensures
        pit@.pit_request_active == pit.pit_request_active,
        pit@.emergency_lock_until_ms == pit.emergency_lock_until_ms,
        pit@.force_idle_until_ms == pit.force_idle_until_ms,
        pit@.last_pit_time_ms == pit.last_pit_time_ms,
        pit@.last_pit_source == pit.last_pit_source,
        pit@.last_pit_lap == pit.last_pit_lap,
        pit@.next_pit_tire_type == pit.next_pit_tire_type,
        pit@.history == pit.history@,
        pit@.was_fix_stationary_full_pit == pit.was_fix_stationary_full_pit,
        pit@.emergency_intent_pending == pit.emergency_intent_pending,
        shown@.pit_request_active == shown.pit_request_active,
        shown@.emergency_lock_remaining_ms == shown.emergency_lock_remaining_ms,
        shown@.force_idle == shown.force_idle,
        shown@.last_pit_time_ms == shown.last_pit_time_ms,
        shown@.last_pit_source == shown.last_pit_source,
        shown@.last_pit_lap == shown.last_pit_lap,
        shown@.next_pit_tire_type == shown.next_pit_tire_type,
        shown@.history == shown.history@,
        identity@.subject == opt_text(identity.subject),
        identity@.team_id == opt_text(identity.team_id),
        identity@.instance_uuid == opt_text(identity.instance_uuid),
        identity@.local_bot_index == identity.local_bot_index,
        identity@.local_race_display_name == opt_text(identity.local_race_display_name),
        identity@.local_race_participant_index == identity.local_race_participant_index,
        identity@.official_race_start_position_index == identity.official_race_start_position_index,
{
}

} // verus!
