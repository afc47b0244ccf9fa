//! Frames: what is known of all cars and sessions at one tick.
//!
//! A frame is collected in two steps. The plan says what is to be read from the
//! engine; the frame is put together from what the engine answered.

use vstd::prelude::*;
use crate::engine::{
    opt_text, EngineActiveSandboxState, EngineActivityKind, EngineCommandTarget, EngineRuntimeState,
    TargetView,
};
use crate::float_bits::{F32Bits, ZERO_BITS};
use crate::race::runtime_store::{
    no_record, opt_identity, IdentityView, RaceRuntimeStore, RuntimeCarIdentity, StoreView,
    VehiclePitReading,
};
use crate::text;
use crate::text_map::TextMap;

verus! {

/// How far a car has come in the race.
#[derive(Clone, Copy, PartialEq, Eq, Debug, Structural)]
pub struct VehicleRaceMetrics {
    pub completed_laps: u32,
    pub lap_progress_m: F32Bits,
    pub last_lap_time_ms: Option<u32>,
    pub best_lap_time_ms: Option<u32>,
}

/// The metrics of a car of which the engine has no data yet.
pub open spec fn no_metrics() -> VehicleRaceMetrics {
    VehicleRaceMetrics {
        completed_laps: 0,
        lap_progress_m: F32Bits { bits: ZERO_BITS },
        last_lap_time_ms: None,
        best_lap_time_ms: None,
    }
}

impl Default for VehicleRaceMetrics {
    fn default() -> (r: Self)
        ensures
            r == no_metrics(),
    {
        VehicleRaceMetrics {
            completed_laps: 0,
            lap_progress_m: F32Bits { bits: ZERO_BITS },
            last_lap_time_ms: None,
            best_lap_time_ms: None,
        }
    }
}

/// A car's state in the engine: what the rules look at, and the telemetry that is
/// passed on as it is.
#[derive(Debug)]
pub struct VehicleState<T> {
    pub in_any_pit_zone: bool,
    pub pit: VehiclePitReading,
    pub telemetry: T,
}

/// One car in a frame.
#[derive(Debug)]
pub struct RuntimeCarFrame<T> {
    pub public_car_id: u64,
    pub engine_car_id: u64,
    pub target: EngineCommandTarget,
    pub state: VehicleState<T>,
    pub race_metrics: Option<VehicleRaceMetrics>,
    pub last_client_seq: u64,
    pub identity: Option<RuntimeCarIdentity>,
}

/// One car in a frame, by views.
pub struct CarFrameView<T> {
    pub public_car_id: u64,
    pub engine_car_id: u64,
    pub target: TargetView,
    pub state: VehicleState<T>,
    pub race_metrics: Option<VehicleRaceMetrics>,
    pub last_client_seq: u64,
    pub identity: Option<IdentityView>,
}

impl<T> View for RuntimeCarFrame<T> {
    type V = CarFrameView<T>;

    open spec fn view(&self) -> CarFrameView<T> {
        CarFrameView {
            public_car_id: self.public_car_id,
            engine_car_id: self.engine_car_id,
            target: self.target@,
            state: self.state,
            race_metrics: self.race_metrics,
            last_client_seq: self.last_client_seq,
            identity: opt_identity(self.identity),
        }
    }
}

/// What is known of all cars and sessions at one tick. The cars come in the
/// ascending order of their ids.
#[derive(Debug)]
pub struct RuntimeFrame<T> {
    pub tick: u64,
    pub server_time_ms: u64,
    pub runtime_state: Option<EngineRuntimeState>,
    pub cars: Vec<RuntimeCarFrame<T>>,
    pub official_race_duration_s: Option<F32Bits>,
    pub sandbox_race_duration_s: TextMap<F32Bits>,
    pub official_lap_length_m: Option<F32Bits>,
    pub sandbox_lap_length_m: TextMap<F32Bits>,
}

/// The ids of the cars ascend strictly.
pub open spec fn cars_ascend<T>(cars: Seq<RuntimeCarFrame<T>>) -> bool {
    forall|i: int, j: int|
        #![trigger cars[i], cars[j]]
        0 <= i < j < cars.len() ==> cars[i].public_car_id < cars[j].public_car_id
}

/// The number of a tick after `tick`; the count wraps round.
pub open spec fn tick_after(tick: u64) -> u64 {
    if tick == u64::MAX {
        0
    } else {
        (tick + 1) as u64
    }
}

pub fn next_tick(tick: u64) -> (r: u64)
    ensures
        r == tick_after(tick),
{
    if tick == u64::MAX {
        0
    } else {
        tick + 1
    }
}

/// A car to be read from the engine.
#[derive(Debug)]
pub struct CarRead {
    pub public_car_id: u64,
    pub engine_car_id: u64,
    pub target: EngineCommandTarget,
}

/// What the engine answered when asked for a car's state.
#[derive(Debug)]
pub enum StateReply<T> {
    State(VehicleState<T>),
    NotFound,
    Failed,
}

/// What the engine answered when asked for a car's race metrics.
#[derive(Debug)]
pub enum MetricsReply {
    Metrics(VehicleRaceMetrics),
    NoData,
    NotFound,
    Failed,
    NotRead,
}

#[derive(Debug)]
pub struct CarReply<T> {
    pub state: StateReply<T>,
    pub metrics: MetricsReply,
}

impl StoreView {
    /// The car is registered with a session and an engine car.
    pub open spec fn is_mapped(self, car_id: u64) -> bool {
        self.record(car_id).target is Some && self.record(car_id).engine_car_id is Some
    }

    /// The store without any of the cars. An instance loses its car where the car
    /// goes and the instance owns it.
    pub open spec fn without_cars(self, gone: Set<u64>) -> StoreView {
        StoreView {
            cars: self.cars.remove_keys(gone),
            instance_cars: Map::new(
                |u: Seq<char>|
                    self.instance_cars.contains_key(u) && !(gone.contains(self.instance_cars[u])
                        && self.record(self.instance_cars[u]).owner == Some(u)),
                |u: Seq<char>| self.instance_cars[u],
            ),
            ..self
        }
    }
}

/// Taking cars out one after the other is taking them out together.
pub proof fn removals_add_up(s: StoreView, gone: Set<u64>, car_id: u64)
    ensures
        s.without_cars(Set::empty()) == s,
        s.without_cars(gone).without_car(car_id) == s.without_cars(gone.insert(car_id)),
{
    let none = s.without_cars(Set::empty());
    assert(none.cars =~= s.cars);
    assert(none.instance_cars =~= s.instance_cars);
    let step = s.without_cars(gone);
    let a = step.without_car(car_id);
    let b = s.without_cars(gone.insert(car_id));
    assert(a.cars =~= b.cars);
    if !gone.contains(car_id) {
        assert(step.record(car_id) == s.record(car_id));
    } else {
        assert(step.record(car_id) == no_record());
    }
    assert(a.instance_cars =~= b.instance_cars);
}

/// Taking a set of cars out leaves every other car's record as it was.
pub proof fn other_cars_stay(s: StoreView, gone: Set<u64>, other: u64)
    ensures
        !gone.contains(other) ==> s.without_cars(gone).record(other) == s.record(other),
        gone.contains(other) ==> s.without_cars(gone).record(other) == no_record(),
{
}

pub open spec fn reads_ascend(reads: Seq<CarRead>) -> bool {
    forall|i: int, j: int|
        #![trigger reads[i], reads[j]]
        0 <= i < j < reads.len() ==> reads[i].public_car_id < reads[j].public_car_id
}

/// `reads` holds each known car that is registered, in ascending order, as it is
/// registered in `s`.
pub open spec fn reads_match(reads: Seq<CarRead>, s: StoreView) -> bool {
    &&& reads_ascend(reads)
    &&& forall|i: int|
        0 <= i < reads.len() ==> {
            let read = #[trigger] reads[i];
            &&& s.record(read.public_car_id).known
            &&& s.record(read.public_car_id).target == Some(read.target@)
            &&& s.record(read.public_car_id).engine_car_id == Some(read.engine_car_id)
        }
    &&& forall|c: u64|
        (#[trigger] s.record(c)).known && s.is_mapped(c) ==> exists|i: int|
            0 <= i < reads.len() && (#[trigger] reads[i]).public_car_id == c
}

/// The known cars that are not registered with a session and an engine car.
pub open spec fn stray_cars(s: StoreView) -> Set<u64> {
    Set::new(|c: u64| s.record(c).known && !s.is_mapped(c))
}

/// The cars to be read from the engine. A known car that is not registered with a
/// session and an engine car is taken out of the store.
pub fn plan_car_reads(store: &mut RaceRuntimeStore) -> (reads: Vec<CarRead>)
    ensures
        reads_match(reads@, old(store)@),
        final(store)@ == old(store)@.without_cars(stray_cars(old(store)@)),
{
    let ids: Vec<u64> = store.known_car_ids();
    let mut reads: Vec<CarRead> = Vec::new();
    let ghost first = store@;
    let ghost mut gone: Set<u64> = Set::empty();
    proof {
        removals_add_up(first, gone, 0);
    }
    let mut i: usize = 0;
    while i < ids.len()
        invariant
            i <= ids@.len(),
            forall|a: int, b: int| 0 <= a < b < ids@.len() ==> ids@[a] < ids@[b],
            forall|c: u64| #[trigger] ids@.contains(c) <==> first.record(c).known,
            store@ == first.without_cars(gone),
            forall|c: u64| #[trigger]
                gone.contains(c) <==> exists|a: int|
                    0 <= a < i && #[trigger] ids@[a] == c && !first.is_mapped(c),
            reads_ascend(reads@),
            forall|k: int|
                0 <= k < reads@.len() ==> {
                    let read = #[trigger] reads@[k];
                    &&& first.record(read.public_car_id).known
                    &&& first.record(read.public_car_id).target == Some(read.target@)
                    &&& first.record(read.public_car_id).engine_car_id == Some(read.engine_car_id)
                    &&& i > 0 && read.public_car_id <= ids@[i - 1]
                },
            forall|a: int|
                0 <= a < i && first.is_mapped(#[trigger] ids@[a]) ==> exists|k: int|
                    0 <= k < reads@.len() && (#[trigger] reads@[k]).public_car_id == ids@[a],
        decreases ids@.len() - i,
    {
        let id: u64 = ids[i];
        let ghost before = reads@;
        proof {
            assert(ids@.contains(id));
            if gone.contains(id) {
                let a = choose|a: int| 0 <= a < i && #[trigger] ids@[a] == id && !first.is_mapped(id);
                assert(ids@[a] < ids@[i as int]);
            }
            other_cars_stay(first, gone, id);
        }
        let target: Option<EngineCommandTarget> = store.car_target(id);
        let engine_car_id: Option<u64> = store.car_engine_id(id);
        match (target, engine_car_id) {
            (Some(target), Some(engine_car_id)) => {
                let ghost read = CarRead { public_car_id: id, engine_car_id, target };
                reads.push(CarRead { public_car_id: id, engine_car_id, target });
                proof {
                    assert(reads@ =~= before.push(read));
                    assert forall|a: int|
                        0 <= a < i + 1 && first.is_mapped(#[trigger] ids@[a]) implies exists|k: int|
                        0 <= k < reads@.len() && (#[trigger] reads@[k]).public_car_id == ids@[a] by {
                        if a < i {
                            let k = choose|k: int|
                                0 <= k < before.len() && (#[trigger] before[k]).public_car_id
                                    == ids@[a];
                            assert(reads@[k].public_car_id == ids@[a]);
                        } else {
                            assert(reads@[before.len() as int].public_car_id == ids@[a]);
                        }
                    }
                    assert forall|c: u64| #[trigger] gone.contains(c) implies exists|a: int|
                        0 <= a < i + 1 && #[trigger] ids@[a] == c && !first.is_mapped(c) by {
                        let a = choose|a: int|
                            0 <= a < i && #[trigger] ids@[a] == c && !first.is_mapped(c);
                        assert(ids@[a] == c);
                    }
                }
            },
            _ => {
                store.remove_car(id);
                proof {
                    removals_add_up(first, gone, id);
                    let wider = gone.insert(id);
                    assert forall|c: u64| #[trigger] wider.contains(c) <==> exists|a: int|
                        0 <= a < i + 1 && #[trigger] ids@[a] == c && !first.is_mapped(c) by {
                        if gone.contains(c) {
                            let a = choose|a: int|
                                0 <= a < i && #[trigger] ids@[a] == c && !first.is_mapped(c);
                            assert(ids@[a] == c);
                        }
                        if c == id {
                            assert(ids@[i as int] == c);
                        }
                    }
                    gone = wider;
                }
            },
        }
        i += 1;
    }
    proof {
        assert(gone =~= stray_cars(first)) by {
            assert forall|c: u64| gone.contains(c) <==> stray_cars(first).contains(c) by {
                if stray_cars(first).contains(c) {
                    assert(ids@.contains(c));
                    let a = choose|a: int| 0 <= a < ids@.len() && ids@[a] == c;
                    assert(ids@[a] == c);
                }
                if gone.contains(c) {
                    assert(ids@.contains(c));
                }
            }
        }
        assert forall|c: u64|
            (#[trigger] first.record(c)).known && first.is_mapped(c) implies exists|k: int|
            0 <= k < reads@.len() && (#[trigger] reads@[k]).public_car_id == c by {
            assert(ids@.contains(c));
            let a = choose|a: int| 0 <= a < ids@.len() && ids@[a] == c;
            assert(first.is_mapped(ids@[a]));
        }
    }
    reads
}

/// What becomes of a car after the engine's answer.
pub enum CarOutcome {
    /// The engine does not have the car any more.
    Gone,
    /// Its state could not be read; it is left out of this frame.
    LeftOut,
    /// It is in the frame, with these metrics.
    Shown(Option<VehicleRaceMetrics>),
}

pub open spec fn car_outcome<T>(read: CarRead, reply: CarReply<T>) -> CarOutcome {
    match reply.state {
        StateReply::NotFound => CarOutcome::Gone,
        StateReply::Failed => CarOutcome::LeftOut,
        StateReply::State(_) => if read.target is OfficialRace {
            match reply.metrics {
                MetricsReply::Metrics(m) => CarOutcome::Shown(Some(m)),
                MetricsReply::NoData => CarOutcome::Shown(Some(no_metrics())),
                MetricsReply::NotFound => CarOutcome::Gone,
                MetricsReply::Failed => CarOutcome::Shown(None),
                MetricsReply::NotRead => CarOutcome::Shown(None),
            }
        } else {
            CarOutcome::Shown(None)
        },
    }
}

/// The last message number of the car's driver, 0 before the first.
pub open spec fn last_seq(s: StoreView, car_id: u64) -> u64 {
    match s.record(car_id).last_client_seq {
        Some(seq) => seq,
        None => 0,
    }
}

/// The cars that the first `n` answers put into the frame.
pub open spec fn shown_cars<T>(
    reads: Seq<CarRead>,
    replies: Seq<CarReply<T>>,
    s: StoreView,
    n: int,
) -> Seq<CarFrameView<T>>
    decreases n,
{
    if n <= 0 {
        Seq::empty()
    } else {
        let rest = shown_cars(reads, replies, s, n - 1);
        let read = reads[n - 1];
        match car_outcome(read, replies[n - 1]) {
            CarOutcome::Shown(metrics) => rest.push(
                CarFrameView {
                    public_car_id: read.public_car_id,
                    engine_car_id: read.engine_car_id,
                    target: read.target@,
                    state: replies[n - 1].state->State_0,
                    race_metrics: metrics,
                    last_client_seq: last_seq(s, read.public_car_id),
                    identity: s.record(read.public_car_id).identity,
                },
            ),
            _ => rest,
        }
    }
}

/// The cars that the engine does not have any more, after `n` answers.
pub open spec fn gone_cars<T>(reads: Seq<CarRead>, replies: Seq<CarReply<T>>, n: int) -> Set<u64> {
    Set::new(
        |c: u64|
            exists|i: int|
                0 <= i < n && (#[trigger] reads[i]).public_car_id == c && car_outcome(
                    reads[i],
                    replies[i],
                ) is Gone,
    )
}

/// The cars as they stand in the frame.
pub open spec fn car_views<T>(cars: Seq<RuntimeCarFrame<T>>) -> Seq<CarFrameView<T>> {
    Seq::new(cars.len(), |i: int| cars[i]@)
}

/// Puts the cars of a frame together from the engine's answers, one for each car
/// that was read. A car that the engine does not have any more leaves the store.
pub fn collect_cars<T>(
    store: &mut RaceRuntimeStore,
    reads: Vec<CarRead>,
    replies: Vec<CarReply<T>>,
) -> (cars: Vec<RuntimeCarFrame<T>>)
    requires
        reads@.len() == replies@.len(),
        reads_ascend(reads@),
    ensures
        car_views(cars@) == shown_cars(reads@, replies@, old(store)@, reads@.len() as int),
        cars_ascend(cars@),
        final(store)@ == old(store)@.without_cars(
            gone_cars(reads@, replies@, reads@.len() as int),
        ),
{
    let mut cars: Vec<RuntimeCarFrame<T>> = Vec::new();
    let mut waiting_reads: Vec<CarRead> = reads;
    let mut waiting: Vec<CarReply<T>> = replies;
    let ghost first = store@;
    let ghost all = reads@;
    let ghost answers = replies@;
    let ghost mut n: int = 0;
    proof {
        removals_add_up(first, Set::empty(), 0);
        assert(gone_cars(all, answers, 0) =~= Set::empty());
        assert(car_views(cars@) =~= shown_cars(all, answers, first, 0));
        assert(all.subrange(0, all.len() as int) =~= all);
        assert(answers.subrange(0, answers.len() as int) =~= answers);
    }
    while waiting.len() > 0
        invariant
            all.len() == answers.len(),
            reads_ascend(all),
            0 <= n <= all.len(),
            waiting_reads@ == all.subrange(n, all.len() as int),
            waiting@ == answers.subrange(n, all.len() as int),
            car_views(cars@) == shown_cars(all, answers, first, n),
            cars_ascend(cars@),
            forall|k: int|
                0 <= k < cars@.len() ==> n > 0 && (#[trigger] cars@[k]).public_car_id <= all[n
                    - 1].public_car_id,
            store@ == first.without_cars(gone_cars(all, answers, n)),
        decreases waiting@.len(),
    {
        let reply: CarReply<T> = waiting.remove(0);
        let read: CarRead = waiting_reads.remove(0);
        let ghost before = cars@;
        let ghost gone = gone_cars(all, answers, n);
        proof {
            assert(read == all[n] && reply == answers[n]);
            assert(waiting@ =~= answers.subrange(n + 1, all.len() as int));
            assert(waiting_reads@ =~= all.subrange(n + 1, all.len() as int));
            if gone.contains(read.public_car_id) {
                let i = choose|i: int|
                    0 <= i < n && (#[trigger] all[i]).public_car_id == read.public_car_id
                        && car_outcome(all[i], answers[i]) is Gone;
                assert(all[i].public_car_id < all[n].public_car_id);
            }
            other_cars_stay(first, gone, read.public_car_id);
            lemma_gone_step(all, answers, n);
            removals_add_up(first, gone, read.public_car_id);
            if n > 0 {
                assert(all[n - 1].public_car_id < all[n].public_car_id);
            }
        }
        match reply.state {
            StateReply::NotFound => {
                store.remove_car(read.public_car_id);
            },
            StateReply::Failed => {},
            StateReply::State(state) => {
                let shown: Option<Option<VehicleRaceMetrics>> = if read.target.is_official_race() {
                    match reply.metrics {
                        MetricsReply::Metrics(m) => Some(Some(m)),
                        MetricsReply::NoData => Some(Some(VehicleRaceMetrics::default())),
                        MetricsReply::NotFound => None,
                        MetricsReply::Failed => Some(None),
                        MetricsReply::NotRead => Some(None),
                    }
                } else {
                    Some(None)
                };
                match shown {
                    None => {
                        store.remove_car(read.public_car_id);
                    },
                    Some(race_metrics) => {
                        let last_client_seq: u64 = store.car_last_client_seq(read.public_car_id);
                        let identity: Option<RuntimeCarIdentity> = store.car_identity(
                            read.public_car_id,
                        );
                        cars.push(
                            RuntimeCarFrame {
                                public_car_id: read.public_car_id,
                                engine_car_id: read.engine_car_id,
                                target: read.target,
                                state,
                                race_metrics,
                                last_client_seq,
                                identity,
                            },
                        );
                        proof {
                            assert(car_views(cars@) =~= car_views(before).push(
                                cars@[before.len() as int]@,
                            ));
                        }
                    },
                }
            },
        }
        proof {
            n = n + 1;
            assert(car_views(cars@) =~= shown_cars(all, answers, first, n));
        }
    }
    cars
}

proof fn lemma_gone_step<T>(reads: Seq<CarRead>, replies: Seq<CarReply<T>>, n: int)
    requires
        0 <= n < reads.len(),
    ensures
        car_outcome(reads[n], replies[n]) is Gone ==> gone_cars(reads, replies, n + 1) == gone_cars(
            reads,
            replies,
            n,
        ).insert(reads[n].public_car_id),
        !(car_outcome(reads[n], replies[n]) is Gone) ==> gone_cars(reads, replies, n + 1)
            == gone_cars(reads, replies, n),
{
    let small = gone_cars(reads, replies, n);
    let big = gone_cars(reads, replies, n + 1);
    assert forall|c: u64| small.contains(c) implies big.contains(c) by {
        let i = choose|i: int|
            0 <= i < n && (#[trigger] reads[i]).public_car_id == c && car_outcome(
                reads[i],
                replies[i],
            ) is Gone;
        assert(reads[i].public_car_id == c);
    }
    assert forall|c: u64| big.contains(c) implies small.contains(c) || (c == reads[n].public_car_id
        && car_outcome(reads[n], replies[n]) is Gone) by {
        let i = choose|i: int|
            0 <= i < n + 1 && (#[trigger] reads[i]).public_car_id == c && car_outcome(
                reads[i],
                replies[i],
            ) is Gone;
        if i < n {
            assert(reads[i].public_car_id == c);
        }
    }
    if car_outcome(reads[n], replies[n]) is Gone {
        assert(big.contains(reads[n].public_car_id)) by {
            assert(reads[n].public_car_id == reads[n].public_car_id);
        }
        assert(big =~= small.insert(reads[n].public_car_id));
    } else {
        assert(big =~= small);
    }
}

/// The lap length of a sandbox's map.
#[derive(Debug)]
pub struct SandboxLap {
    pub map_id: String,
    pub lap_length_m: F32Bits,
}

/// Lap lengths that need not be read again while the maps stay the same.
#[derive(Debug)]
pub struct FrameCollectorCache {
    pub official_map_id: Option<String>,
    pub official_lap_length_m: Option<F32Bits>,
    pub sandbox_laps: TextMap<SandboxLap>,
}

impl FrameCollectorCache {
    /// Map and lap length held for the sandbox.
    pub open spec fn lap_of(self, sandbox_id: Seq<char>) -> Option<(Seq<char>, F32Bits)> {
        if self.sandbox_laps@.contains_key(sandbox_id) {
            let lap = self.sandbox_laps@[sandbox_id];
            Some((lap.map_id@, lap.lap_length_m))
        } else {
            None
        }
    }

    pub fn new() -> (r: Self)
        ensures
            r.official_map_id is None,
            r.official_lap_length_m is None,
            forall|id: Seq<char>| (#[trigger] r.lap_of(id)) is None,
    {
        FrameCollectorCache {
            official_map_id: None,
            official_lap_length_m: None,
            sandbox_laps: TextMap::new(),
        }
    }
}

/// The map of each running sandbox; of two with the same id the later one counts.
pub open spec fn active_maps(s: Seq<EngineActiveSandboxState>) -> Map<
    Seq<char>,
    Seq<char>,
>
    decreases s.len(),
{
    if s.len() == 0 {
        Map::empty()
    } else {
        active_maps(s.drop_last()).insert(s.last().sandbox_id@, s.last().map_id@)
    }
}

/// A sandbox to be read from the engine.
#[derive(Debug)]
pub struct SandboxRead {
    pub sandbox_id: String,
    pub map_id: String,
    pub read_track: bool,
}

/// What is to be read from the engine for a frame.
#[derive(Debug)]
pub struct FramePlan {
    pub tick: u64,
    pub server_time_ms: u64,
    pub runtime_state: Option<EngineRuntimeState>,
    pub read_official_duration: bool,
    pub read_official_track: bool,
    pub sandboxes: Vec<SandboxRead>,
    pub cars: Vec<CarRead>,
}

pub open spec fn sandbox_reads_differ(reads: Seq<SandboxRead>) -> bool {
    forall|i: int, j: int|
        #![trigger reads[i], reads[j]]
        0 <= i < j < reads.len() ==> reads[i].sandbox_id@ != reads[j].sandbox_id@
}

/// Whether an official race is running.
pub open spec fn is_official_state(state: Option<EngineRuntimeState>) -> bool {
    state is Some && state->Some_0.activity_kind == EngineActivityKind::OfficialRace
}

/// The running sandboxes of a state that may be unknown.
pub open spec fn known_maps(state: Option<EngineRuntimeState>) -> Map<Seq<char>, Seq<char>> {
    match state {
        Some(state) => active_maps(state.active_sandboxes@),
        None => Map::empty(),
    }
}

/// `reads` names each running sandbox once, and asks for the track where the cache
/// does not hold the lap length of its map.
pub open spec fn sandbox_reads_match(
    reads: Seq<SandboxRead>,
    maps: Map<Seq<char>, Seq<char>>,
    cache: FrameCollectorCache,
) -> bool {
    &&& sandbox_reads_differ(reads)
    &&& forall|i: int|
        0 <= i < reads.len() ==> {
            let read = #[trigger] reads[i];
            &&& maps.contains_key(read.sandbox_id@)
            &&& maps[read.sandbox_id@] == read.map_id@
            &&& read.read_track <==> !(cache.lap_of(read.sandbox_id@) is Some && cache.lap_of(
                read.sandbox_id@,
            )->Some_0.0 == read.map_id@)
        }
    &&& forall|id: Seq<char>| #[trigger]
        maps.contains_key(id) ==> exists|i: int|
            0 <= i < reads.len() && (#[trigger] reads[i]).sandbox_id@ == id
}

impl FramePlan {
    /// The plan can be carried out: it names no car and no sandbox twice, and asks
    /// for an official track only where an official race runs.
    pub open spec fn is_sound(self) -> bool {
        &&& reads_ascend(self.cars@)
        &&& sandbox_reads_differ(self.sandboxes@)
        &&& self.read_official_track ==> self.read_official_duration
        &&& self.read_official_duration ==> self.runtime_state is Some
    }
}

fn copy_active_maps(sandboxes: &Vec<EngineActiveSandboxState>) -> (r: TextMap<
    String,
>)
    ensures
        forall|id: Seq<char>| #[trigger]
            r@.contains_key(id) <==> active_maps(sandboxes@).contains_key(id),
        forall|id: Seq<char>| #[trigger]
            r@.contains_key(id) ==> r@[id]@ == active_maps(sandboxes@)[id],
{
    let mut r: TextMap<String> = TextMap::new();
    let mut i: usize = 0;
    proof {
        assert(sandboxes@.subrange(0, 0) =~= Seq::empty());
    }
    while i < sandboxes.len()
        invariant
            i <= sandboxes@.len(),
            forall|id: Seq<char>| #[trigger]
                r@.contains_key(id) <==> active_maps(
                    sandboxes@.subrange(0, i as int),
                ).contains_key(id),
            forall|id: Seq<char>| #[trigger]
                r@.contains_key(id) ==> r@[id]@ == active_maps(
                    sandboxes@.subrange(0, i as int),
                )[id],
        decreases sandboxes@.len() - i,
    {
        proof {
            let longer = sandboxes@.subrange(0, i + 1);
            assert(longer.drop_last() =~= sandboxes@.subrange(0, i as int));
            assert(longer.last() == sandboxes@[i as int]);
        }
        r.insert(sandboxes[i].sandbox_id.clone(), sandboxes[i].map_id.clone());
        i += 1;
    }
    proof {
        assert(sandboxes@.subrange(0, sandboxes@.len() as int) =~= sandboxes@);
    }
    r
}

fn plan_sandbox_reads(maps: &TextMap<String>, cache: &FrameCollectorCache) -> (reads: Vec<
    SandboxRead,
>)
    ensures
        sandbox_reads_match(reads@, maps@.map_values(|m: String| m@), *cache),
{
    let keys: Vec<String> = maps.keys();
    let mut reads: Vec<SandboxRead> = Vec::new();
    let ghost views = maps@.map_values(|m: String| m@);
    let mut i: usize = 0;
    while i < keys.len()
        invariant
            i <= keys@.len(),
            keys@.len() == maps.keys_in_order().len(),
            forall|k: int|
                0 <= k < keys@.len() ==> (#[trigger] keys@[k])@ == maps.keys_in_order()[k],
            maps.keys_in_order().no_duplicates(),
            forall|k: Seq<char>| #[trigger]
                maps.keys_in_order().contains(k) <==> maps@.contains_key(k),
            views == maps@.map_values(|m: String| m@),
            reads@.len() == i,
            forall|k: int|
                0 <= k < i ==> {
                    let read = #[trigger] reads@[k];
                    &&& read.sandbox_id@ == maps.keys_in_order()[k]
                    &&& views.contains_key(read.sandbox_id@)
                    &&& views[read.sandbox_id@] == read.map_id@
                    &&& read.read_track <==> !(cache.lap_of(read.sandbox_id@) is Some
                        && cache.lap_of(read.sandbox_id@)->Some_0.0 == read.map_id@)
                },
        decreases keys@.len() - i,
    {
        let key: &str = keys[i].as_str();
        assert(maps.keys_in_order().contains(key@)) by {
            assert(maps.keys_in_order()[i as int] == key@);
        }
        match maps.get(key) {
            Some(map_id) => {
                let held: bool = match cache.sandbox_laps.get(key) {
                    Some(lap) => text::str_eq(lap.map_id.as_str(), map_id.as_str()),
                    None => false,
                };
                reads.push(
                    SandboxRead {
                        sandbox_id: key.to_owned(),
                        map_id: map_id.clone(),
                        read_track: !held,
                    },
                );
            },
            None => {
                assert(false);
            },
        }
        i += 1;
    }
    proof {
        assert forall|id: Seq<char>| #[trigger] views.contains_key(id) implies exists|k: int|
            0 <= k < reads@.len() && (#[trigger] reads@[k]).sandbox_id@ == id by {
            assert(maps@.contains_key(id));
            assert(maps.keys_in_order().contains(id));
            let k = choose|k: int|
                0 <= k < maps.keys_in_order().len() && maps.keys_in_order()[k] == id;
            assert(reads@[k].sandbox_id@ == id);
        }
    }
    reads
}

/// Drops from the cache what belongs to sandboxes that do not run any more.
fn retain_active(cache: &mut FrameCollectorCache, maps: &TextMap<String>)
    ensures
        final(cache).official_map_id == old(cache).official_map_id,
        final(cache).official_lap_length_m == old(cache).official_lap_length_m,
        forall|id: Seq<char>| #[trigger]
            final(cache).lap_of(id) == if maps@.contains_key(id) {
                old(cache).lap_of(id)
            } else {
                None
            },
{
    let keys: Vec<String> = cache.sandbox_laps.keys();
    let ghost first = *cache;
    let mut i: usize = 0;
    while i < keys.len()
        invariant
            i <= keys@.len(),
            keys@.len() == first.sandbox_laps.keys_in_order().len(),
            forall|k: int|
                0 <= k < keys@.len() ==> (#[trigger] keys@[k])@
                    == first.sandbox_laps.keys_in_order()[k],
            cache.official_map_id == first.official_map_id,
            cache.official_lap_length_m == first.official_lap_length_m,
            forall|id: Seq<char>| #[trigger]
                cache.lap_of(id) == if (exists|k: int|
                    0 <= k < i && (#[trigger] keys@[k])@ == id) && !maps@.contains_key(id) {
                    None
                } else {
                    first.lap_of(id)
                },
        decreases keys@.len() - i,
    {
        let ghost before = *cache;
        if !maps.contains_key(keys[i].as_str()) {
            let _ = cache.sandbox_laps.remove(keys[i].as_str());
        }
        proof {
            assert forall|id: Seq<char>| #[trigger]
                cache.lap_of(id) == if (exists|k: int|
                    0 <= k < i + 1 && (#[trigger] keys@[k])@ == id) && !maps@.contains_key(id) {
                    None
                } else {
                    first.lap_of(id)
                } by {
                assert(before.lap_of(id) == if (exists|k: int|
                    0 <= k < i && (#[trigger] keys@[k])@ == id) && !maps@.contains_key(id) {
                    None
                } else {
                    first.lap_of(id)
                });
                if keys@[i as int]@ == id {
                    assert(exists|k: int| 0 <= k < i + 1 && (#[trigger] keys@[k])@ == id);
                }
                if exists|k: int| 0 <= k < i && (#[trigger] keys@[k])@ == id {
                    let k = choose|k: int| 0 <= k < i && (#[trigger] keys@[k])@ == id;
                    assert(keys@[k]@ == id);
                }
            }
        }
        i += 1;
    }
    proof {
        assert forall|id: Seq<char>| #[trigger]
            cache.lap_of(id) == if maps@.contains_key(id) {
                first.lap_of(id)
            } else {
                None
            } by {
            if first.sandbox_laps@.contains_key(id) {
                assert(first.sandbox_laps.keys_in_order().contains(id));
                let k = choose|k: int|
                    0 <= k < first.sandbox_laps.keys_in_order().len()
                        && first.sandbox_laps.keys_in_order()[k] == id;
                assert(keys@[k]@ == id);
            }
        }
    }
}

/// What is to be read from the engine for the frame of a tick. Stray cars leave
/// the store, and what is cached of sandboxes that have ended is dropped.
pub fn plan_frame(
    store: &mut RaceRuntimeStore,
    cache: &mut FrameCollectorCache,
    tick: u64,
    server_time_ms: u64,
    runtime_state: Option<EngineRuntimeState>,
) -> (plan: FramePlan)
    ensures
        plan.is_sound(),
        plan.tick == tick,
        plan.server_time_ms == server_time_ms,
        plan.runtime_state == runtime_state,
        plan.read_official_duration <==> is_official_state(runtime_state),
        plan.read_official_track <==> is_official_state(runtime_state) && opt_text(
            old(cache).official_map_id,
        ) != Some(runtime_state->Some_0.map_id@),
        sandbox_reads_match(plan.sandboxes@, known_maps(runtime_state), *old(cache)),
        final(cache).official_map_id == old(cache).official_map_id,
        final(cache).official_lap_length_m == old(cache).official_lap_length_m,
        forall|id: Seq<char>| #[trigger]
            final(cache).lap_of(id) == if runtime_state is None || known_maps(
                runtime_state,
            ).contains_key(id) {
                old(cache).lap_of(id)
            } else {
                None
            },
        reads_match(plan.cars@, old(store)@),
        final(store)@ == old(store)@.without_cars(stray_cars(old(store)@)),
{
    let mut read_official_duration: bool = false;
    let mut read_official_track: bool = false;
    let mut sandboxes: Vec<SandboxRead> = Vec::new();
    match &runtime_state {
        Some(state) => {
            if state.activity_kind == EngineActivityKind::OfficialRace {
                read_official_duration = true;
                read_official_track = match &cache.official_map_id {
                    Some(map_id) => !text::str_eq(map_id.as_str(), state.map_id.as_str()),
                    None => true,
                };
            }
            let maps: TextMap<String> = copy_active_maps(&state.active_sandboxes);
            let ghost views = maps@.map_values(|m: String| m@);
            proof {
                assert(views =~= active_maps(state.active_sandboxes@));
            }
            sandboxes = plan_sandbox_reads(&maps, cache);
            retain_active(cache, &maps);
        },
        None => {},
    }
    let cars: Vec<CarRead> = plan_car_reads(store);
    FramePlan {
        tick,
        server_time_ms,
        runtime_state,
        read_official_duration,
        read_official_track,
        sandboxes,
        cars,
    }
}

/// What the engine answered for a sandbox: nothing where a read failed or was not
/// asked for.
#[derive(Clone, Copy, Debug)]
pub struct SandboxReply {
    pub race_duration_s: Option<F32Bits>,
    pub lap_length_m: Option<F32Bits>,
}

/// What the engine answered to a plan.
#[derive(Debug)]
pub struct FrameReplies<T> {
    pub official_race_duration_s: Option<F32Bits>,
    pub official_lap_length_m: Option<F32Bits>,
    pub sandboxes: Vec<SandboxReply>,
    pub cars: Vec<CarReply<T>>,
}

/// Map and lap length of a sandbox after the answers.
pub open spec fn lap_after(
    reads: Seq<SandboxRead>,
    replies: Seq<SandboxReply>,
    cache: FrameCollectorCache,
    n: int,
    id: Seq<char>,
) -> Option<(Seq<char>, F32Bits)>
    decreases n,
{
    if n <= 0 {
        cache.lap_of(id)
    } else if reads[n - 1].sandbox_id@ == id && reads[n - 1].read_track && replies[n
        - 1].lap_length_m is Some {
        Some((reads[n - 1].map_id@, replies[n - 1].lap_length_m->Some_0))
    } else {
        lap_after(reads, replies, cache, n - 1, id)
    }
}

/// The durations that were read, by sandbox.
pub open spec fn durations_after(
    reads: Seq<SandboxRead>,
    replies: Seq<SandboxReply>,
    n: int,
) -> Map<Seq<char>, F32Bits>
    decreases n,
{
    if n <= 0 {
        Map::empty()
    } else {
        let rest = durations_after(reads, replies, n - 1);
        match replies[n - 1].race_duration_s {
            Some(duration) => rest.insert(reads[n - 1].sandbox_id@, duration),
            None => rest,
        }
    }
}

/// The lap lengths in the frame: those of the sandboxes that were read and whose
/// lap length is known after it.
pub open spec fn laps_shown(
    reads: Seq<SandboxRead>,
    replies: Seq<SandboxReply>,
    cache: FrameCollectorCache,
    n: int,
) -> Map<Seq<char>, F32Bits>
    decreases n,
{
    if n <= 0 {
        Map::empty()
    } else {
        let rest = laps_shown(reads, replies, cache, n - 1);
        let id = reads[n - 1].sandbox_id@;
        match lap_after(reads, replies, cache, n, id) {
            Some(lap) => rest.insert(id, lap.1),
            None => rest,
        }
    }
}

/// Puts a frame together from what the engine answered to its plan.
pub fn collect_frame<T>(
    store: &mut RaceRuntimeStore,
    cache: &mut FrameCollectorCache,
    plan: FramePlan,
    replies: FrameReplies<T>,
) -> (frame: RuntimeFrame<T>)
    requires
        plan.is_sound(),
        plan.sandboxes@.len() == replies.sandboxes@.len(),
        plan.cars@.len() == replies.cars@.len(),
    ensures
        frame.tick == plan.tick,
        frame.server_time_ms == plan.server_time_ms,
        frame.runtime_state == plan.runtime_state,
        frame.official_race_duration_s == if plan.read_official_duration {
            replies.official_race_duration_s
        } else {
            None
        },
        opt_text(final(cache).official_map_id) == if plan.read_official_track {
            Some(plan.runtime_state->Some_0.map_id@)
        } else {
            opt_text(old(cache).official_map_id)
        },
        final(cache).official_lap_length_m == if plan.read_official_track {
            replies.official_lap_length_m
        } else {
            old(cache).official_lap_length_m
        },
        frame.official_lap_length_m == if plan.read_official_duration {
            final(cache).official_lap_length_m
        } else {
            None
        },
        forall|id: Seq<char>| #[trigger]
            final(cache).lap_of(id) == lap_after(
                plan.sandboxes@,
                replies.sandboxes@,
                *old(cache),
                plan.sandboxes@.len() as int,
                id,
            ),
        frame.sandbox_race_duration_s@ == durations_after(
            plan.sandboxes@,
            replies.sandboxes@,
            plan.sandboxes@.len() as int,
        ),
        frame.sandbox_lap_length_m@ == laps_shown(
            plan.sandboxes@,
            replies.sandboxes@,
            *old(cache),
            plan.sandboxes@.len() as int,
        ),
        car_views(frame.cars@) == shown_cars(
            plan.cars@,
            replies.cars@,
            old(store)@,
            plan.cars@.len() as int,
        ),
        cars_ascend(frame.cars@),
        final(store)@ == old(store)@.without_cars(
            gone_cars(plan.cars@, replies.cars@, plan.cars@.len() as int),
        ),
{
    let ghost first = *cache;
    let mut official_race_duration_s: Option<F32Bits> = None;
    let mut official_lap_length_m: Option<F32Bits> = None;
    if plan.read_official_duration {
        official_race_duration_s = replies.official_race_duration_s;
        if plan.read_official_track {
            match &plan.runtime_state {
                Some(state) => {
                    cache.official_map_id = Some(state.map_id.clone());
                    cache.official_lap_length_m = replies.official_lap_length_m;
                },
                None => {},
            }
        }
        official_lap_length_m = cache.official_lap_length_m;
    }
    let ghost with_official = *cache;
    assert forall|id: Seq<char>| with_official.lap_of(id) == #[trigger] first.lap_of(id) by {}
    let mut durations: TextMap<F32Bits> = TextMap::new();
    let mut laps: TextMap<F32Bits> = TextMap::new();
    let mut i: usize = 0;
    while i < plan.sandboxes.len()
        invariant
            i <= plan.sandboxes@.len(),
            plan.sandboxes@.len() == replies.sandboxes@.len(),
            cache.official_map_id == with_official.official_map_id,
            cache.official_lap_length_m == with_official.official_lap_length_m,
            forall|id: Seq<char>| #[trigger]
                cache.lap_of(id) == lap_after(
                    plan.sandboxes@,
                    replies.sandboxes@,
                    first,
                    i as int,
                    id,
                ),
            durations@ == durations_after(plan.sandboxes@, replies.sandboxes@, i as int),
            laps@ == laps_shown(plan.sandboxes@, replies.sandboxes@, first, i as int),
        decreases plan.sandboxes@.len() - i,
    {
        let ghost before = *cache;
        let reply: SandboxReply = replies.sandboxes[i];
        match reply.race_duration_s {
            Some(duration) => {
                durations.insert(plan.sandboxes[i].sandbox_id.clone(), duration);
            },
            None => {},
        }
        if plan.sandboxes[i].read_track {
            match reply.lap_length_m {
                Some(lap_length_m) => {
                    cache.sandbox_laps.insert(
                        plan.sandboxes[i].sandbox_id.clone(),
                        SandboxLap { map_id: plan.sandboxes[i].map_id.clone(), lap_length_m },
                    );
                },
                None => {},
            }
        }
        proof {
            assert forall|id: Seq<char>| #[trigger]
                cache.lap_of(id) == lap_after(
                    plan.sandboxes@,
                    replies.sandboxes@,
                    first,
                    i + 1,
                    id,
                ) by {
                assert(before.lap_of(id) == lap_after(
                    plan.sandboxes@,
                    replies.sandboxes@,
                    first,
                    i as int,
                    id,
                ));
            }
            assert(cache.lap_of(plan.sandboxes@[i as int].sandbox_id@) == lap_after(
                plan.sandboxes@,
                replies.sandboxes@,
                first,
                i + 1,
                plan.sandboxes@[i as int].sandbox_id@,
            ));
        }
        match cache.sandbox_laps.get(plan.sandboxes[i].sandbox_id.as_str()) {
            Some(lap) => {
                laps.insert(plan.sandboxes[i].sandbox_id.clone(), lap.lap_length_m);
            },
            None => {},
        }
        i += 1;
    }
    let tick: u64 = plan.tick;
    let server_time_ms: u64 = plan.server_time_ms;
    let cars: Vec<RuntimeCarFrame<T>> = collect_cars(store, plan.cars, replies.cars);
    RuntimeFrame {
        tick,
        server_time_ms,
        runtime_state: plan.runtime_state,
        cars,
        official_race_duration_s,
        sandbox_race_duration_s: durations,
        official_lap_length_m,
        sandbox_lap_length_m: laps,
    }
}

/// A car without data has driven no lap and no metre.
pub proof fn cars_without_data_have_driven_nothing()
    ensures
        no_metrics().completed_laps == 0,
        no_metrics().lap_progress_m.bits == 0,
        no_metrics().last_lap_time_ms is None,
        no_metrics().best_lap_time_ms is None,
{
}

/// Ticks count up by one, and from the first again after the last.
pub proof fn ticks_count_up(tick: u64)
    ensures
        tick < u64::MAX ==> tick_after(tick) == tick + 1,
        tick == u64::MAX ==> tick_after(tick) == 0,
{
}

/// Known cars are stray exactly where they lack a session or an engine car.
pub proof fn stray_cars_lack_a_registration(s: StoreView, c: u64)
    ensures
        s.is_mapped(c) <==> s.record(c).target is Some && s.record(c).engine_car_id is Some,
        stray_cars(s).contains(c) <==> s.record(c).known && (s.record(c).target is None
            || s.record(c).engine_car_id is None),
{
}

/// When cars are taken out, an instance keeps the car that it leads to unless that goes and
/// is its own; numbers that were spent stay spent.
pub proof fn instances_keep_other_cars(s: StoreView, gone: Set<u64>, instance: Seq<char>)
    ensures
        s.without_cars(gone).instance_cars.contains_key(instance) <==> {
            &&& s.instance_cars.contains_key(instance)
            &&& !gone.contains(s.instance_cars[instance]) || s.record(
                s.instance_cars[instance],
            ).owner != Some(instance)
        },
        s.without_cars(gone).instance_cars.contains_key(instance) ==> s.without_cars(
            gone,
        ).instance_cars[instance] == s.instance_cars[instance],
        s.without_cars(gone).next_public_car_id == s.next_public_car_id,
        s.without_cars(gone).local_bot_next_index == s.local_bot_next_index,
{
}

/// Every known car that is registered is read, as it is registered, by the order of the ids,
/// and no other car is.
pub proof fn registered_cars_are_read(reads: Seq<CarRead>, s: StoreView, i: int, j: int, c: u64)
    requires
        reads_match(reads, s),
        0 <= i < j < reads.len(),
    ensures
        reads[i].public_car_id < reads[j].public_car_id,
        s.record(reads[i].public_car_id).known,
        s.record(reads[i].public_car_id).target == Some(reads[i].target@),
        s.record(reads[i].public_car_id).engine_car_id == Some(reads[i].engine_car_id),
        s.record(c).known && s.record(c).target is Some && s.record(c).engine_car_id is Some
            ==> exists|k: int|
            0 <= k < reads.len() && (#[trigger] reads[k]).public_car_id == c,
{
    assert(s.is_mapped(c) == (s.record(c).target is Some && s.record(c).engine_car_id is Some));
}

/// A car is gone where the engine does not find it, also when asked how far it has come in
/// the official race; it is left out where its state could not be read, and shown otherwise.
/// Only cars of the official race are shown with metrics: those that were read, or none
/// driven where there is no data.
pub proof fn car_is_shown_where_it_has_a_state<T>(read: CarRead, reply: CarReply<T>)
    ensures
        ({
            let outcome = car_outcome(read, reply);
            let official = read.target is OfficialRace;
            &&& outcome is Gone <==> reply.state is NotFound || (reply.state is State && official
                && reply.metrics is NotFound)
            &&& outcome is LeftOut <==> reply.state is Failed
            &&& (outcome matches CarOutcome::Shown(metrics) ==> {
                &&& reply.state is State
                &&& metrics is Some <==> official && (reply.metrics is Metrics || reply.metrics
                    is NoData)
                &&& official ==> (reply.metrics matches MetricsReply::Metrics(m) ==> metrics
                    == Some(m))
                &&& official && reply.metrics is NoData ==> metrics == Some(no_metrics())
            })
        }),
{
}

/// The last message number is the one that was remembered, and 0 where none was.
pub proof fn last_number_is_remembered(s: StoreView, car_id: u64)
    ensures
        s.record(car_id).last_client_seq matches Some(seq) ==> last_seq(s, car_id) == seq,
        s.record(car_id).last_client_seq is None ==> last_seq(s, car_id) == 0,
{
}

/// Every car that is shown was read and has a state; it is shown under its own ids, with its
/// own session, state, message number and identity.
pub proof fn shown_car_is_as_it_was_read<T>(
    reads: Seq<CarRead>,
    replies: Seq<CarReply<T>>,
    s: StoreView,
    n: int,
    k: int,
) -> (i: int)
    requires
        0 <= n <= reads.len(),
        0 <= k < shown_cars(reads, replies, s, n).len(),
    ensures
        0 <= i < n,
        ({
            let car = shown_cars(reads, replies, s, n)[k];
            &&& car_outcome(reads[i], replies[i]) == CarOutcome::Shown(car.race_metrics)
            &&& car.public_car_id == reads[i].public_car_id
            &&& car.engine_car_id == reads[i].engine_car_id
            &&& car.target == reads[i].target@
            &&& replies[i].state == StateReply::State(car.state)
            &&& s.record(car.public_car_id).last_client_seq matches Some(seq)
                ==> car.last_client_seq == seq
            &&& s.record(car.public_car_id).last_client_seq is None ==> car.last_client_seq == 0
            &&& car.identity == s.record(car.public_car_id).identity
        }),
    decreases n,
{
    let rest = shown_cars(reads, replies, s, n - 1);
    if k < rest.len() {
        shown_car_is_as_it_was_read(reads, replies, s, n - 1, k)
    } else {
        n - 1
    }
}

/// Every car whose outcome is to be shown is shown, in its turn.
pub proof fn car_with_a_state_is_shown<T>(
    reads: Seq<CarRead>,
    replies: Seq<CarReply<T>>,
    s: StoreView,
    n: int,
    i: int,
) -> (k: int)
    requires
        0 <= i < n <= reads.len(),
        car_outcome(reads[i], replies[i]) is Shown,
    ensures
        0 <= k < shown_cars(reads, replies, s, n).len(),
        shown_cars(reads, replies, s, n)[k].public_car_id == reads[i].public_car_id,
        k == shown_cars(reads, replies, s, i).len(),
    decreases n,
{
    if i == n - 1 {
        shown_cars(reads, replies, s, n - 1).len() as int
    } else {
        car_with_a_state_is_shown(reads, replies, s, n - 1, i)
    }
}

/// A car is gone exactly where it was read and the engine does not have it any more.
pub proof fn gone_cars_were_not_found<T>(
    reads: Seq<CarRead>,
    replies: Seq<CarReply<T>>,
    n: int,
    c: u64,
)
    ensures
        gone_cars(reads, replies, n).contains(c) <==> exists|i: int|
            #![trigger reads[i]]
            0 <= i < n && reads[i].public_car_id == c && (replies[i].state is NotFound || (
            replies[i].state is State && reads[i].target is OfficialRace && replies[i].metrics
                is NotFound)),
{
    if gone_cars(reads, replies, n).contains(c) {
        let i = choose|i: int|
            0 <= i < n && (#[trigger] reads[i]).public_car_id == c && car_outcome(
                reads[i],
                replies[i],
            ) is Gone;
        car_is_shown_where_it_has_a_state(reads[i], replies[i]);
    }
    if exists|i: int|
        #![trigger reads[i]]
        0 <= i < n && reads[i].public_car_id == c && (replies[i].state is NotFound || (
        replies[i].state is State && reads[i].target is OfficialRace && replies[i].metrics
            is NotFound)) {
        let i = choose|i: int|
            #![trigger reads[i]]
            0 <= i < n && reads[i].public_car_id == c && (replies[i].state is NotFound || (
            replies[i].state is State && reads[i].target is OfficialRace && replies[i].metrics
                is NotFound));
        car_is_shown_where_it_has_a_state(reads[i], replies[i]);
    }
}

/// A sandbox that is listed behind others has its own map, also where one under its id was
/// listed before; all others keep theirs, and none has a map that is not listed.
pub proof fn last_listed_sandbox_has_its_map(
    s: Seq<EngineActiveSandboxState>,
    sandbox: EngineActiveSandboxState,
    id: Seq<char>,
)
    ensures
        active_maps(s.push(sandbox)).contains_key(id) <==> sandbox.sandbox_id@ == id
            || active_maps(s).contains_key(id),
        sandbox.sandbox_id@ == id ==> active_maps(s.push(sandbox))[id] == sandbox.map_id@,
        sandbox.sandbox_id@ != id && active_maps(s).contains_key(id) ==> active_maps(
            s.push(sandbox),
        )[id] == active_maps(s)[id],
        !active_maps(Seq::empty()).contains_key(id),
{
    assert(s.push(sandbox).drop_last() =~= s);
}

/// An official race runs exactly where the state is known and says so; the sandboxes of an
/// unknown state are none.
pub proof fn unknown_state_runs_nothing(state: Option<EngineRuntimeState>)
    ensures
        is_official_state(state) <==> (state matches Some(running) && running.activity_kind
            is OfficialRace),
        state is None ==> known_maps(state) == Map::<Seq<char>, Seq<char>>::empty(),
        state matches Some(running) ==> known_maps(state) == active_maps(running.active_sandboxes@),
{
}

/// Every sandbox that runs is read once, with its map, and its track exactly where no lap
/// length is held for that map.
pub proof fn running_sandboxes_are_read_once(
    reads: Seq<SandboxRead>,
    maps: Map<Seq<char>, Seq<char>>,
    cache: FrameCollectorCache,
    i: int,
    j: int,
    id: Seq<char>,
)
    requires
        sandbox_reads_match(reads, maps, cache),
        0 <= i < reads.len(),
        0 <= j < reads.len(),
    ensures
        reads[i].sandbox_id@ == reads[j].sandbox_id@ ==> i == j,
        maps.contains_key(reads[i].sandbox_id@) && maps[reads[i].sandbox_id@] == reads[i].map_id@,
        cache.lap_of(reads[i].sandbox_id@) is None ==> reads[i].read_track,
        cache.lap_of(reads[i].sandbox_id@) matches Some(lap) ==> reads[i].read_track == (lap.0
            != reads[i].map_id@),
        maps.contains_key(id) ==> exists|k: int|
            0 <= k < reads.len() && (#[trigger] reads[k]).sandbox_id@ == id,
{
}

/// A sandbox keeps the lap length that was held of it unless its track was read: then it has
/// the one that was read, with the map that it was read for.
pub proof fn lap_is_the_last_read(
    reads: Seq<SandboxRead>,
    replies: Seq<SandboxReply>,
    cache: FrameCollectorCache,
    n: int,
    i: int,
    id: Seq<char>,
)
    requires
        sandbox_reads_differ(reads),
        0 <= n <= reads.len(),
    ensures
        (forall|k: int| 0 <= k < n ==> (#[trigger] reads[k]).sandbox_id@ != id) ==> lap_after(
            reads,
            replies,
            cache,
            n,
            id,
        ) == cache.lap_of(id),
        0 <= i < n && reads[i].read_track && replies[i].lap_length_m is Some ==> lap_after(
            reads,
            replies,
            cache,
            n,
            reads[i].sandbox_id@,
        ) == Some((reads[i].map_id@, replies[i].lap_length_m->Some_0)),
        0 <= i < n && !(reads[i].read_track && replies[i].lap_length_m is Some) ==> lap_after(
            reads,
            replies,
            cache,
            n,
            reads[i].sandbox_id@,
        ) == cache.lap_of(reads[i].sandbox_id@),
    decreases n,
{
    if n > 0 {
        if i == n - 1 {
            lap_is_the_last_read(reads, replies, cache, n - 1, i, reads[i].sandbox_id@);
            assert forall|k: int| 0 <= k < n - 1 implies (#[trigger] reads[k]).sandbox_id@
                != reads[i].sandbox_id@ by {}
        }
        lap_is_the_last_read(reads, replies, cache, n - 1, i, id);
    }
}

/// A sandbox has a duration in the frame exactly where one was read of it, and that one.
pub proof fn duration_is_the_one_read(
    reads: Seq<SandboxRead>,
    replies: Seq<SandboxReply>,
    n: int,
    i: int,
)
    requires
        sandbox_reads_differ(reads),
        0 <= i < n <= reads.len(),
    ensures
        durations_after(reads, replies, n).contains_key(reads[i].sandbox_id@)
            == replies[i].race_duration_s is Some,
        replies[i].race_duration_s matches Some(duration) ==> durations_after(
            reads,
            replies,
            n,
        )[reads[i].sandbox_id@] == duration,
    decreases n,
{
    if i < n - 1 {
        duration_is_the_one_read(reads, replies, n - 1, i);
    } else {
        lemma_no_duration_before(reads, replies, n - 1, reads[i].sandbox_id@);
    }
}

proof fn lemma_no_duration_before(
    reads: Seq<SandboxRead>,
    replies: Seq<SandboxReply>,
    n: int,
    id: Seq<char>,
)
    requires
        0 <= n <= reads.len(),
        forall|k: int| 0 <= k < n ==> (#[trigger] reads[k]).sandbox_id@ != id,
    ensures
        !durations_after(reads, replies, n).contains_key(id),
    decreases n,
{
    if n > 0 {
        lemma_no_duration_before(reads, replies, n - 1, id);
    }
}

proof fn lemma_no_lap_before(
    reads: Seq<SandboxRead>,
    replies: Seq<SandboxReply>,
    cache: FrameCollectorCache,
    n: int,
    id: Seq<char>,
)
    requires
        0 <= n <= reads.len(),
        forall|k: int| 0 <= k < n ==> (#[trigger] reads[k]).sandbox_id@ != id,
    ensures
        !laps_shown(reads, replies, cache, n).contains_key(id),
    decreases n,
{
    if n > 0 {
        lemma_no_lap_before(reads, replies, cache, n - 1, id);
    }
}

/// A sandbox has a lap length in the frame exactly where one was read of it or is held of it,
/// and the one that was read counts.
pub proof fn lap_length_is_read_or_held(
    reads: Seq<SandboxRead>,
    replies: Seq<SandboxReply>,
    cache: FrameCollectorCache,
    n: int,
    i: int,
)
    requires
        sandbox_reads_differ(reads),
        0 <= i < n <= reads.len(),
    ensures
        ({
            let id = reads[i].sandbox_id@;
            let shown = laps_shown(reads, replies, cache, n);
            let read = reads[i].read_track && replies[i].lap_length_m is Some;
            &&& shown.contains_key(id) <==> read || cache.lap_of(id) is Some
            &&& read ==> Some(shown[id]) == replies[i].lap_length_m
            &&& !read ==> (cache.lap_of(id) matches Some(lap) ==> shown[id] == lap.1)
        }),
    decreases n,
{
    if i < n - 1 {
        lap_length_is_read_or_held(reads, replies, cache, n - 1, i);
    } else {
        lap_is_the_last_read(reads, replies, cache, n, i, reads[i].sandbox_id@);
        lemma_no_lap_before(reads, replies, cache, n - 1, reads[i].sandbox_id@);
    }
}

/// A car in a frame is seen as it is, under both ids and with all that the frame holds of it.
pub proof fn cars_in_a_frame_are_seen_as_they_are<T>(cars: Seq<RuntimeCarFrame<T>>, i: int)
    requires
        0 <= i < cars.len(),
    ensures
        cars[i]@.public_car_id == cars[i].public_car_id,
        cars[i]@.engine_car_id == cars[i].engine_car_id,
        cars[i]@.target == cars[i].target@,
        cars[i]@.state == cars[i].state,
        cars[i]@.race_metrics == cars[i].race_metrics,
        cars[i]@.last_client_seq == cars[i].last_client_seq,
        cars[i]@.identity == opt_identity(cars[i].identity),
        car_views(cars).len() == cars.len(),
        car_views(cars)[i] == cars[i]@,
{
}

/// In a frame no two cars have one id, and the one with the lower id stands in front; so do
/// the cars that are read for it, and no sandbox is read twice. The track of the official race
/// is read only with its duration, and that only where the state is known.
pub proof fn frames_and_plans_are_in_order<T>(
    cars: Seq<RuntimeCarFrame<T>>,
    plan: FramePlan,
    i: int,
    j: int,
)
    requires
        cars_ascend(cars),
        plan.is_sound(),
        0 <= i < j,
    ensures
        j < cars.len() ==> cars[i].public_car_id < cars[j].public_car_id,
        j < plan.cars@.len() ==> plan.cars@[i].public_car_id < plan.cars@[j].public_car_id,
        j < plan.sandboxes@.len() ==> plan.sandboxes@[i].sandbox_id@
            != plan.sandboxes@[j].sandbox_id@,
        plan.read_official_track ==> plan.read_official_duration,
        plan.read_official_duration ==> plan.runtime_state is Some,
{
}

} // verus!
