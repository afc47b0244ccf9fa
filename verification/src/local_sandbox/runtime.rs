//! What is shown of the local sandboxes that run, and when a client that follows it is
//! told of a change.

use vstd::prelude::*;
use crate::engine::{EngineActiveSandboxState, EngineRuntimeState};
use crate::ghost_mode::{are_equal_settings, equal_settings, GhostModeSettings};
use crate::local_sandbox::records::{
    find_local_sandbox_by_id, local_sandbox_with_id, local_spawn_mode_to_proto,
    found_local_sandbox_is_first, local_time_of_day_to_proto, local_weather_to_proto, mode_on_wire,
    spawn_mode_on_wire, time_of_day_on_wire, weather_on_wire, weather_settings_on_wire,
    LocalSandboxConfigRecord, LocalSandboxSpawnMode, LocalTimeOfDaySettings, LocalWeatherSettings,
};
use crate::text;
use crate::text_map::TextMap;
use crate::time_of_day::{
    preset_on_wire, record_on_wire, runtime_time_of_day_preset_to_proto, RuntimeTimeOfDayPreset,
};
use crate::timestamp::Timestamp;

verus! {

/// A local sandbox that runs.
#[derive(Debug)]
pub struct LocalActiveSandboxRuntimeInfo {
    pub sandbox_id: String,
    pub sandbox_name: String,
    pub map_id: String,
    pub active_time_of_day_preset: RuntimeTimeOfDayPreset,
    pub time_of_day: LocalTimeOfDaySettings,
    pub ghost_mode: Option<GhostModeSettings>,
    pub weather: LocalWeatherSettings,
    pub spawn_mode: LocalSandboxSpawnMode,
    pub started_at_utc: Option<Timestamp>,
    pub active_player_count: u32,
}

impl Clone for LocalActiveSandboxRuntimeInfo {
    fn clone(&self) -> (r: Self)
        ensures
            r == *self,
    {
        LocalActiveSandboxRuntimeInfo {
            sandbox_id: self.sandbox_id.clone(),
            sandbox_name: self.sandbox_name.clone(),
            map_id: self.map_id.clone(),
            active_time_of_day_preset: self.active_time_of_day_preset,
            time_of_day: self.time_of_day,
            ghost_mode: self.ghost_mode,
            weather: self.weather,
            spawn_mode: self.spawn_mode,
            started_at_utc: self.started_at_utc,
            active_player_count: self.active_player_count,
        }
    }
}

/// What is shown of a sandbox.
pub open spec fn local_info(
    record: LocalSandboxConfigRecord,
    preset: RuntimeTimeOfDayPreset,
    started_at: Map<Seq<char>, Timestamp>,
    car_counts: Map<Seq<char>, u32>,
) -> LocalActiveSandboxRuntimeInfo {
    let id = record.sandbox_id@;
    LocalActiveSandboxRuntimeInfo {
        sandbox_id: record.sandbox_id,
        sandbox_name: record.config.sandbox_name,
        map_id: record.config.map_id,
        active_time_of_day_preset: preset,
        time_of_day: time_of_day_on_wire(record.config.time_of_day),
        ghost_mode: record.config.ghost_mode,
        weather: weather_settings_on_wire(record.config.weather),
        spawn_mode: spawn_mode_on_wire(record.config.spawn_mode),
        started_at_utc: if started_at.contains_key(id) {
            Some(started_at[id])
        } else {
            None
        },
        active_player_count: if car_counts.contains_key(id) {
            car_counts[id]
        } else {
            0
        },
    }
}

/// The running sandboxes that are stored, in the order in which they run.
pub open spec fn local_infos(
    active: Seq<EngineActiveSandboxState>,
    configs: Seq<LocalSandboxConfigRecord>,
    started_at: Map<Seq<char>, Timestamp>,
    car_counts: Map<Seq<char>, u32>,
) -> Seq<LocalActiveSandboxRuntimeInfo>
    decreases active.len(),
{
    if active.len() == 0 {
        Seq::empty()
    } else {
        let before = local_infos(active.drop_last(), configs, started_at, car_counts);
        match local_sandbox_with_id(configs, active.last().sandbox_id@) {
            Some(record) => before.push(
                local_info(
                    record,
                    preset_on_wire(active.last().time_of_day_preset),
                    started_at,
                    car_counts,
                ),
            ),
            None => before,
        }
    }
}

/// What runs.
#[derive(Debug)]
pub struct LocalRuntimeState {
    pub revision: u64,
    pub server_time_utc: Option<Timestamp>,
    pub active_sandboxes: Vec<LocalActiveSandboxRuntimeInfo>,
}

/// What runs, the list as a sequence.
pub struct LocalRuntimeView {
    pub revision: u64,
    pub server_time_utc: Option<Timestamp>,
    pub active_sandboxes: Seq<LocalActiveSandboxRuntimeInfo>,
}

impl View for LocalRuntimeState {
    type V = LocalRuntimeView;

    open spec fn view(&self) -> LocalRuntimeView {
        LocalRuntimeView {
            revision: self.revision,
            server_time_utc: self.server_time_utc,
            active_sandboxes: self.active_sandboxes@,
        }
    }
}

pub fn build_runtime_state(
    runtime: &EngineRuntimeState,
    configs: &Vec<LocalSandboxConfigRecord>,
    started_at: &TextMap<Timestamp>,
    car_counts: &TextMap<u32>,
    now: Timestamp,
) -> (r: LocalRuntimeState)
    ensures
        r@ == (LocalRuntimeView {
            revision: runtime.revision,
            server_time_utc: Some(now),
            active_sandboxes: local_infos(
                runtime.active_sandboxes@,
                configs@,
                started_at@,
                car_counts@,
            ),
        }),
{
    let active: &Vec<EngineActiveSandboxState> = &runtime.active_sandboxes;
    let mut infos: Vec<LocalActiveSandboxRuntimeInfo> = Vec::new();
    let mut n: usize = 0;
    proof {
        assert(active@.take(0) =~= Seq::<EngineActiveSandboxState>::empty());
    }
    while n < active.len()
        invariant
            n <= active@.len(),
            infos@ == local_infos(active@.take(n as int), configs@, started_at@, car_counts@),
        decreases active@.len() - n,
    {
        proof {
            assert(active@.take(n + 1).drop_last() =~= active@.take(n as int));
            assert(active@.take(n + 1).last() == active@[n as int]);
        }
        match find_local_sandbox_by_id(configs, active[n].sandbox_id.as_str()) {
            None => {},
            Some(record) => {
                let started_at_utc: Option<Timestamp> = match started_at.get(
                    record.sandbox_id.as_str(),
                ) {
                    Some(t) => Some(*t),
                    None => None,
                };
                let active_player_count: u32 = match car_counts.get(record.sandbox_id.as_str()) {
                    Some(count) => *count,
                    None => 0,
                };
                infos.push(
                    LocalActiveSandboxRuntimeInfo {
                        sandbox_id: record.sandbox_id,
                        sandbox_name: record.config.sandbox_name,
                        map_id: record.config.map_id,
                        active_time_of_day_preset: runtime_time_of_day_preset_to_proto(
                            active[n].time_of_day_preset,
                        ),
                        time_of_day: local_time_of_day_to_proto(record.config.time_of_day),
                        ghost_mode: record.config.ghost_mode,
                        weather: local_weather_to_proto(record.config.weather),
                        spawn_mode: local_spawn_mode_to_proto(record.config.spawn_mode),
                        started_at_utc,
                        active_player_count,
                    },
                );
            },
        }
        n += 1;
    }
    proof {
        assert(active@.take(n as int) =~= active@);
    }
    LocalRuntimeState {
        revision: runtime.revision,
        server_time_utc: Some(now),
        active_sandboxes: infos,
    }
}

/// The sandboxes are shown alike.
pub open spec fn equal_local_info(
    a: LocalActiveSandboxRuntimeInfo,
    b: LocalActiveSandboxRuntimeInfo,
) -> bool {
    &&& a.sandbox_id@ == b.sandbox_id@
    &&& a.sandbox_name@ == b.sandbox_name@
    &&& a.map_id@ == b.map_id@
    &&& a.active_time_of_day_preset == b.active_time_of_day_preset
    &&& a.time_of_day == b.time_of_day
    &&& match (a.ghost_mode, b.ghost_mode) {
        (None, None) => true,
        (Some(x), Some(y)) => equal_settings(x, y),
        _ => false,
    }
    &&& a.weather == b.weather
    &&& a.spawn_mode == b.spawn_mode
    &&& a.started_at_utc == b.started_at_utc
    &&& a.active_player_count == b.active_player_count
}

fn is_equal_local_info(
    a: &LocalActiveSandboxRuntimeInfo,
    b: &LocalActiveSandboxRuntimeInfo,
) -> (r: bool)
    ensures
        r == equal_local_info(*a, *b),
{
    let same_ghost_mode: bool = match (a.ghost_mode, b.ghost_mode) {
        (None, None) => true,
        (Some(x), Some(y)) => are_equal_settings(x, y),
        _ => false,
    };
    let same_start: bool = match (a.started_at_utc, b.started_at_utc) {
        (None, None) => true,
        (Some(x), Some(y)) => x == y,
        _ => false,
    };
    let same_mode: bool = match (a.time_of_day.mode, b.time_of_day.mode) {
        (None, None) => true,
        (Some(x), Some(y)) => x == y,
        _ => false,
    };
    let same_preset: bool = match (a.time_of_day.fixed_preset, b.time_of_day.fixed_preset) {
        (None, None) => true,
        (Some(x), Some(y)) => x == y,
        _ => false,
    };
    let same_weather: bool = match (a.weather.weather_type, b.weather.weather_type) {
        (None, None) => true,
        (Some(x), Some(y)) => x == y,
        _ => false,
    };
    same_ghost_mode && same_start && same_mode && same_preset && same_weather
        && a.weather.temperature_c == b.weather.temperature_c && a.spawn_mode == b.spawn_mode
        && a.active_time_of_day_preset == b.active_time_of_day_preset && a.active_player_count
        == b.active_player_count && text::str_eq(a.sandbox_id.as_str(), b.sandbox_id.as_str())
        && text::str_eq(a.sandbox_name.as_str(), b.sandbox_name.as_str()) && text::str_eq(
        a.map_id.as_str(),
        b.map_id.as_str(),
    )
}

/// The states are alike, whatever their times are.
pub open spec fn alike(a: LocalRuntimeView, b: LocalRuntimeView) -> bool {
    &&& a.revision == b.revision
    &&& a.active_sandboxes.len() == b.active_sandboxes.len()
    &&& forall|i: int|
        0 <= i < a.active_sandboxes.len() ==> equal_local_info(
            #[trigger] a.active_sandboxes[i],
            b.active_sandboxes[i],
        )
}

fn are_alike(a: &LocalRuntimeState, b: &LocalRuntimeState) -> (r: bool)
    ensures
        r == alike(a@, b@),
{
    if a.revision != b.revision || a.active_sandboxes.len() != b.active_sandboxes.len() {
        return false;
    }
    let mut n: usize = 0;
    while n < a.active_sandboxes.len()
        invariant
            n <= a.active_sandboxes@.len(),
            a.active_sandboxes@.len() == b.active_sandboxes@.len(),
            forall|i: int|
                0 <= i < n ==> equal_local_info(
                    #[trigger] a.active_sandboxes@[i],
                    b.active_sandboxes@[i],
                ),
        decreases a.active_sandboxes@.len() - n,
    {
        if !is_equal_local_info(&a.active_sandboxes[n], &b.active_sandboxes[n]) {
            proof {
                assert(!equal_local_info(a@.active_sandboxes[n as int], b@.active_sandboxes[n as int]));
            }
            return false;
        }
        n += 1;
    }
    true
}

/// The state that a client was last told of.
#[derive(Debug)]
pub struct LocalRuntimeFeed {
    pub last_state_without_time: Option<LocalRuntimeState>,
}

/// The state that a client was last told of.
pub open spec fn last_told(feed: LocalRuntimeFeed) -> Option<LocalRuntimeView> {
    match feed.last_state_without_time {
        Some(state) => Some(state@),
        None => None,
    }
}

impl LocalRuntimeFeed {
    pub fn new() -> (r: Self)
        ensures
            last_told(r) is None,
    {
        LocalRuntimeFeed { last_state_without_time: None }
    }

    /// Whether the client must be told of the state, which it then is.
    pub fn on_state(&mut self, state: &LocalRuntimeState) -> (changed: bool)
        ensures
            changed == match last_told(*old(self)) {
                Some(last) => !alike(last, state@),
                None => true,
            },
            last_told(*final(self)) == if changed {
                Some(LocalRuntimeView { server_time_utc: None, ..state@ })
            } else {
                last_told(*old(self))
            },
    {
        let known: bool = match &self.last_state_without_time {
            Some(last) => are_alike(last, state),
            None => false,
        };
        if known {
            return false;
        }
        let mut active_sandboxes: Vec<LocalActiveSandboxRuntimeInfo> = Vec::new();
        let mut n: usize = 0;
        while n < state.active_sandboxes.len()
            invariant
                n <= state.active_sandboxes@.len(),
                active_sandboxes@ == state.active_sandboxes@.take(n as int),
            decreases state.active_sandboxes@.len() - n,
        {
            active_sandboxes.push(state.active_sandboxes[n].clone());
            n += 1;
        }
        proof {
            assert(active_sandboxes@ =~= state.active_sandboxes@);
        }
        self.last_state_without_time = Some(
            LocalRuntimeState { revision: state.revision, server_time_utc: None, active_sandboxes },
        );
        true
    }
}

/// A client that was told of a state is not told of it again at another time, as long
/// as its speeds are numbers.
pub proof fn same_state_is_not_repeated(
    state: LocalRuntimeView,
    earlier: Option<Timestamp>,
)
    requires
        forall|i: int|
            0 <= i < state.active_sandboxes.len() ==> ((
            #[trigger] state.active_sandboxes[i]).ghost_mode matches Some(settings)
                ==> !settings.enter_speed_max_mps.nan() && !settings.exit_speed_min_mps.nan()),
    ensures
        alike(LocalRuntimeView { server_time_utc: earlier, ..state }, state),
{
}

/// A sandbox is shown with what is stored of it, the time of day that it has in the engine,
/// when it was started if that is known, and the cars that were counted in it, none where
/// none were.
pub proof fn local_sandbox_is_shown_as_stored(
    record: LocalSandboxConfigRecord,
    preset: RuntimeTimeOfDayPreset,
    started_at: Map<Seq<char>, Timestamp>,
    car_counts: Map<Seq<char>, u32>,
)
    ensures
        ({
            let info = local_info(record, preset, started_at, car_counts);
            let id = record.sandbox_id@;
            &&& info.sandbox_id == record.sandbox_id
            &&& info.sandbox_name == record.config.sandbox_name
            &&& info.map_id == record.config.map_id
            &&& info.active_time_of_day_preset == preset
            &&& info.time_of_day.mode == Some(mode_on_wire(record.config.time_of_day.mode))
            &&& info.time_of_day.fixed_preset == Some(
                record_on_wire(record.config.time_of_day.fixed_preset),
            )
            &&& info.ghost_mode == record.config.ghost_mode
            &&& info.weather.weather_type == Some(
                weather_on_wire(record.config.weather.weather_type),
            )
            &&& info.weather.temperature_c == record.config.weather.temperature_c
            &&& info.spawn_mode == spawn_mode_on_wire(record.config.spawn_mode)
            &&& (info.started_at_utc is Some) == started_at.contains_key(id)
            &&& (info.started_at_utc matches Some(at) ==> at == started_at[id])
            &&& car_counts.contains_key(id) ==> info.active_player_count == car_counts[id]
            &&& !car_counts.contains_key(id) ==> info.active_player_count == 0
        }),
{
}

/// What is shown of the sandboxes that run is shown of each of them on its own, one after
/// the other.
pub proof fn local_sandboxes_are_shown_in_turn(
    first: Seq<EngineActiveSandboxState>,
    then: Seq<EngineActiveSandboxState>,
    configs: Seq<LocalSandboxConfigRecord>,
    started_at: Map<Seq<char>, Timestamp>,
    car_counts: Map<Seq<char>, u32>,
)
    ensures
        local_infos(first + then, configs, started_at, car_counts) == local_infos(
            first,
            configs,
            started_at,
            car_counts,
        ) + local_infos(then, configs, started_at, car_counts),
    decreases then.len(),
{
    if then.len() == 0 {
        assert(first + then =~= first);
        assert(local_infos(then, configs, started_at, car_counts) =~= Seq::empty());
    } else {
        local_sandboxes_are_shown_in_turn(
            first,
            then.drop_last(),
            configs,
            started_at,
            car_counts,
        );
        assert((first + then).drop_last() =~= first + then.drop_last());
        assert((first + then).last() == then.last());
    }
}

/// A sandbox that runs alone is shown exactly where it is stored, under its id and with the
/// time of day that it has in the engine.
pub proof fn running_local_sandbox_is_shown(
    state: EngineActiveSandboxState,
    configs: Seq<LocalSandboxConfigRecord>,
    started_at: Map<Seq<char>, Timestamp>,
    car_counts: Map<Seq<char>, u32>,
)
    ensures
        ({
            let infos = local_infos(seq![state], configs, started_at, car_counts);
            match local_sandbox_with_id(configs, state.sandbox_id@) {
                None => infos.len() == 0,
                Some(record) => infos.len() == 1 && infos[0].sandbox_id@ == state.sandbox_id@
                    && infos[0].sandbox_name == record.config.sandbox_name
                    && infos[0].active_time_of_day_preset == preset_on_wire(
                    state.time_of_day_preset,
                ),
            }
        }),
{
    found_local_sandbox_is_first(configs, state.sandbox_id@);
    let active = seq![state];
    assert(active.drop_last() =~= Seq::empty());
    assert(active.last() == state);
    reveal_with_fuel(local_infos, 2);
}

/// States that are alike show the same: whatever of a sandbox differs, be it its id, its
/// name, its map, its weather, its players or when it was started, makes another state.
pub proof fn states_alike_show_the_same(a: LocalRuntimeView, b: LocalRuntimeView, i: int)
    requires
        alike(a, b),
        0 <= i < a.active_sandboxes.len(),
    ensures
        a.revision == b.revision,
        a.active_sandboxes.len() == b.active_sandboxes.len(),
        a.active_sandboxes[i].sandbox_id@ == b.active_sandboxes[i].sandbox_id@,
        a.active_sandboxes[i].sandbox_name@ == b.active_sandboxes[i].sandbox_name@,
        a.active_sandboxes[i].map_id@ == b.active_sandboxes[i].map_id@,
        a.active_sandboxes[i].active_time_of_day_preset
            == b.active_sandboxes[i].active_time_of_day_preset,
        a.active_sandboxes[i].time_of_day == b.active_sandboxes[i].time_of_day,
        a.active_sandboxes[i].weather == b.active_sandboxes[i].weather,
        a.active_sandboxes[i].spawn_mode == b.active_sandboxes[i].spawn_mode,
        a.active_sandboxes[i].started_at_utc == b.active_sandboxes[i].started_at_utc,
        a.active_sandboxes[i].active_player_count == b.active_sandboxes[i].active_player_count,
        (a.active_sandboxes[i].ghost_mode is Some) == (b.active_sandboxes[i].ghost_mode is Some),
        a.active_sandboxes[i].ghost_mode matches Some(x) ==> equal_settings(
            x,
            b.active_sandboxes[i].ghost_mode->Some_0,
        ),
{
    assert(equal_local_info(a.active_sandboxes[i], b.active_sandboxes[i]));
}

} // verus!
