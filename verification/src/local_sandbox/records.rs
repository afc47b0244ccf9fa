//! The settings of a local sandbox, on the wire, in storage and in the engine.

use vstd::prelude::*;
use crate::engine::EngineRuntimeTimeOfDayPreset;
use crate::ghost_mode::GhostModeSettings;
use crate::participant::join::LocalSandboxSpawnModeRecord;
use crate::status::{Code, Status};
use crate::text;
use crate::time_of_day::{
    preset_in_engine, record_on_wire, runtime_time_of_day_preset_record_from_proto,
    runtime_time_of_day_preset_record_to_engine, runtime_time_of_day_preset_record_to_proto,
    RuntimeTimeOfDayPreset, RuntimeTimeOfDayPresetRecord,
};

verus! {

/// Where the time of day comes from, on the wire.
#[derive(Clone, Copy, PartialEq, Eq, Debug, Structural)]
pub enum LocalTimeOfDayMode {
    Unspecified,
    FixedPreset,
    AutoByLocalTime,
}

/// Where the time of day comes from, in storage.
#[derive(Clone, Copy, PartialEq, Eq, Debug, Structural)]
pub enum LocalTimeOfDayModeRecord {
    FixedPreset,
    AutoByLocalTime,
}

pub open spec fn mode_on_wire(mode: LocalTimeOfDayModeRecord) -> LocalTimeOfDayMode {
    match mode {
        LocalTimeOfDayModeRecord::FixedPreset => LocalTimeOfDayMode::FixedPreset,
        LocalTimeOfDayModeRecord::AutoByLocalTime => LocalTimeOfDayMode::AutoByLocalTime,
    }
}

pub fn local_time_of_day_mode_to_proto(mode: LocalTimeOfDayModeRecord) -> (r: LocalTimeOfDayMode)
    ensures
        r == mode_on_wire(mode),
{
    match mode {
        LocalTimeOfDayModeRecord::FixedPreset => LocalTimeOfDayMode::FixedPreset,
        LocalTimeOfDayModeRecord::AutoByLocalTime => LocalTimeOfDayMode::AutoByLocalTime,
    }
}

fn local_time_of_day_mode_from_proto(mode: LocalTimeOfDayMode) -> (r: Result<
    LocalTimeOfDayModeRecord,
    Status,
>)
    ensures
        mode == LocalTimeOfDayMode::Unspecified ==> (r matches Err(e) && e@ == (
            Code::InvalidArgument,
            "time_of_day.mode must be specified"@,
        )),
        mode != LocalTimeOfDayMode::Unspecified ==> (r matches Ok(record) && mode_on_wire(record)
            == mode),
{
    match mode {
        LocalTimeOfDayMode::FixedPreset => Ok(LocalTimeOfDayModeRecord::FixedPreset),
        LocalTimeOfDayMode::AutoByLocalTime => Ok(LocalTimeOfDayModeRecord::AutoByLocalTime),
        LocalTimeOfDayMode::Unspecified => Err(
            Status::invalid_argument("time_of_day.mode must be specified"),
        ),
    }
}

/// The time of day, on the wire. What is missing has a number that stands for nothing.
#[derive(Clone, Copy, PartialEq, Eq, Debug, Structural)]
pub struct LocalTimeOfDaySettings {
    pub mode: Option<LocalTimeOfDayMode>,
    pub fixed_preset: Option<RuntimeTimeOfDayPreset>,
}

/// The time of day, in storage.
#[derive(Clone, Copy, PartialEq, Eq, Debug, Structural)]
pub struct LocalTimeOfDaySettingsRecord {
    pub mode: LocalTimeOfDayModeRecord,
    pub fixed_preset: RuntimeTimeOfDayPresetRecord,
}

/// Why a time of day on the wire cannot be stored; the first fault counts.
pub open spec fn time_of_day_fault(settings: LocalTimeOfDaySettings) -> Option<Seq<char>> {
    if settings.mode is None {
        Some("invalid time_of_day.mode"@)
    } else if settings.mode == Some(LocalTimeOfDayMode::Unspecified) {
        Some("time_of_day.mode must be specified"@)
    } else if settings.fixed_preset is None {
        Some("invalid time_of_day.fixed_preset"@)
    } else if settings.mode == Some(LocalTimeOfDayMode::FixedPreset) && settings.fixed_preset
        == Some(RuntimeTimeOfDayPreset::Unspecified) {
        Some("time_of_day.fixed_preset must be specified for fixed mode"@)
    } else {
        None
    }
}

/// The preset that is stored: noon stands in for one that need not be given.
pub open spec fn preset_or_noon(preset: RuntimeTimeOfDayPreset) -> RuntimeTimeOfDayPreset {
    if preset == RuntimeTimeOfDayPreset::Unspecified {
        RuntimeTimeOfDayPreset::Noon
    } else {
        preset
    }
}

/// Whether the record holds the time of day of a request.
pub open spec fn is_time_of_day_of(
    record: LocalTimeOfDaySettingsRecord,
    settings: LocalTimeOfDaySettings,
) -> bool {
    Some(mode_on_wire(record.mode)) == settings.mode && record_on_wire(record.fixed_preset)
        == preset_or_noon(settings.fixed_preset->Some_0)
}

pub fn local_time_of_day_from_proto(settings: &LocalTimeOfDaySettings) -> (r: Result<
    LocalTimeOfDaySettingsRecord,
    Status,
>)
    ensures
        match time_of_day_fault(*settings) {
            Some(fault) => r matches Err(e) && e@ == (Code::InvalidArgument, fault),
            None => r matches Ok(record) && is_time_of_day_of(record, *settings),
        },
        r matches Ok(record) ==> {
            &&& (record.mode is FixedPreset) == (settings.mode == Some(
                LocalTimeOfDayMode::FixedPreset,
            ))
            &&& (record.mode is AutoByLocalTime) == (settings.mode == Some(
                LocalTimeOfDayMode::AutoByLocalTime,
            ))
            &&& settings.fixed_preset matches Some(preset) && (record.fixed_preset is Noon) == (
            preset is Noon || preset is Unspecified)
        },
{
    let mode: LocalTimeOfDayModeRecord = match settings.mode {
        None => return Err(Status::invalid_argument("invalid time_of_day.mode")),
        Some(mode) => match local_time_of_day_mode_from_proto(mode) {
            Ok(record) => record,
            Err(e) => return Err(e),
        },
    };
    let preset: RuntimeTimeOfDayPreset = match settings.fixed_preset {
        None => return Err(Status::invalid_argument("invalid time_of_day.fixed_preset")),
        Some(preset) => preset,
    };
    if preset == RuntimeTimeOfDayPreset::Unspecified {
        if mode == LocalTimeOfDayModeRecord::FixedPreset {
            return Err(
                Status::invalid_argument(
                    "time_of_day.fixed_preset must be specified for fixed mode",
                ),
            );
        }
        return Ok(
            LocalTimeOfDaySettingsRecord { mode, fixed_preset: RuntimeTimeOfDayPresetRecord::Noon },
        );
    }
    match runtime_time_of_day_preset_record_from_proto(preset) {
        Ok(fixed_preset) => Ok(LocalTimeOfDaySettingsRecord { mode, fixed_preset }),
        Err(e) => Err(e),
    }
}

pub open spec fn time_of_day_on_wire(record: LocalTimeOfDaySettingsRecord) -> LocalTimeOfDaySettings {
    LocalTimeOfDaySettings {
        mode: Some(mode_on_wire(record.mode)),
        fixed_preset: Some(record_on_wire(record.fixed_preset)),
    }
}

pub fn local_time_of_day_to_proto(record: LocalTimeOfDaySettingsRecord) -> (r:
    LocalTimeOfDaySettings)
    ensures
        r == time_of_day_on_wire(record),
{
    LocalTimeOfDaySettings {
        mode: Some(local_time_of_day_mode_to_proto(record.mode)),
        fixed_preset: Some(runtime_time_of_day_preset_record_to_proto(record.fixed_preset)),
    }
}

/// A stored time of day comes back from the wire as it is stored.
pub proof fn time_of_day_round_trip(
    record: LocalTimeOfDaySettingsRecord,
    read: LocalTimeOfDaySettingsRecord,
)
    requires
        Some(mode_on_wire(read.mode)) == time_of_day_on_wire(record).mode,
        record_on_wire(read.fixed_preset) == preset_or_noon(
            time_of_day_on_wire(record).fixed_preset->Some_0,
        ),
    ensures
        time_of_day_fault(time_of_day_on_wire(record)) is None,
        read == record,
{
}

/// The time of day that a sandbox is started with: the preset, also where the time is
/// to follow the clock, which is set later.
pub fn resolve_runtime_time_of_day_preset(time_of_day: LocalTimeOfDaySettingsRecord) -> (r:
    EngineRuntimeTimeOfDayPreset)
    ensures
        r == preset_in_engine(record_on_wire(time_of_day.fixed_preset)),
{
    runtime_time_of_day_preset_record_to_engine(time_of_day.fixed_preset)
}

/// The weather, on the wire.
#[derive(Clone, Copy, PartialEq, Eq, Debug, Structural)]
pub enum WeatherType {
    Unspecified,
    Clear,
    PartlyCloudy,
    Overcast,
    LightRain,
    MediumRain,
    HeavyRain,
}

/// The weather, in storage.
#[derive(Clone, Copy, PartialEq, Eq, Debug, Structural)]
pub enum WeatherTypeRecord {
    Clear,
    PartlyCloudy,
    Overcast,
    LightRain,
    MediumRain,
    HeavyRain,
}

/// The weather, in the engine.
#[derive(Clone, Copy, PartialEq, Eq, Debug, Structural)]
pub enum EngineRuntimeWeatherType {
    Clear,
    PartlyCloudy,
    Overcast,
    LightRain,
    MediumRain,
    HeavyRain,
}

pub open spec fn weather_on_wire(weather: WeatherTypeRecord) -> WeatherType {
    match weather {
        WeatherTypeRecord::Clear => WeatherType::Clear,
        WeatherTypeRecord::PartlyCloudy => WeatherType::PartlyCloudy,
        WeatherTypeRecord::Overcast => WeatherType::Overcast,
        WeatherTypeRecord::LightRain => WeatherType::LightRain,
        WeatherTypeRecord::MediumRain => WeatherType::MediumRain,
        WeatherTypeRecord::HeavyRain => WeatherType::HeavyRain,
    }
}

pub fn weather_type_record_to_proto(weather_type: WeatherTypeRecord) -> (r: WeatherType)
    ensures
        r == weather_on_wire(weather_type),
{
    match weather_type {
        WeatherTypeRecord::Clear => WeatherType::Clear,
        WeatherTypeRecord::PartlyCloudy => WeatherType::PartlyCloudy,
        WeatherTypeRecord::Overcast => WeatherType::Overcast,
        WeatherTypeRecord::LightRain => WeatherType::LightRain,
        WeatherTypeRecord::MediumRain => WeatherType::MediumRain,
        WeatherTypeRecord::HeavyRain => WeatherType::HeavyRain,
    }
}

pub fn weather_type_record_from_proto(weather_type: WeatherType) -> (r: Result<
    WeatherTypeRecord,
    Status,
>)
    ensures
        weather_type == WeatherType::Unspecified ==> (r matches Err(e) && e@ == (
            Code::InvalidArgument,
            "weather.weather_type must be specified"@,
        )),
        weather_type != WeatherType::Unspecified ==> (r matches Ok(record) && weather_on_wire(
            record,
        ) == weather_type),
{
    match weather_type {
        WeatherType::Clear => Ok(WeatherTypeRecord::Clear),
        WeatherType::PartlyCloudy => Ok(WeatherTypeRecord::PartlyCloudy),
        WeatherType::Overcast => Ok(WeatherTypeRecord::Overcast),
        WeatherType::LightRain => Ok(WeatherTypeRecord::LightRain),
        WeatherType::MediumRain => Ok(WeatherTypeRecord::MediumRain),
        WeatherType::HeavyRain => Ok(WeatherTypeRecord::HeavyRain),
        WeatherType::Unspecified => Err(
            Status::invalid_argument("weather.weather_type must be specified"),
        ),
    }
}

pub open spec fn weather_in_engine(weather: WeatherTypeRecord) -> EngineRuntimeWeatherType {
    match weather {
        WeatherTypeRecord::Clear => EngineRuntimeWeatherType::Clear,
        WeatherTypeRecord::PartlyCloudy => EngineRuntimeWeatherType::PartlyCloudy,
        WeatherTypeRecord::Overcast => EngineRuntimeWeatherType::Overcast,
        WeatherTypeRecord::LightRain => EngineRuntimeWeatherType::LightRain,
        WeatherTypeRecord::MediumRain => EngineRuntimeWeatherType::MediumRain,
        WeatherTypeRecord::HeavyRain => EngineRuntimeWeatherType::HeavyRain,
    }
}

pub fn weather_type_record_to_runtime(weather_type: WeatherTypeRecord) -> (r:
    EngineRuntimeWeatherType)
    ensures
        r == weather_in_engine(weather_type),
{
    match weather_type {
        WeatherTypeRecord::Clear => EngineRuntimeWeatherType::Clear,
        WeatherTypeRecord::PartlyCloudy => EngineRuntimeWeatherType::PartlyCloudy,
        WeatherTypeRecord::Overcast => EngineRuntimeWeatherType::Overcast,
        WeatherTypeRecord::LightRain => EngineRuntimeWeatherType::LightRain,
        WeatherTypeRecord::MediumRain => EngineRuntimeWeatherType::MediumRain,
        WeatherTypeRecord::HeavyRain => EngineRuntimeWeatherType::HeavyRain,
    }
}

/// The weather and the temperature, on the wire. A type that is missing has a number
/// that stands for nothing.
#[derive(Clone, Copy, PartialEq, Eq, Debug, Structural)]
pub struct LocalWeatherSettings {
    pub weather_type: Option<WeatherType>,
    pub temperature_c: i32,
}

/// The weather and the temperature, in storage.
#[derive(Clone, Copy, PartialEq, Eq, Debug, Structural)]
pub struct LocalWeatherSettingsRecord {
    pub weather_type: WeatherTypeRecord,
    pub temperature_c: i32,
}

/// The weather and the temperature, in the engine.
#[derive(Clone, Copy, PartialEq, Eq, Debug, Structural)]
pub struct EngineRuntimeWeatherNow {
    pub weather_type: EngineRuntimeWeatherType,
    pub temperature_c: i32,
}

/// What is wrong with the weather of a request.
pub open spec fn weather_fault(weather: LocalWeatherSettings) -> Option<Seq<char>> {
    match weather.weather_type {
        None => Some("invalid weather.weather_type"@),
        Some(WeatherType::Unspecified) => Some("weather.weather_type must be specified"@),
        Some(_) => None,
    }
}

/// Whether the record holds the weather of a request.
pub open spec fn is_weather_of(
    record: LocalWeatherSettingsRecord,
    weather: LocalWeatherSettings,
) -> bool {
    Some(weather_on_wire(record.weather_type)) == weather.weather_type && record.temperature_c
        == weather.temperature_c
}

pub fn local_weather_from_proto(weather: &LocalWeatherSettings) -> (r: Result<
    LocalWeatherSettingsRecord,
    Status,
>)
    ensures
        match weather_fault(*weather) {
            Some(fault) => r matches Err(e) && e@ == (Code::InvalidArgument, fault),
            None => r matches Ok(record) && is_weather_of(record, *weather),
        },
        r matches Ok(record) ==> record.temperature_c == weather.temperature_c,
{
    match weather.weather_type {
        None => Err(Status::invalid_argument("invalid weather.weather_type")),
        Some(weather_type) => match weather_type_record_from_proto(weather_type) {
            Ok(weather_type) => Ok(
                LocalWeatherSettingsRecord { weather_type, temperature_c: weather.temperature_c },
            ),
            Err(e) => Err(e),
        },
    }
}

pub open spec fn weather_settings_on_wire(record: LocalWeatherSettingsRecord) -> LocalWeatherSettings {
    LocalWeatherSettings {
        weather_type: Some(weather_on_wire(record.weather_type)),
        temperature_c: record.temperature_c,
    }
}

pub fn local_weather_to_proto(record: LocalWeatherSettingsRecord) -> (r: LocalWeatherSettings)
    ensures
        r == weather_settings_on_wire(record),
        r.temperature_c == record.temperature_c,
{
    LocalWeatherSettings {
        weather_type: Some(weather_type_record_to_proto(record.weather_type)),
        temperature_c: record.temperature_c,
    }
}

pub fn runtime_weather_now_from_local(weather: LocalWeatherSettingsRecord) -> (r:
    EngineRuntimeWeatherNow)
    ensures
        r.weather_type == weather_in_engine(weather.weather_type),
        r.temperature_c == weather.temperature_c,
{
    EngineRuntimeWeatherNow {
        weather_type: weather_type_record_to_runtime(weather.weather_type),
        temperature_c: weather.temperature_c,
    }
}

/// Different weather is different on the wire and in the engine.
pub proof fn weather_is_kept_apart(a: WeatherTypeRecord, b: WeatherTypeRecord)
    requires
        a != b,
    ensures
        weather_on_wire(a) != weather_on_wire(b),
        weather_in_engine(a) != weather_in_engine(b),
        weather_on_wire(a) != WeatherType::Unspecified,
{
}

/// Where cars appear, on the wire.
#[derive(Clone, Copy, PartialEq, Eq, Debug, Structural)]
pub enum LocalSandboxSpawnMode {
    Unspecified,
    StartLine,
    RandomOnTrack,
    InPit,
    RandomStartSlot,
}

pub open spec fn spawn_mode_on_wire(mode: LocalSandboxSpawnModeRecord) -> LocalSandboxSpawnMode {
    match mode {
        LocalSandboxSpawnModeRecord::StartLine => LocalSandboxSpawnMode::StartLine,
        LocalSandboxSpawnModeRecord::RandomOnTrack => LocalSandboxSpawnMode::RandomOnTrack,
        LocalSandboxSpawnModeRecord::InPit => LocalSandboxSpawnMode::InPit,
        LocalSandboxSpawnModeRecord::RandomStartSlot => LocalSandboxSpawnMode::RandomStartSlot,
    }
}

pub fn local_spawn_mode_to_proto(mode: LocalSandboxSpawnModeRecord) -> (r: LocalSandboxSpawnMode)
    ensures
        r == spawn_mode_on_wire(mode),
{
    match mode {
        LocalSandboxSpawnModeRecord::StartLine => LocalSandboxSpawnMode::StartLine,
        LocalSandboxSpawnModeRecord::RandomOnTrack => LocalSandboxSpawnMode::RandomOnTrack,
        LocalSandboxSpawnModeRecord::InPit => LocalSandboxSpawnMode::InPit,
        LocalSandboxSpawnModeRecord::RandomStartSlot => LocalSandboxSpawnMode::RandomStartSlot,
    }
}

/// The spawn mode of a request; it is missing where its number stands for none.
pub fn local_spawn_mode_from_proto_value(value: Option<LocalSandboxSpawnMode>) -> (r: Result<
    LocalSandboxSpawnModeRecord,
    Status,
>)
    ensures
        match value {
            None => r matches Err(e) && e@ == (Code::InvalidArgument, "invalid spawn_mode"@),
            Some(mode) => if mode == LocalSandboxSpawnMode::Unspecified {
                r matches Err(e) && e@ == (Code::InvalidArgument, "spawn_mode must be specified"@)
            } else {
                r matches Ok(record) && spawn_mode_on_wire(record) == mode
            },
        },
{
    match value {
        None => Err(Status::invalid_argument("invalid spawn_mode")),
        Some(mode) => match mode {
            LocalSandboxSpawnMode::StartLine => Ok(LocalSandboxSpawnModeRecord::StartLine),
            LocalSandboxSpawnMode::RandomOnTrack => Ok(LocalSandboxSpawnModeRecord::RandomOnTrack),
            LocalSandboxSpawnMode::InPit => Ok(LocalSandboxSpawnModeRecord::InPit),
            LocalSandboxSpawnMode::RandomStartSlot => Ok(
                LocalSandboxSpawnModeRecord::RandomStartSlot,
            ),
            LocalSandboxSpawnMode::Unspecified => Err(
                Status::invalid_argument("spawn_mode must be specified"),
            ),
        },
    }
}

/// The settings of a local sandbox.
#[derive(Debug)]
pub struct LocalSandboxConfigInputRecord {
    pub sandbox_name: String,
    pub map_id: String,
    pub time_of_day: LocalTimeOfDaySettingsRecord,
    pub ghost_mode: Option<GhostModeSettings>,
    pub weather: LocalWeatherSettingsRecord,
    pub spawn_mode: LocalSandboxSpawnModeRecord,
}

/// A local sandbox with its id.
#[derive(Debug)]
pub struct LocalSandboxConfigRecord {
    pub sandbox_id: String,
    pub config: LocalSandboxConfigInputRecord,
}

impl Clone for LocalSandboxConfigRecord {
    fn clone(&self) -> (r: Self)
        ensures
            r == *self,
    {
        LocalSandboxConfigRecord {
            sandbox_id: self.sandbox_id.clone(),
            config: LocalSandboxConfigInputRecord {
                sandbox_name: self.config.sandbox_name.clone(),
                map_id: self.config.map_id.clone(),
                time_of_day: self.config.time_of_day,
                ghost_mode: self.config.ghost_mode,
                weather: self.config.weather,
                spawn_mode: self.config.spawn_mode,
            },
        }
    }
}

/// The first of the sandboxes with the id.
pub open spec fn local_sandbox_with_id(
    sandboxes: Seq<LocalSandboxConfigRecord>,
    id: Seq<char>,
) -> Option<LocalSandboxConfigRecord>
    decreases sandboxes.len(),
{
    if sandboxes.len() == 0 {
        None
    } else {
        match local_sandbox_with_id(sandboxes.drop_last(), id) {
            Some(record) => Some(record),
            None => if sandboxes.last().sandbox_id@ == id {
                Some(sandboxes.last())
            } else {
                None
            },
        }
    }
}

proof fn lemma_found_stays(sandboxes: Seq<LocalSandboxConfigRecord>, id: Seq<char>, n: int)
    requires
        0 <= n <= sandboxes.len(),
        local_sandbox_with_id(sandboxes.take(n), id) is Some,
    ensures
        local_sandbox_with_id(sandboxes, id) == local_sandbox_with_id(sandboxes.take(n), id),
    decreases sandboxes.len(),
{
    if n == sandboxes.len() {
        assert(sandboxes.take(n) =~= sandboxes);
    } else {
        assert(sandboxes.drop_last().take(n) =~= sandboxes.take(n));
        lemma_found_stays(sandboxes.drop_last(), id, n);
    }
}

/// A sandbox that was found has the id that was looked for.
pub proof fn found_local_sandbox_has_the_id(sandboxes: Seq<LocalSandboxConfigRecord>, id: Seq<char>)
    ensures
        local_sandbox_with_id(sandboxes, id) matches Some(record) ==> record.sandbox_id@ == id
            && sandboxes.contains(record),
    decreases sandboxes.len(),
{
    if sandboxes.len() > 0 {
        let head = sandboxes.drop_last();
        found_local_sandbox_has_the_id(head, id);
        match local_sandbox_with_id(head, id) {
            Some(record) => {
                let i = choose|i: int| 0 <= i < head.len() && head[i] == record;
                assert(sandboxes[i] == record);
            },
            None => {
                assert(sandboxes[sandboxes.len() - 1] == sandboxes.last());
            },
        }
    }
}

pub fn find_local_sandbox_by_id(
    sandboxes: &Vec<LocalSandboxConfigRecord>,
    sandbox_id: &str,
) -> (r: Option<LocalSandboxConfigRecord>)
    ensures
        r == local_sandbox_with_id(sandboxes@, sandbox_id@),
{
    let mut n: usize = 0;
    while n < sandboxes.len()
        invariant
            n <= sandboxes@.len(),
            local_sandbox_with_id(sandboxes@.take(n as int), sandbox_id@) is None,
        decreases sandboxes@.len() - n,
    {
        proof {
            assert(sandboxes@.take(n + 1).drop_last() =~= sandboxes@.take(n as int));
            assert(sandboxes@.take(n + 1).last() == sandboxes@[n as int]);
        }
        if text::str_eq(sandboxes[n].sandbox_id.as_str(), sandbox_id) {
            proof {
                lemma_found_stays(sandboxes@, sandbox_id@, n + 1);
            }
            return Some(sandboxes[n].clone());
        }
        n += 1;
    }
    proof {
        assert(sandboxes@.take(n as int) =~= sandboxes@);
    }
    None
}

/// Where cars appear in the sandbox.
pub fn local_spawn_mode_for_sandbox(
    sandboxes: &Vec<LocalSandboxConfigRecord>,
    sandbox_id: &str,
) -> (r: Result<LocalSandboxSpawnModeRecord, Status>)
    ensures
        match local_sandbox_with_id(sandboxes@, sandbox_id@) {
            Some(record) => r == Ok::<LocalSandboxSpawnModeRecord, Status>(
                record.config.spawn_mode,
            ),
            None => r matches Err(e) && e@ == (
                Code::NotFound,
                "local sandbox config not found for sandbox_id="@ + sandbox_id@,
            ),
        },
{
    match find_local_sandbox_by_id(sandboxes, sandbox_id) {
        Some(record) => Ok(record.config.spawn_mode),
        None => Err(
            Status::with_message(
                Code::NotFound,
                text::join2("local sandbox config not found for sandbox_id=", sandbox_id),
            ),
        ),
    }
}

/// Where the time of day comes from goes by one name on the wire and in storage.
pub proof fn modes_keep_their_names(mode: LocalTimeOfDayModeRecord)
    ensures
        (mode_on_wire(mode) is FixedPreset) == (mode is FixedPreset),
        (mode_on_wire(mode) is AutoByLocalTime) == (mode is AutoByLocalTime),
        !(mode_on_wire(mode) is Unspecified),
{
}

/// A time of day is taken from the wire exactly where it is told where it comes from and
/// its preset has a number that stands for something; a fixed one must name its preset.
pub proof fn times_of_day_in_order_are_taken(settings: LocalTimeOfDaySettings)
    ensures
        time_of_day_fault(settings) is None <==> {
            &&& settings.mode matches Some(mode) && !(mode is Unspecified)
            &&& settings.fixed_preset matches Some(preset) && (settings.mode == Some(
                LocalTimeOfDayMode::FixedPreset,
            ) ==> !(preset is Unspecified))
        },
{
}

/// Noon stands in for a preset that is not told, and for no other.
pub proof fn noon_stands_in(preset: RuntimeTimeOfDayPreset)
    ensures
        !(preset is Unspecified) ==> preset_or_noon(preset) == preset,
        preset is Unspecified ==> preset_or_noon(preset) is Noon,
{
}

/// What is taken from the wire is stored under the same names.
pub proof fn taken_time_of_day_is_kept(
    record: LocalTimeOfDaySettingsRecord,
    settings: LocalTimeOfDaySettings,
)
    requires
        time_of_day_fault(settings) is None,
        is_time_of_day_of(record, settings),
    ensures
        (record.mode is FixedPreset) == (settings.mode->Some_0 is FixedPreset),
        (record.mode is AutoByLocalTime) == (settings.mode->Some_0 is AutoByLocalTime),
        (record.fixed_preset is Morning) == (settings.fixed_preset->Some_0 is Morning),
        (record.fixed_preset is Evening) == (settings.fixed_preset->Some_0 is Evening),
        (record.fixed_preset is Night) == (settings.fixed_preset->Some_0 is Night),
        (record.fixed_preset is Noon) == (settings.fixed_preset->Some_0 is Noon
            || settings.fixed_preset->Some_0 is Unspecified),
{
}

/// The weather goes by one name on the wire, in storage and in the engine.
pub proof fn weather_keeps_its_name(weather: WeatherTypeRecord)
    ensures
        (weather_on_wire(weather) is Clear) == (weather is Clear),
        (weather_on_wire(weather) is PartlyCloudy) == (weather is PartlyCloudy),
        (weather_on_wire(weather) is Overcast) == (weather is Overcast),
        (weather_on_wire(weather) is LightRain) == (weather is LightRain),
        (weather_on_wire(weather) is MediumRain) == (weather is MediumRain),
        (weather_on_wire(weather) is HeavyRain) == (weather is HeavyRain),
        (weather_in_engine(weather) is Clear) == (weather is Clear),
        (weather_in_engine(weather) is PartlyCloudy) == (weather is PartlyCloudy),
        (weather_in_engine(weather) is Overcast) == (weather is Overcast),
        (weather_in_engine(weather) is LightRain) == (weather is LightRain),
        (weather_in_engine(weather) is MediumRain) == (weather is MediumRain),
        (weather_in_engine(weather) is HeavyRain) == (weather is HeavyRain),
{
}

/// Weather is taken from the wire exactly where it is told, and then it is stored with its
/// temperature; it goes back onto the wire as it came.
pub proof fn taken_weather_is_kept(
    record: LocalWeatherSettingsRecord,
    weather: LocalWeatherSettings,
)
    ensures
        weather_fault(weather) is None <==> (weather.weather_type matches Some(kind) && !(kind
            is Unspecified)),
        is_weather_of(record, weather) ==> record.temperature_c == weather.temperature_c
            && weather_settings_on_wire(record) == weather,
        weather_settings_on_wire(record).temperature_c == record.temperature_c,
        is_weather_of(record, weather_settings_on_wire(record)),
{
}

/// Where cars appear goes by one name on the wire and in storage.
pub proof fn spawn_modes_keep_their_names(mode: LocalSandboxSpawnModeRecord)
    ensures
        (spawn_mode_on_wire(mode) is StartLine) == (mode is StartLine),
        (spawn_mode_on_wire(mode) is RandomOnTrack) == (mode is RandomOnTrack),
        (spawn_mode_on_wire(mode) is InPit) == (mode is InPit),
        (spawn_mode_on_wire(mode) is RandomStartSlot) == (mode is RandomStartSlot),
        !(spawn_mode_on_wire(mode) is Unspecified),
{
}

/// A sandbox that was found is in the list, has the id, and no other with the id
/// comes before it; none is found exactly where none has the id.
pub proof fn found_local_sandbox_is_first(sandboxes: Seq<LocalSandboxConfigRecord>, id: Seq<char>)
    ensures
        match local_sandbox_with_id(sandboxes, id) {
            Some(record) => exists|i: int|
                0 <= i < sandboxes.len() && #[trigger] sandboxes[i] == record
                    && record.sandbox_id@ == id && forall|j: int|
                    0 <= j < i ==> (#[trigger] sandboxes[j]).sandbox_id@ != id,
            None => forall|i: int|
                0 <= i < sandboxes.len() ==> (#[trigger] sandboxes[i]).sandbox_id@ != id,
        },
    decreases sandboxes.len(),
{
    if sandboxes.len() > 0 {
        let rest = sandboxes.drop_last();
        found_local_sandbox_is_first(rest, id);
        assert forall|i: int| 0 <= i < rest.len() implies sandboxes[i] == #[trigger] rest[i] by {}
        match local_sandbox_with_id(rest, id) {
            Some(record) => {
                let i = choose|i: int|
                    0 <= i < rest.len() && #[trigger] rest[i] == record && record.sandbox_id@ == id
                        && forall|j: int|
                        0 <= j < i ==> (#[trigger] rest[j]).sandbox_id@ != id;
                assert(sandboxes[i] == record);
                assert forall|j: int| 0 <= j < i implies (
                #[trigger] sandboxes[j]).sandbox_id@ != id by {
                    assert(rest[j] == sandboxes[j]);
                }
            },
            None => {
                let last = sandboxes.len() - 1;
                assert(sandboxes[last] == sandboxes.last());
                assert forall|j: int| 0 <= j < last implies (
                #[trigger] sandboxes[j]).sandbox_id@ != id by {
                    assert(rest[j] == sandboxes[j]);
                }
            },
        }
    }
}

/// Of several faults of a time of day the first is told, and the fault of a weather too.
pub proof fn first_time_and_weather_fault_is_told(
    settings: LocalTimeOfDaySettings,
    weather: LocalWeatherSettings,
)
    ensures
        settings.mode is None ==> time_of_day_fault(settings) == Some("invalid time_of_day.mode"@),
        settings.mode == Some(LocalTimeOfDayMode::Unspecified) ==> time_of_day_fault(settings)
            == Some("time_of_day.mode must be specified"@),
        settings.mode is Some && settings.mode != Some(LocalTimeOfDayMode::Unspecified)
            && settings.fixed_preset is None ==> time_of_day_fault(settings) == Some(
            "invalid time_of_day.fixed_preset"@,
        ),
        settings.mode == Some(LocalTimeOfDayMode::FixedPreset) && settings.fixed_preset == Some(
            RuntimeTimeOfDayPreset::Unspecified,
        ) ==> time_of_day_fault(settings) == Some(
            "time_of_day.fixed_preset must be specified for fixed mode"@,
        ),
        weather.weather_type is None ==> weather_fault(weather) == Some(
            "invalid weather.weather_type"@,
        ),
        weather.weather_type == Some(WeatherType::Unspecified) ==> weather_fault(weather) == Some(
            "weather.weather_type must be specified"@,
        ),
{
}

} // verus!
