//! Times of day: as they are on the wire, in the engine and in stored settings.

use vstd::prelude::*;
use crate::engine::EngineRuntimeTimeOfDayPreset;
use crate::status::{Code, Status};

verus! {

/// The time of day of a session, on the wire.
#[derive(Clone, Copy, PartialEq, Eq, Debug, Structural)]
pub enum RuntimeTimeOfDayPreset {
    Unspecified,
    Morning,
    Noon,
    Evening,
    Night,
}

/// The engine's preset of the same name.
pub open spec fn preset_in_engine(preset: RuntimeTimeOfDayPreset) -> EngineRuntimeTimeOfDayPreset {
    match preset {
        RuntimeTimeOfDayPreset::Unspecified => EngineRuntimeTimeOfDayPreset::Unspecified,
        RuntimeTimeOfDayPreset::Morning => EngineRuntimeTimeOfDayPreset::Morning,
        RuntimeTimeOfDayPreset::Noon => EngineRuntimeTimeOfDayPreset::Noon,
        RuntimeTimeOfDayPreset::Evening => EngineRuntimeTimeOfDayPreset::Evening,
        RuntimeTimeOfDayPreset::Night => EngineRuntimeTimeOfDayPreset::Night,
    }
}

/// The preset of the same name on the wire.
pub open spec fn preset_on_wire(preset: EngineRuntimeTimeOfDayPreset) -> RuntimeTimeOfDayPreset {
    match preset {
        EngineRuntimeTimeOfDayPreset::Unspecified => RuntimeTimeOfDayPreset::Unspecified,
        EngineRuntimeTimeOfDayPreset::Morning => RuntimeTimeOfDayPreset::Morning,
        EngineRuntimeTimeOfDayPreset::Noon => RuntimeTimeOfDayPreset::Noon,
        EngineRuntimeTimeOfDayPreset::Evening => RuntimeTimeOfDayPreset::Evening,
        EngineRuntimeTimeOfDayPreset::Night => RuntimeTimeOfDayPreset::Night,
    }
}

/// Presets come back from the engine as they went in, and the other way round.
pub proof fn preset_round_trip(
    wire: RuntimeTimeOfDayPreset,
    engine: EngineRuntimeTimeOfDayPreset,
)
    ensures
        preset_on_wire(preset_in_engine(wire)) == wire,
        preset_in_engine(preset_on_wire(engine)) == engine,
{
}

pub fn runtime_time_of_day_preset_to_proto(preset: EngineRuntimeTimeOfDayPreset) -> (r:
    RuntimeTimeOfDayPreset)
    ensures
        r == preset_on_wire(preset),
{
    match preset {
        EngineRuntimeTimeOfDayPreset::Unspecified => RuntimeTimeOfDayPreset::Unspecified,
        EngineRuntimeTimeOfDayPreset::Morning => RuntimeTimeOfDayPreset::Morning,
        EngineRuntimeTimeOfDayPreset::Noon => RuntimeTimeOfDayPreset::Noon,
        EngineRuntimeTimeOfDayPreset::Evening => RuntimeTimeOfDayPreset::Evening,
        EngineRuntimeTimeOfDayPreset::Night => RuntimeTimeOfDayPreset::Night,
    }
}

pub fn runtime_time_of_day_preset_from_proto(preset: RuntimeTimeOfDayPreset) -> (r:
    EngineRuntimeTimeOfDayPreset)
    ensures
        r == preset_in_engine(preset),
{
    match preset {
        RuntimeTimeOfDayPreset::Unspecified => EngineRuntimeTimeOfDayPreset::Unspecified,
        RuntimeTimeOfDayPreset::Morning => EngineRuntimeTimeOfDayPreset::Morning,
        RuntimeTimeOfDayPreset::Noon => EngineRuntimeTimeOfDayPreset::Noon,
        RuntimeTimeOfDayPreset::Evening => EngineRuntimeTimeOfDayPreset::Evening,
        RuntimeTimeOfDayPreset::Night => EngineRuntimeTimeOfDayPreset::Night,
    }
}

/// A preset that is stored: there is always one.
#[derive(Clone, Copy, PartialEq, Eq, Debug, Structural)]
pub enum RuntimeTimeOfDayPresetRecord {
    Morning,
    Noon,
    Evening,
    Night,
}

pub open spec fn record_on_wire(preset: RuntimeTimeOfDayPresetRecord) -> RuntimeTimeOfDayPreset {
    match preset {
        RuntimeTimeOfDayPresetRecord::Morning => RuntimeTimeOfDayPreset::Morning,
        RuntimeTimeOfDayPresetRecord::Noon => RuntimeTimeOfDayPreset::Noon,
        RuntimeTimeOfDayPresetRecord::Evening => RuntimeTimeOfDayPreset::Evening,
        RuntimeTimeOfDayPresetRecord::Night => RuntimeTimeOfDayPreset::Night,
    }
}

pub fn runtime_time_of_day_preset_record_to_proto(preset: RuntimeTimeOfDayPresetRecord) -> (r:
    RuntimeTimeOfDayPreset)
    ensures
        r == record_on_wire(preset),
{
    match preset {
        RuntimeTimeOfDayPresetRecord::Morning => RuntimeTimeOfDayPreset::Morning,
        RuntimeTimeOfDayPresetRecord::Noon => RuntimeTimeOfDayPreset::Noon,
        RuntimeTimeOfDayPresetRecord::Evening => RuntimeTimeOfDayPreset::Evening,
        RuntimeTimeOfDayPresetRecord::Night => RuntimeTimeOfDayPreset::Night,
    }
}

pub fn runtime_time_of_day_preset_record_to_engine(preset: RuntimeTimeOfDayPresetRecord) -> (r:
    EngineRuntimeTimeOfDayPreset)
    ensures
        r == preset_in_engine(record_on_wire(preset)),
{
    match preset {
        RuntimeTimeOfDayPresetRecord::Morning => EngineRuntimeTimeOfDayPreset::Morning,
        RuntimeTimeOfDayPresetRecord::Noon => EngineRuntimeTimeOfDayPreset::Noon,
        RuntimeTimeOfDayPresetRecord::Evening => EngineRuntimeTimeOfDayPreset::Evening,
        RuntimeTimeOfDayPresetRecord::Night => EngineRuntimeTimeOfDayPreset::Night,
    }
}

pub fn runtime_time_of_day_preset_record_from_proto(preset: RuntimeTimeOfDayPreset) -> (r: Result<
    RuntimeTimeOfDayPresetRecord,
    Status,
>)
    ensures
        preset == RuntimeTimeOfDayPreset::Unspecified ==> (r matches Err(e) && e@ == (
            Code::InvalidArgument,
            "time_of_day.fixed_preset must be specified"@,
        )),
        preset != RuntimeTimeOfDayPreset::Unspecified ==> (r matches Ok(record) && record_on_wire(
            record,
        ) == preset),
{
    match preset {
        RuntimeTimeOfDayPreset::Morning => Ok(RuntimeTimeOfDayPresetRecord::Morning),
        RuntimeTimeOfDayPreset::Noon => Ok(RuntimeTimeOfDayPresetRecord::Noon),
        RuntimeTimeOfDayPreset::Evening => Ok(RuntimeTimeOfDayPresetRecord::Evening),
        RuntimeTimeOfDayPreset::Night => Ok(RuntimeTimeOfDayPresetRecord::Night),
        RuntimeTimeOfDayPreset::Unspecified => Err(
            Status::invalid_argument("time_of_day.fixed_preset must be specified"),
        ),
    }
}

/// A preset goes by one name on the wire, in the engine and in storage, and a stored one
/// is never unspecified.
pub proof fn presets_keep_their_names(
    wire: RuntimeTimeOfDayPreset,
    stored: RuntimeTimeOfDayPresetRecord,
)
    ensures
        (preset_in_engine(wire) is Unspecified) == (wire is Unspecified),
        (preset_in_engine(wire) is Morning) == (wire is Morning),
        (preset_in_engine(wire) is Noon) == (wire is Noon),
        (preset_in_engine(wire) is Evening) == (wire is Evening),
        (preset_in_engine(wire) is Night) == (wire is Night),
        (record_on_wire(stored) is Morning) == (stored is Morning),
        (record_on_wire(stored) is Noon) == (stored is Noon),
        (record_on_wire(stored) is Evening) == (stored is Evening),
        (record_on_wire(stored) is Night) == (stored is Night),
        !(record_on_wire(stored) is Unspecified),
{
}

} // verus!
