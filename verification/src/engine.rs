//! What the server knows of the simulation engine: sessions, commands' targets
//! and the runtime state.

use vstd::prelude::*;
use crate::status::{Code, Status};
use crate::text;

verus! {

/// The view of an optional string.
pub open spec fn opt_text(o: Option<String>) -> Option<Seq<char>> {
    match o {
        Some(s) => Some(s@),
        None => None,
    }
}

/// The session that an engine command is meant for.
#[derive(Debug)]
pub enum EngineCommandTarget {
    OfficialRace,
    Sandbox { sandbox_id: String },
    LocalRace { race_id: String },
}

/// The session that an engine command is meant for, by the characters of its id.
pub enum TargetView {
    OfficialRace,
    Sandbox { sandbox_id: Seq<char> },
    LocalRace { race_id: Seq<char> },
}

impl View for EngineCommandTarget {
    type V = TargetView;

    open spec fn view(&self) -> TargetView {
        match self {
            EngineCommandTarget::OfficialRace => TargetView::OfficialRace,
            EngineCommandTarget::Sandbox { sandbox_id } => TargetView::Sandbox {
                sandbox_id: sandbox_id@,
            },
            EngineCommandTarget::LocalRace { race_id } => TargetView::LocalRace {
                race_id: race_id@,
            },
        }
    }
}

/// The view of an optional target.
pub open spec fn opt_target(o: Option<EngineCommandTarget>) -> Option<TargetView> {
    match o {
        Some(t) => Some(t@),
        None => None,
    }
}

impl Clone for EngineCommandTarget {
    fn clone(&self) -> (r: Self)
        ensures
            r == *self,
    {
        match self {
            EngineCommandTarget::OfficialRace => EngineCommandTarget::OfficialRace,
            EngineCommandTarget::Sandbox { sandbox_id } => EngineCommandTarget::Sandbox {
                sandbox_id: sandbox_id.clone(),
            },
            EngineCommandTarget::LocalRace { race_id } => EngineCommandTarget::LocalRace {
                race_id: race_id.clone(),
            },
        }
    }
}

impl EngineCommandTarget {
    /// Whether both are the same session.
    pub fn is_same(&self, other: &EngineCommandTarget) -> (r: bool)
        ensures
            r == (self@ == other@),
    {
        match (self, other) {
            (EngineCommandTarget::OfficialRace, EngineCommandTarget::OfficialRace) => true,
            (
                EngineCommandTarget::Sandbox { sandbox_id: a },
                EngineCommandTarget::Sandbox { sandbox_id: b },
            ) => text::str_eq(a.as_str(), b.as_str()),
            (
                EngineCommandTarget::LocalRace { race_id: a },
                EngineCommandTarget::LocalRace { race_id: b },
            ) => text::str_eq(a.as_str(), b.as_str()),
            _ => false,
        }
    }

    pub fn is_official_race(&self) -> (r: bool)
        ensures
            r == (self@ == TargetView::OfficialRace),
    {
        match self {
            EngineCommandTarget::OfficialRace => true,
            _ => false,
        }
    }
}

/// What the engine is running.
#[derive(Clone, Copy, PartialEq, Eq, Debug, Structural)]
pub enum EngineActivityKind {
    Idle,
    Sandbox,
    OfficialRace,
    LocalRace,
}

#[derive(Clone, Copy, PartialEq, Eq, Debug, Structural)]
pub enum EngineRuntimeTimeOfDayPreset {
    Unspecified,
    Morning,
    Noon,
    Evening,
    Night,
}

/// A sandbox session that is running.
#[derive(Debug)]
pub struct EngineActiveSandboxState {
    pub sandbox_id: String,
    pub map_id: String,
    pub time_of_day_preset: EngineRuntimeTimeOfDayPreset,
}

impl Clone for EngineActiveSandboxState {
    fn clone(&self) -> (r: Self)
        ensures
            r == *self,
    {
        EngineActiveSandboxState {
            sandbox_id: self.sandbox_id.clone(),
            map_id: self.map_id.clone(),
            time_of_day_preset: self.time_of_day_preset,
        }
    }
}

/// The local race that is running.
#[derive(Debug)]
pub struct EngineActiveLocalRaceState {
    pub race_id: String,
    pub map_id: String,
}

/// The engine's runtime state.
#[derive(Debug)]
pub struct EngineRuntimeState {
    pub revision: u64,
    pub activity_kind: EngineActivityKind,
    pub map_id: String,
    pub time_of_day_preset: EngineRuntimeTimeOfDayPreset,
    pub active_sandboxes: Vec<EngineActiveSandboxState>,
    pub active_local_race: Option<EngineActiveLocalRaceState>,
}

/// `i` is the first of `sandboxes` whose id is `id`.
pub open spec fn is_first_sandbox(
    sandboxes: Seq<EngineActiveSandboxState>,
    id: Seq<char>,
    i: int,
) -> bool {
    &&& 0 <= i < sandboxes.len()
    &&& sandboxes[i].sandbox_id@ == id
    &&& forall|j: int| 0 <= j < i ==> (#[trigger] sandboxes[j]).sandbox_id@ != id
}

/// Whether a sandbox with the id is running.
pub open spec fn has_sandbox(sandboxes: Seq<EngineActiveSandboxState>, id: Seq<char>) -> bool {
    exists|i: int| 0 <= i < sandboxes.len() && (#[trigger] sandboxes[i]).sandbox_id@ == id
}

/// The position of the first running sandbox with the id.
pub fn find_active_sandbox(sandboxes: &Vec<EngineActiveSandboxState>, id: &str) -> (r: Option<
    usize,
>)
    ensures
        match r {
            Some(i) => is_first_sandbox(sandboxes@, id@, i as int),
            None => !has_sandbox(sandboxes@, id@),
        },
{
    let mut i: usize = 0;
    while i < sandboxes.len()
        invariant
            i <= sandboxes@.len(),
            forall|j: int| 0 <= j < i ==> (#[trigger] sandboxes@[j]).sandbox_id@ != id@,
        decreases sandboxes@.len() - i,
    {
        if text::str_eq(sandboxes[i].sandbox_id.as_str(), id) {
            return Some(i);
        }
        i += 1;
    }
    None
}

/// Why the engine worker did not carry a command out.
#[derive(Debug)]
pub enum EngineWorkerError {
    /// The engine reported an error, given by its message.
    Engine(String),
    WorkerStopped,
    InvalidArgument(String),
}

/// The status that a worker error is answered with.
pub open spec fn worker_status(err: EngineWorkerError) -> (Code, Seq<char>) {
    match err {
        EngineWorkerError::Engine(message) => (Code::Internal, "engine error: "@ + message@),
        EngineWorkerError::WorkerStopped => (Code::Unavailable, "engine worker stopped"@),
        EngineWorkerError::InvalidArgument(message) => (Code::InvalidArgument, message@),
    }
}

/// Maps engine-layer errors into status responses.
pub fn map_worker_err(err: EngineWorkerError) -> (r: Status)
    ensures
        r@ == worker_status(err),
{
    match err {
        EngineWorkerError::Engine(message) => map_engine_err(&message),
        EngineWorkerError::WorkerStopped => Status::new(Code::Unavailable, "engine worker stopped"),
        EngineWorkerError::InvalidArgument(message) => Status::with_message(
            Code::InvalidArgument,
            message,
        ),
    }
}

/// The one shape in which an engine error reaches a caller.
pub fn map_engine_err(message: &str) -> (r: Status)
    ensures
        r@ == (Code::Internal, "engine error: "@ + message@),
{
    Status::with_message(Code::Internal, text::join2("engine error: ", message))
}

/// An argument that the engine refuses is the caller's fault and is told as the engine
/// tells it; an engine that has stopped is unavailable; all else is internal.
pub proof fn worker_errors_have_their_codes(err: EngineWorkerError)
    ensures
        (worker_status(err).0 == Code::InvalidArgument) == (err is InvalidArgument),
        (worker_status(err).0 == Code::Unavailable) == (err is WorkerStopped),
        (worker_status(err).0 == Code::Internal) == (err is Engine),
        err matches EngineWorkerError::InvalidArgument(message) ==> worker_status(err).1
            == message@,
{
}

/// A sandbox is running exactly where there is a first one with its id, and there is only
/// one such.
pub proof fn first_sandbox_is_one(
    sandboxes: Seq<EngineActiveSandboxState>,
    id: Seq<char>,
    i: int,
    j: int,
)
    ensures
        is_first_sandbox(sandboxes, id, i) && is_first_sandbox(sandboxes, id, j) ==> i == j,
        is_first_sandbox(sandboxes, id, i) ==> sandboxes[i].sandbox_id@ == id && has_sandbox(
            sandboxes,
            id,
        ),
        0 <= j < sandboxes.len() && sandboxes[j].sandbox_id@ == id && is_first_sandbox(
            sandboxes,
            id,
            i,
        ) ==> i <= j,
        0 <= j < sandboxes.len() && sandboxes[j].sandbox_id@ == id ==> has_sandbox(sandboxes, id),
{
}

/// A session is seen as what it is, with its id, and so is a text that may be missing.
pub proof fn sessions_are_seen_as_they_are(
    target: EngineCommandTarget,
    maybe: Option<EngineCommandTarget>,
    named: Option<String>,
)
    ensures
        (target@ is OfficialRace) == (target is OfficialRace),
        (target@ is Sandbox) == (target is Sandbox),
        (target@ is LocalRace) == (target is LocalRace),
        target matches EngineCommandTarget::Sandbox { sandbox_id } ==> target@->sandbox_id
            == sandbox_id@,
        target matches EngineCommandTarget::LocalRace { race_id } ==> target@->race_id == race_id@,
        (opt_target(maybe) is Some) == (maybe is Some),
        maybe matches Some(t) ==> opt_target(maybe) == Some(t@),
        (opt_text(named) is Some) == (named is Some),
        named matches Some(name) ==> opt_text(named) == Some(name@),
{
}

/// What the engine tells of its own errors is told behind a word that says so, and that it has
/// stopped is told in words.
pub proof fn worker_errors_are_told(err: EngineWorkerError)
    ensures
        err matches EngineWorkerError::Engine(message) ==> worker_status(err).1
            == "engine error: "@ + message@,
        err is WorkerStopped ==> worker_status(err).1 == "engine worker stopped"@,
{
}

} // verus!
