//! What a stream's client may see, how often it is served, and which map it is
//! told of.

use vstd::prelude::*;
use crate::engine::{
    find_active_sandbox, has_sandbox, is_first_sandbox, EngineActivityKind, EngineCommandTarget,
    EngineRuntimeState,
};
use crate::status::{Code, Status};
use crate::text;

verus! {

pub const DEFAULT_STREAM_HZ: u32 = 20;

pub const MIN_STREAM_HZ: u32 = 1;

pub const MAX_STREAM_HZ: u32 = 120;

pub const PARTICIPANT_REQUESTED_HZ: u32 = 30;

/// How much a client sees, from the least to the most.
#[derive(Clone, Copy, PartialEq, Eq, Debug, Structural)]
pub enum SpectatorView {
    Unspecified,
    Public,
    Team,
    All,
}

#[derive(Clone, Copy, PartialEq, Eq, Debug, Structural)]
pub enum ViewDowngradeReason {
    NotDowngraded,
    NotAuthorized,
}

#[derive(Clone, Copy, PartialEq, Eq, Debug, Structural)]
pub enum StreamClampReason {
    NotClamped,
    ServerLimit,
}

/// The rank of a view: a higher one shows more.
pub open spec fn view_rank(view: SpectatorView) -> int {
    match view {
        SpectatorView::Unspecified => 0,
        SpectatorView::Public => 1,
        SpectatorView::Team => 2,
        SpectatorView::All => 3,
    }
}

fn rank_of(view: SpectatorView) -> (r: u8)
    ensures
        r == view_rank(view),
{
    match view {
        SpectatorView::Unspecified => 0,
        SpectatorView::Public => 1,
        SpectatorView::Team => 2,
        SpectatorView::All => 3,
    }
}

/// Whether the scope is among those granted.
pub open spec fn has_scope(scopes: Seq<String>, scope: Seq<char>) -> bool {
    exists|i: int| 0 <= i < scopes.len() && (#[trigger] scopes[i])@ == scope
}

fn grants(scopes: &Vec<String>, scope: &str) -> (r: bool)
    ensures
        r == has_scope(scopes@, scope@),
{
    let mut i: usize = 0;
    while i < scopes.len()
        invariant
            i <= scopes@.len(),
            forall|j: int| 0 <= j < i ==> (#[trigger] scopes@[j])@ != scope@,
        decreases scopes@.len() - i,
    {
        if text::str_eq(scopes[i].as_str(), scope) {
            return true;
        }
        i += 1;
    }
    false
}

/// The most that the scopes let a client see.
pub open spec fn allowed_view(scopes: Seq<String>) -> SpectatorView {
    if has_scope(scopes, "race.read.all"@) {
        SpectatorView::All
    } else if has_scope(scopes, "race.read.team"@) {
        SpectatorView::Team
    } else {
        SpectatorView::Public
    }
}

/// The view that a client gets: what it asked for, unless that is more than its
/// scopes allow.
pub fn resolve_view(requested_view: SpectatorView, scopes: &Vec<String>) -> (r: (
    SpectatorView,
    ViewDowngradeReason,
))
    ensures
        view_rank(requested_view) <= view_rank(allowed_view(scopes@)) ==> r == (
            requested_view,
            ViewDowngradeReason::NotDowngraded,
        ),
        view_rank(requested_view) > view_rank(allowed_view(scopes@)) ==> r == (
            allowed_view(scopes@),
            ViewDowngradeReason::NotAuthorized,
        ),
{
    let allowed: SpectatorView = if grants(scopes, "race.read.all") {
        SpectatorView::All
    } else if grants(scopes, "race.read.team") {
        SpectatorView::Team
    } else {
        SpectatorView::Public
    };
    if rank_of(requested_view) <= rank_of(allowed) {
        (requested_view, ViewDowngradeReason::NotDowngraded)
    } else {
        (allowed, ViewDowngradeReason::NotAuthorized)
    }
}

/// The requested view as it is served: what is unknown or left open is public.
pub fn normalize_requested_view(decoded: Option<SpectatorView>) -> (r: SpectatorView)
    ensures
        r == match decoded {
            Some(view) if view != SpectatorView::Unspecified => view,
            _ => SpectatorView::Public,
        },
{
    match decoded {
        Some(SpectatorView::Unspecified) => SpectatorView::Public,
        Some(view) => view,
        None => SpectatorView::Public,
    }
}

/// `x` brought into `[low, high]`.
pub open spec fn clamped(x: int, low: int, high: int) -> int {
    if x < low {
        low
    } else if x > high {
        high
    } else {
        x
    }
}

pub open spec fn smaller(a: int, b: int) -> int {
    if a < b {
        a
    } else {
        b
    }
}

/// Requested rate, effective rate and the reason where they differ.
#[derive(Clone, Copy, PartialEq, Eq, Debug, Structural)]
pub struct StreamRate {
    pub requested_hz: u32,
    pub effective_hz: u32,
    pub clamp_reason: StreamClampReason,
}

/// The rate at which a request for `requested` is served, up to `max`.
pub open spec fn is_rate(rate: StreamRate, requested: int, max: int) -> bool {
    &&& rate.requested_hz == requested
    &&& rate.effective_hz == clamped(requested, MIN_STREAM_HZ as int, max)
    &&& rate.clamp_reason == if rate.effective_hz == requested {
        StreamClampReason::NotClamped
    } else {
        StreamClampReason::ServerLimit
    }
}

fn clamp_rate(requested_hz: u32, max_hz: u32) -> (r: StreamRate)
    requires
        max_hz >= MIN_STREAM_HZ,
    ensures
        is_rate(r, requested_hz as int, max_hz as int),
{
    let effective_hz: u32 = if requested_hz < MIN_STREAM_HZ {
        MIN_STREAM_HZ
    } else if requested_hz > max_hz {
        max_hz
    } else {
        requested_hz
    };
    let clamp_reason: StreamClampReason = if effective_hz == requested_hz {
        StreamClampReason::NotClamped
    } else {
        StreamClampReason::ServerLimit
    };
    StreamRate { requested_hz, effective_hz, clamp_reason }
}

/// The rate of a spectator stream. A request for 0 stands for the default; the
/// simulation must run at one step a second at least.
pub fn resolve_stream_rate(requested_hz: u32, simulation_hz: u32) -> (r: StreamRate)
    requires
        simulation_hz >= MIN_STREAM_HZ,
    ensures
        is_rate(
            r,
            if requested_hz == 0 {
                DEFAULT_STREAM_HZ as int
            } else {
                requested_hz as int
            },
            smaller(MAX_STREAM_HZ as int, simulation_hz as int),
        ),
        requested_hz == 0 ==> r.requested_hz == 20,
        requested_hz > 0 ==> r.requested_hz == requested_hz,
        1 <= r.effective_hz <= 120,
        r.effective_hz <= simulation_hz,
        r.requested_hz <= 120 && r.requested_hz <= simulation_hz ==> r.effective_hz
            == r.requested_hz,
{
    let requested: u32 = if requested_hz == 0 {
        DEFAULT_STREAM_HZ
    } else {
        requested_hz
    };
    let max_hz: u32 = if simulation_hz < MAX_STREAM_HZ {
        simulation_hz
    } else {
        MAX_STREAM_HZ
    };
    clamp_rate(requested, max_hz)
}

/// The rate of a participant stream.
pub fn resolve_participant_rate(simulation_hz: u32) -> (r: StreamRate)
    ensures
        is_rate(
            r,
            PARTICIPANT_REQUESTED_HZ as int,
            smaller(
                MAX_STREAM_HZ as int,
                if simulation_hz == 0 {
                    1
                } else {
                    simulation_hz as int
                },
            ),
        ),
        r.requested_hz == 30,
        simulation_hz >= 30 ==> r.effective_hz == 30,
        1 <= simulation_hz < 30 ==> r.effective_hz == simulation_hz,
        simulation_hz == 0 ==> r.effective_hz == 1,
{
    let simulated: u32 = if simulation_hz < 1 {
        1
    } else {
        simulation_hz
    };
    let max_hz: u32 = if simulated < MAX_STREAM_HZ {
        simulated
    } else {
        MAX_STREAM_HZ
    };
    clamp_rate(PARTICIPANT_REQUESTED_HZ, max_hz)
}

/// A served rate is never below one frame a second, and never above the limit or
/// the simulation.
pub proof fn served_rate_is_within_limits(
    rate: StreamRate,
    requested: int,
    simulation_hz: int,
)
    requires
        simulation_hz >= 1,
        is_rate(rate, requested, smaller(MAX_STREAM_HZ as int, simulation_hz)),
    ensures
        MIN_STREAM_HZ <= rate.effective_hz <= MAX_STREAM_HZ,
        rate.effective_hz <= simulation_hz,
        rate.clamp_reason == StreamClampReason::NotClamped <==> rate.effective_hz
            == rate.requested_hz,
{
}

/// What a client is told when its stream begins.
#[derive(Debug)]
pub struct StreamSettings {
    pub requested_hz: u32,
    pub effective_hz: u32,
    pub clamp_reason: StreamClampReason,
    pub resolved_view: SpectatorView,
    pub view_downgrade_reason: ViewDowngradeReason,
    pub map_id: String,
}

/// The settings of a stream with the rate, view and map.
pub open spec fn settings_match(
    s: StreamSettings,
    rate: StreamRate,
    view: SpectatorView,
    reason: ViewDowngradeReason,
    map_id: Seq<char>,
) -> bool {
    &&& s.requested_hz == rate.requested_hz
    &&& s.effective_hz == rate.effective_hz
    &&& s.clamp_reason == rate.clamp_reason
    &&& s.resolved_view == view
    &&& s.view_downgrade_reason == reason
    &&& s.map_id@ == map_id
}

pub fn build_stream_settings(
    rate: StreamRate,
    resolved_view: SpectatorView,
    view_downgrade_reason: ViewDowngradeReason,
    map_id: &str,
) -> (r: StreamSettings)
    ensures
        settings_match(r, rate, resolved_view, view_downgrade_reason, map_id@),
        r.requested_hz == rate.requested_hz,
        r.effective_hz == rate.effective_hz,
        r.clamp_reason == rate.clamp_reason,
        r.resolved_view == resolved_view,
        r.view_downgrade_reason == view_downgrade_reason,
        r.map_id@ == map_id@,
{
    StreamSettings {
        requested_hz: rate.requested_hz,
        effective_hz: rate.effective_hz,
        clamp_reason: rate.clamp_reason,
        resolved_view,
        view_downgrade_reason,
        map_id: map_id.to_owned(),
    }
}

/// `map_id` is the map that the spectators of `target` see.
pub open spec fn is_spectator_map(
    state: EngineRuntimeState,
    target: Option<EngineCommandTarget>,
    map_id: Seq<char>,
) -> bool {
    let sandboxes = state.active_sandboxes@;
    if target matches Some(EngineCommandTarget::Sandbox { sandbox_id }) && has_sandbox(
        sandboxes,
        sandbox_id@,
    ) {
        forall|i: int|
            #[trigger] is_first_sandbox(
                sandboxes,
                target->Some_0->sandbox_id@,
                i,
            ) ==> sandboxes[i].map_id@ == map_id
    } else if state.activity_kind == EngineActivityKind::Sandbox && sandboxes.len() == 1 {
        sandboxes[0].map_id@ == map_id
    } else {
        state.map_id@ == map_id
    }
}

/// The map that the spectators of the target see.
pub fn resolve_runtime_map_id(
    runtime_state: &EngineRuntimeState,
    visible_target: &Option<EngineCommandTarget>,
) -> (r: String)
    ensures
        is_spectator_map(*runtime_state, *visible_target, r@),
{
    match visible_target {
        Some(EngineCommandTarget::Sandbox { sandbox_id }) => {
            let found: Option<usize> = find_active_sandbox(
                &runtime_state.active_sandboxes,
                sandbox_id.as_str(),
            );
            match found {
                Some(i) => {
                    assert(runtime_state.active_sandboxes@[i as int].sandbox_id@ == sandbox_id@);
                    return runtime_state.active_sandboxes[i].map_id.clone();
                },
                None => {},
            }
        },
        _ => {},
    }
    if runtime_state.activity_kind == EngineActivityKind::Sandbox
        && runtime_state.active_sandboxes.len() == 1 {
        return runtime_state.active_sandboxes[0].map_id.clone();
    }
    runtime_state.map_id.clone()
}

/// `map_id` is the map that a driver in `target` is told of; nothing where no
/// runtime state is known.
pub open spec fn is_participant_map(
    state: Option<EngineRuntimeState>,
    target: EngineCommandTarget,
    map_id: Seq<char>,
) -> bool {
    match state {
        None => map_id.len() == 0,
        Some(state) => {
            let sandboxes = state.active_sandboxes@;
            if target is Sandbox && has_sandbox(sandboxes, target->sandbox_id@) {
                forall|i: int|
                    #[trigger] is_first_sandbox(sandboxes, target->sandbox_id@, i)
                        ==> sandboxes[i].map_id@ == map_id
            } else if target is LocalRace && state.active_local_race is Some
                && state.active_local_race->Some_0.race_id@ == target->race_id@ {
                state.active_local_race->Some_0.map_id@ == map_id
            } else {
                state.map_id@ == map_id
            }
        },
    }
}

/// The map that a driver in the session is told of.
pub fn resolve_participant_map_id(
    runtime_state: &Option<EngineRuntimeState>,
    target: &EngineCommandTarget,
) -> (r: String)
    ensures
        is_participant_map(*runtime_state, *target, r@),
{
    match runtime_state {
        None => String::new(),
        Some(state) => {
            match target {
                EngineCommandTarget::Sandbox { sandbox_id } => {
                    let found: Option<usize> = find_active_sandbox(
                        &state.active_sandboxes,
                        sandbox_id.as_str(),
                    );
                    match found {
                        Some(i) => {
                            assert(state.active_sandboxes@[i as int].sandbox_id@ == sandbox_id@);
                            return state.active_sandboxes[i].map_id.clone();
                        },
                        None => {},
                    }
                },
                EngineCommandTarget::LocalRace { race_id } => {
                    match &state.active_local_race {
                        Some(active) => {
                            if text::str_eq(active.race_id.as_str(), race_id.as_str()) {
                                return active.map_id.clone();
                            }
                        },
                        None => {},
                    }
                },
                EngineCommandTarget::OfficialRace => {},
            }
            state.map_id.clone()
        },
    }
}

/// Why a sandbox is refused to a driver or a spectator, or which one it is.
pub open spec fn is_sandbox_choice(
    state: EngineRuntimeState,
    requested: Seq<char>,
    r: Result<usize, Status>,
) -> bool {
    let sandboxes = state.active_sandboxes@;
    let wanted = text::trimmed(requested);
    if sandboxes.len() == 0 {
        r matches Err(e) && e@ == (Code::FailedPrecondition, "sandbox runtime is not active"@)
    } else if wanted.len() > 0 {
        if has_sandbox(sandboxes, wanted) {
            r matches Ok(i) && is_first_sandbox(sandboxes, wanted, i as int)
        } else {
            r matches Err(e) && e@ == (
                Code::NotFound,
                "sandbox runtime is not active for sandbox_id="@ + wanted,
            )
        }
    } else if sandboxes.len() == 1 {
        r matches Ok(i) && i == 0
    } else {
        r matches Err(e) && e@ == (
            Code::FailedPrecondition,
            "sandbox_id is required when multiple sandbox sessions are active"@,
        )
    }
}

/// The position of the running sandbox that was asked for; the only one running
/// where none was named.
pub fn select_quick_join_sandbox(
    runtime_state: &EngineRuntimeState,
    requested_sandbox_id: &str,
) -> (r: Result<usize, Status>)
    ensures
        is_sandbox_choice(*runtime_state, requested_sandbox_id@, r),
{
    if runtime_state.active_sandboxes.len() == 0 {
        return Err(Status::failed_precondition("sandbox runtime is not active"));
    }
    let wanted: String = text::trim(requested_sandbox_id);
    if !wanted.as_str().is_empty() {
        let found: Option<usize> = find_active_sandbox(
            &runtime_state.active_sandboxes,
            wanted.as_str(),
        );
        return match found {
            Some(i) => {
                assert(runtime_state.active_sandboxes@[i as int].sandbox_id@ == wanted@);
                Ok(i)
            },
            None => Err(
                Status::with_message(
                    Code::NotFound,
                    text::join2(
                        "sandbox runtime is not active for sandbox_id=",
                        wanted.as_str(),
                    ),
                ),
            ),
        };
    }
    if runtime_state.active_sandboxes.len() == 1 {
        return Ok(0);
    }
    Err(
        Status::failed_precondition(
            "sandbox_id is required when multiple sandbox sessions are active",
        ),
    )
}

/// What a spectator asks to watch.
#[derive(Debug)]
pub enum SpectatorTarget {
    Sandbox { sandbox_id: String },
    OfficialRace,
}

/// The session that the spectator's request leads to.
pub fn resolve_stream_target(
    requested: &Option<SpectatorTarget>,
    runtime_state: &EngineRuntimeState,
) -> (r: Result<EngineCommandTarget, Status>)
    ensures
        match requested {
            None => r matches Err(e) && e@ == (
                Code::InvalidArgument,
                "spectator target must be set"@,
            ),
            Some(SpectatorTarget::OfficialRace) => if runtime_state.activity_kind
                == EngineActivityKind::OfficialRace {
                r matches Ok(t) && t is OfficialRace
            } else {
                r matches Err(e) && e@ == (
                    Code::FailedPrecondition,
                    "official race runtime is not active"@,
                )
            },
            Some(SpectatorTarget::Sandbox { sandbox_id }) => if text::is_blank(sandbox_id@) {
                r matches Err(e) && e@ == (
                    Code::InvalidArgument,
                    "sandbox_id is required for sandbox spectator target"@,
                )
            } else {
                exists|choice: Result<usize, Status>|
                    {
                        &&& #[trigger] is_sandbox_choice(*runtime_state, sandbox_id@, choice)
                        &&& match choice {
                            Ok(i) => r matches Ok(EngineCommandTarget::Sandbox { sandbox_id: id })
                                && id@ == runtime_state.active_sandboxes@[i as int].sandbox_id@,
                            Err(e) => r == Err::<EngineCommandTarget, Status>(e),
                        }
                    }
            },
        },
{
    match requested {
        None => Err(Status::invalid_argument("spectator target must be set")),
        Some(SpectatorTarget::OfficialRace) => {
            if runtime_state.activity_kind == EngineActivityKind::OfficialRace {
                Ok(EngineCommandTarget::OfficialRace)
            } else {
                Err(Status::failed_precondition("official race runtime is not active"))
            }
        },
        Some(SpectatorTarget::Sandbox { sandbox_id }) => {
            let wanted: String = text::trim(sandbox_id.as_str());
            proof {
                text::trimmed_is_empty_iff_blank(sandbox_id@);
            }
            if wanted.as_str().is_empty() {
                return Err(
                    Status::invalid_argument("sandbox_id is required for sandbox spectator target"),
                );
            }
            let choice: Result<usize, Status> = select_quick_join_sandbox(
                runtime_state,
                sandbox_id.as_str(),
            );
            assert(is_sandbox_choice(*runtime_state, sandbox_id@, choice));
            match choice {
                Ok(i) => Ok(
                    EngineCommandTarget::Sandbox {
                        sandbox_id: runtime_state.active_sandboxes[i].sandbox_id.clone(),
                    },
                ),
                Err(e) => Err(e),
            }
        },
    }
}

/// No client sees more than its scopes allow.
pub proof fn served_view_is_allowed(
    requested: SpectatorView,
    scopes: Seq<String>,
    served: (SpectatorView, ViewDowngradeReason),
)
    requires
        view_rank(requested) <= view_rank(allowed_view(scopes)) ==> served == (
            requested,
            ViewDowngradeReason::NotDowngraded,
        ),
        view_rank(requested) > view_rank(allowed_view(scopes)) ==> served == (
            allowed_view(scopes),
            ViewDowngradeReason::NotAuthorized,
        ),
    ensures
        view_rank(served.0) <= view_rank(allowed_view(scopes)),
        served.1 == ViewDowngradeReason::NotAuthorized <==> view_rank(served.0) < view_rank(
            requested,
        ),
{
}

/// Views show more in this order: nothing that was asked for, what is public, what is the
/// team's, and all. No two show as much.
pub proof fn views_show_more_and_more(a: SpectatorView, b: SpectatorView)
    ensures
        view_rank(SpectatorView::Unspecified) < view_rank(SpectatorView::Public),
        view_rank(SpectatorView::Public) < view_rank(SpectatorView::Team),
        view_rank(SpectatorView::Team) < view_rank(SpectatorView::All),
        view_rank(a) == view_rank(b) ==> a == b,
{
}

/// All is seen with the scope for all, the team's with the scope for the team alone, and what
/// is public without either.
pub proof fn scopes_allow_their_view(scopes: Seq<String>, i: int)
    ensures
        (allowed_view(scopes) is All) == has_scope(scopes, "race.read.all"@),
        (allowed_view(scopes) is Team) == (has_scope(scopes, "race.read.team"@) && !has_scope(
            scopes,
            "race.read.all"@,
        )),
        (allowed_view(scopes) is Public) == (!has_scope(scopes, "race.read.team"@) && !has_scope(
            scopes,
            "race.read.all"@,
        )),
        0 <= i < scopes.len() ==> has_scope(scopes, scopes[i]@),
{
}

/// What is brought into a range is in it, and what is in it stays.
pub proof fn clamping_is_the_nearest(x: int, low: int, high: int, y: int)
    requires
        low <= high,
        low <= y <= high,
    ensures
        low <= clamped(x, low, high) <= high,
        low <= x <= high ==> clamped(x, low, high) == x,
        x < low ==> clamped(x, low, high) == low,
        x > high ==> clamped(x, low, high) == high,
        smaller(x, y) <= x && smaller(x, y) <= y,
        smaller(x, y) == x || smaller(x, y) == y,
{
}

/// A rate that may be served is served as it was asked for, and only another one is told to
/// be limited.
pub proof fn rates_within_limits_are_served(rate: StreamRate, requested: int, max: int)
    requires
        is_rate(rate, requested, max),
        max >= 1,
    ensures
        rate.requested_hz == requested,
        1 <= requested <= max ==> rate.effective_hz == requested,
        requested > max ==> rate.effective_hz == max,
        requested < 1 ==> rate.effective_hz == 1,
        (rate.clamp_reason is NotClamped) == (1 <= requested <= max),
        (rate.clamp_reason is ServerLimit) == !(1 <= requested <= max),
{
}

/// Spectators of a sandbox that runs see its map; those without such a sandbox see the map
/// of the only one that runs, or else the map of the engine.
pub proof fn spectators_see_the_map_of_their_session(
    state: EngineRuntimeState,
    target: Option<EngineCommandTarget>,
    map_id: Seq<char>,
    i: int,
)
    requires
        is_spectator_map(state, target, map_id),
    ensures
        target matches Some(EngineCommandTarget::Sandbox { sandbox_id }) ==> (is_first_sandbox(
            state.active_sandboxes@,
            sandbox_id@,
            i,
        ) ==> map_id == state.active_sandboxes@[i].map_id@),
        !(target matches Some(EngineCommandTarget::Sandbox { sandbox_id }) && has_sandbox(
            state.active_sandboxes@,
            sandbox_id@,
        )) ==> if state.activity_kind is Sandbox && state.active_sandboxes@.len() == 1 {
            map_id == state.active_sandboxes@[0].map_id@
        } else {
            map_id == state.map_id@
        },
{
    if let Some(EngineCommandTarget::Sandbox { sandbox_id }) = target {
        if is_first_sandbox(state.active_sandboxes@, sandbox_id@, i) {
            assert(state.active_sandboxes@[i].sandbox_id@ == sandbox_id@);
            assert(has_sandbox(state.active_sandboxes@, sandbox_id@));
        }
    }
}

/// A driver is told the map of the sandbox or of the local race that it drives in, where that
/// runs, and else the map of the engine; nothing where nothing is known.
pub proof fn drivers_are_told_the_map_of_their_session(
    state: Option<EngineRuntimeState>,
    target: EngineCommandTarget,
    map_id: Seq<char>,
    i: int,
)
    requires
        is_participant_map(state, target, map_id),
    ensures
        state is None ==> map_id.len() == 0,
        state matches Some(running) ==> (target matches EngineCommandTarget::Sandbox { sandbox_id }
            ==> (is_first_sandbox(running.active_sandboxes@, sandbox_id@, i) ==> map_id
            == running.active_sandboxes@[i].map_id@)),
        state matches Some(running) ==> (target matches EngineCommandTarget::LocalRace { race_id }
            ==> (running.active_local_race matches Some(race) ==> (race.race_id@ == race_id@
            ==> map_id == race.map_id@))),
        state matches Some(running) ==> (target is OfficialRace ==> map_id == running.map_id@),
{
    if state is Some && target is Sandbox {
        let sandboxes = state->Some_0.active_sandboxes@;
        if is_first_sandbox(sandboxes, target->sandbox_id@, i) {
            assert(sandboxes[i].sandbox_id@ == target->sandbox_id@);
            assert(has_sandbox(sandboxes, target->sandbox_id@));
        }
    }
}

/// A sandbox that is chosen runs and has the id that was asked for; where none was asked for
/// it is the only one that runs.
pub proof fn chosen_sandbox_runs(
    state: EngineRuntimeState,
    requested: Seq<char>,
    r: Result<usize, Status>,
)
    requires
        is_sandbox_choice(state, requested, r),
    ensures
        r matches Ok(i) ==> i < state.active_sandboxes@.len(),
        r matches Ok(i) ==> (text::trimmed(requested).len() > 0
            ==> state.active_sandboxes@[i as int].sandbox_id@ == text::trimmed(requested)),
        r matches Ok(i) ==> (text::trimmed(requested).len() == 0
            ==> state.active_sandboxes@.len() == 1),
        text::trimmed(requested).len() == 0 && state.active_sandboxes@.len() == 1 ==> r is Ok,
        has_sandbox(state.active_sandboxes@, text::trimmed(requested)) && text::trimmed(
            requested,
        ).len() > 0 ==> r is Ok,
        r matches Err(e) ==> (e@.0 == Code::NotFound ==> text::trimmed(requested).len() > 0),
{
}

/// The settings of a stream hold its rate, its view and its map, each under its own name.
pub proof fn settings_hold_rate_view_and_map(
    s: StreamSettings,
    rate: StreamRate,
    view: SpectatorView,
    reason: ViewDowngradeReason,
    map_id: Seq<char>,
)
    requires
        settings_match(s, rate, view, reason, map_id),
    ensures
        s.requested_hz == rate.requested_hz,
        s.effective_hz == rate.effective_hz,
        s.clamp_reason == rate.clamp_reason,
        s.resolved_view == view,
        s.view_downgrade_reason == reason,
        s.map_id@ == map_id,
{
}

} // verus!
