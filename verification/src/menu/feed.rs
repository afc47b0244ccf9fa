//! What the menu shows, and when a client that follows it is told of a change.

use vstd::prelude::*;
use crate::engine::{EngineActiveSandboxState, EngineActivityKind};
use crate::ghost_mode::{are_equal_settings, equal_settings, GhostModeSettings};
use crate::menu::cache::PublicUpcomingRaceSummary;
use crate::sandbox_config::records::{
    build_public_sandbox_infos, public_infos, PublicSandboxRuntimeInfo, SandboxConfigRecord,
};
use crate::text;
use crate::timestamp::Timestamp;

verus! {

/// What the engine is running, as everybody is shown it.
#[derive(Debug)]
pub struct PublicRuntimeState {
    pub server_time_utc: Option<Timestamp>,
    /// There are sandboxes to show only while the engine runs sandboxes.
    pub active_mode: Option<Vec<PublicSandboxRuntimeInfo>>,
}

/// The menu.
#[derive(Debug)]
pub struct PublicMenuState {
    pub runtime: Option<PublicRuntimeState>,
    pub upcoming_races: Vec<PublicUpcomingRaceSummary>,
}

/// The sandboxes that run, where the engine runs sandboxes.
pub type ModeView = Option<Seq<PublicSandboxRuntimeInfo>>;

/// The time and the sandboxes that run.
pub struct RuntimeView {
    pub server_time_utc: Option<Timestamp>,
    pub active_mode: ModeView,
}

/// The menu, its lists as sequences.
pub struct MenuView {
    pub runtime: Option<RuntimeView>,
    pub upcoming_races: Seq<PublicUpcomingRaceSummary>,
}

impl View for PublicRuntimeState {
    type V = RuntimeView;

    open spec fn view(&self) -> RuntimeView {
        RuntimeView {
            server_time_utc: self.server_time_utc,
            active_mode: match self.active_mode {
                Some(sandboxes) => Some(sandboxes@),
                None => None,
            },
        }
    }
}

impl View for PublicMenuState {
    type V = MenuView;

    open spec fn view(&self) -> MenuView {
        MenuView {
            runtime: match self.runtime {
                Some(runtime) => Some(runtime@),
                None => None,
            },
            upcoming_races: self.upcoming_races@,
        }
    }
}

/// Builds the menu.
pub fn build_menu_state(
    activity_kind: EngineActivityKind,
    active: &Vec<EngineActiveSandboxState>,
    configs: &Vec<SandboxConfigRecord>,
    upcoming_races: Vec<PublicUpcomingRaceSummary>,
    now: Timestamp,
) -> (r: PublicMenuState)
    ensures
        r@ == (MenuView {
            runtime: Some(
                RuntimeView {
                    server_time_utc: Some(now),
                    active_mode: if activity_kind == EngineActivityKind::Sandbox {
                        Some(public_infos(active@, configs@))
                    } else {
                        None
                    },
                },
            ),
            upcoming_races: upcoming_races@,
        }),
{
    let active_mode: Option<Vec<PublicSandboxRuntimeInfo>> = match activity_kind {
        EngineActivityKind::Sandbox => Some(build_public_sandbox_infos(active, configs)),
        _ => None,
    };
    PublicMenuState {
        runtime: Some(PublicRuntimeState { server_time_utc: Some(now), active_mode }),
        upcoming_races,
    }
}

/// The menu without the time.
pub open spec fn without_time(menu: MenuView) -> MenuView {
    MenuView {
        runtime: match menu.runtime {
            Some(runtime) => Some(
                RuntimeView { server_time_utc: None, active_mode: runtime.active_mode },
            ),
            None => None,
        },
        upcoming_races: menu.upcoming_races,
    }
}

fn clone_infos(infos: &Vec<PublicSandboxRuntimeInfo>) -> (r: Vec<PublicSandboxRuntimeInfo>)
    ensures
        r@ == infos@,
{
    let mut r: Vec<PublicSandboxRuntimeInfo> = Vec::new();
    let mut n: usize = 0;
    while n < infos.len()
        invariant
            n <= infos@.len(),
            r@ == infos@.take(n as int),
        decreases infos@.len() - n,
    {
        r.push(infos[n].clone());
        n += 1;
    }
    r
}

fn clone_races(races: &Vec<PublicUpcomingRaceSummary>) -> (r: Vec<PublicUpcomingRaceSummary>)
    ensures
        r@ == races@,
{
    let mut r: Vec<PublicUpcomingRaceSummary> = Vec::new();
    let mut n: usize = 0;
    while n < races.len()
        invariant
            n <= races@.len(),
            r@ == races@.take(n as int),
        decreases races@.len() - n,
    {
        r.push(races[n].clone());
        n += 1;
    }
    r
}

/// The menu without the time, by which it is compared with the one before it.
pub fn comparable_menu_state(state: &PublicMenuState) -> (r: PublicMenuState)
    ensures
        r@ == without_time(state@),
{
    let runtime: Option<PublicRuntimeState> = match &state.runtime {
        None => None,
        Some(runtime) => {
            let active_mode: Option<Vec<PublicSandboxRuntimeInfo>> = match &runtime.active_mode {
                None => None,
                Some(sandboxes) => Some(clone_infos(sandboxes)),
            };
            Some(PublicRuntimeState { server_time_utc: None, active_mode })
        },
    };
    PublicMenuState { runtime, upcoming_races: clone_races(&state.upcoming_races) }
}

/// Neither has a ghost mode, or both have an equal one.
pub open spec fn equal_ghost_modes(
    a: Option<GhostModeSettings>,
    b: Option<GhostModeSettings>,
) -> bool {
    match (a, b) {
        (None, None) => true,
        (Some(x), Some(y)) => equal_settings(x, y),
        _ => false,
    }
}

/// The sandboxes are shown alike.
pub open spec fn equal_info(a: PublicSandboxRuntimeInfo, b: PublicSandboxRuntimeInfo) -> bool {
    &&& a.sandbox_id@ == b.sandbox_id@
    &&& a.sandbox_name@ == b.sandbox_name@
    &&& a.map_id@ == b.map_id@
    &&& a.active_time_of_day_preset == b.active_time_of_day_preset
    &&& equal_ghost_modes(a.ghost_mode, b.ghost_mode)
    &&& a.active_player_count == b.active_player_count
}

fn is_equal_info(a: &PublicSandboxRuntimeInfo, b: &PublicSandboxRuntimeInfo) -> (r: bool)
    ensures
        r == equal_info(*a, *b),
{
    let same_ghost_mode: bool = match (a.ghost_mode, b.ghost_mode) {
        (None, None) => true,
        (Some(x), Some(y)) => are_equal_settings(x, y),
        _ => false,
    };
    same_ghost_mode && text::str_eq(a.sandbox_id.as_str(), b.sandbox_id.as_str()) && text::str_eq(
        a.sandbox_name.as_str(),
        b.sandbox_name.as_str(),
    ) && text::str_eq(a.map_id.as_str(), b.map_id.as_str()) && a.active_time_of_day_preset
        == b.active_time_of_day_preset && a.active_player_count == b.active_player_count
}

/// The same sandboxes in the same order.
pub open spec fn equal_infos(
    a: Seq<PublicSandboxRuntimeInfo>,
    b: Seq<PublicSandboxRuntimeInfo>,
) -> bool {
    a.len() == b.len() && forall|i: int|
        0 <= i < a.len() ==> equal_info(#[trigger] a[i], b[i])
}

fn are_equal_infos(
    a: &Vec<PublicSandboxRuntimeInfo>,
    b: &Vec<PublicSandboxRuntimeInfo>,
) -> (r: bool)
    ensures
        r == equal_infos(a@, b@),
{
    if a.len() != b.len() {
        return false;
    }
    let mut n: usize = 0;
    while n < a.len()
        invariant
            a@.len() == b@.len(),
            n <= a@.len(),
            forall|i: int| 0 <= i < n ==> equal_info(#[trigger] a@[i], b@[i]),
        decreases a@.len() - n,
    {
        if !is_equal_info(&a[n], &b[n]) {
            return false;
        }
        n += 1;
    }
    true
}

/// The races are shown alike.
pub open spec fn equal_race(a: PublicUpcomingRaceSummary, b: PublicUpcomingRaceSummary) -> bool {
    &&& a.race_name@ == b.race_name@
    &&& a.start_time_utc == b.start_time_utc
    &&& a.race_duration_sec == b.race_duration_sec
}

/// The same races in the same order.
pub open spec fn equal_races(
    a: Seq<PublicUpcomingRaceSummary>,
    b: Seq<PublicUpcomingRaceSummary>,
) -> bool {
    a.len() == b.len() && forall|i: int|
        0 <= i < a.len() ==> equal_race(#[trigger] a[i], b[i])
}

fn is_same_time(a: Option<Timestamp>, b: Option<Timestamp>) -> (r: bool)
    ensures
        r == (a == b),
{
    match (a, b) {
        (None, None) => true,
        (Some(x), Some(y)) => x == y,
        _ => false,
    }
}

fn are_equal_races(
    a: &Vec<PublicUpcomingRaceSummary>,
    b: &Vec<PublicUpcomingRaceSummary>,
) -> (r: bool)
    ensures
        r == equal_races(a@, b@),
{
    if a.len() != b.len() {
        return false;
    }
    let mut n: usize = 0;
    while n < a.len()
        invariant
            a@.len() == b@.len(),
            n <= a@.len(),
            forall|i: int| 0 <= i < n ==> equal_race(#[trigger] a@[i], b@[i]),
        decreases a@.len() - n,
    {
        if !(text::str_eq(a[n].race_name.as_str(), b[n].race_name.as_str()) && is_same_time(
            a[n].start_time_utc,
            b[n].start_time_utc,
        ) && a[n].race_duration_sec == b[n].race_duration_sec) {
            return false;
        }
        n += 1;
    }
    true
}

pub open spec fn equal_modes(a: ModeView, b: ModeView) -> bool {
    match (a, b) {
        (None, None) => true,
        (Some(x), Some(y)) => equal_infos(x, y),
        _ => false,
    }
}

pub open spec fn equal_runtimes(a: Option<RuntimeView>, b: Option<RuntimeView>) -> bool {
    match (a, b) {
        (None, None) => true,
        (Some(x), Some(y)) => x.server_time_utc == y.server_time_utc && equal_modes(
            x.active_mode,
            y.active_mode,
        ),
        _ => false,
    }
}

/// The menus are alike.
pub open spec fn equal_menus(a: MenuView, b: MenuView) -> bool {
    equal_runtimes(a.runtime, b.runtime) && equal_races(a.upcoming_races, b.upcoming_races)
}

fn are_equal_menus(a: &PublicMenuState, b: &PublicMenuState) -> (r: bool)
    ensures
        r == equal_menus(a@, b@),
{
    let same_runtime: bool = match (&a.runtime, &b.runtime) {
        (None, None) => true,
        (Some(x), Some(y)) => {
            let same_mode: bool = match (&x.active_mode, &y.active_mode) {
                (None, None) => true,
                (Some(v), Some(w)) => are_equal_infos(v, w),
                _ => false,
            };
            same_mode && is_same_time(x.server_time_utc, y.server_time_utc)
        },
        _ => false,
    };
    same_runtime && are_equal_races(&a.upcoming_races, &b.upcoming_races)
}

/// The menu that a client was last told of, without the time.
#[derive(Debug)]
pub struct MenuFeed {
    pub last_comparable_state: Option<PublicMenuState>,
}

/// The menu that a client was last told of.
pub open spec fn told(feed: MenuFeed) -> Option<MenuView> {
    match feed.last_comparable_state {
        Some(state) => Some(state@),
        None => None,
    }
}

/// The menu is news to a client that was last told of `last`.
pub open spec fn is_news(last: Option<MenuView>, menu: MenuView) -> bool {
    match last {
        Some(last) => !equal_menus(last, without_time(menu)),
        None => true,
    }
}

impl MenuFeed {
    pub fn new() -> (r: Self)
        ensures
            told(r) is None,
    {
        MenuFeed { last_comparable_state: None }
    }

    /// Whether the client must be told of the menu, which it then is.
    pub fn on_state(&mut self, state: &PublicMenuState) -> (send: bool)
        ensures
            send == is_news(told(*old(self)), state@),
            told(*final(self)) == if send {
                Some(without_time(state@))
            } else {
                told(*old(self))
            },
    {
        let comparable: PublicMenuState = comparable_menu_state(state);
        let known: bool = match &self.last_comparable_state {
            Some(last) => are_equal_menus(last, &comparable),
            None => false,
        };
        if known {
            return false;
        }
        self.last_comparable_state = Some(comparable);
        true
    }
}

/// No speed in the menu is a NaN.
pub open spec fn speeds_are_numbers(menu: MenuView) -> bool {
    menu.runtime matches Some(runtime) ==> (runtime.active_mode matches Some(infos) ==> forall|
        i: int,
    |
        0 <= i < infos.len() ==> ((#[trigger] infos[i]).ghost_mode matches Some(settings)
            ==> !settings.enter_speed_max_mps.nan() && !settings.exit_speed_min_mps.nan()))
}

/// A client that was told of a menu is not told of it again when only time has passed.
pub proof fn passing_time_is_no_news(told: MenuView, menu: MenuView)
    requires
        without_time(told) == without_time(menu),
        speeds_are_numbers(menu),
    ensures
        !is_news(Some(without_time(told)), menu),
{
}

/// The engine's activity and the running sandboxes, whatever the activity is.
#[derive(Debug)]
pub struct FrontendMenuState {
    pub activity_kind: EngineActivityKind,
    pub active_sandboxes: Vec<PublicSandboxRuntimeInfo>,
    pub server_time_utc: Option<Timestamp>,
}

impl FrontendMenuState {
    pub fn build(
        activity_kind: EngineActivityKind,
        active: &Vec<EngineActiveSandboxState>,
        configs: &Vec<SandboxConfigRecord>,
        now: Timestamp,
    ) -> (r: Self)
        ensures
            r.activity_kind == activity_kind,
            r.active_sandboxes@ == public_infos(active@, configs@),
            r.server_time_utc == Some(now),
    {
        FrontendMenuState {
            activity_kind,
            active_sandboxes: build_public_sandbox_infos(active, configs),
            server_time_utc: Some(now),
        }
    }

    /// Whether both are shown alike, their times taken with the rest.
    pub fn is_equal(&self, other: &FrontendMenuState) -> (r: bool)
        ensures
            r == (self.activity_kind == other.activity_kind && equal_infos(
                self.active_sandboxes@,
                other.active_sandboxes@,
            ) && self.server_time_utc == other.server_time_utc),
    {
        self.activity_kind == other.activity_kind && are_equal_infos(
            &self.active_sandboxes,
            &other.active_sandboxes,
        ) && is_same_time(self.server_time_utc, other.server_time_utc)
    }
}

/// Menus that are alike show the same sandboxes and the same races, one by one; whatever of
/// them differs makes another menu.
pub proof fn menus_alike_show_the_same(a: MenuView, b: MenuView)
    requires
        equal_menus(a, b),
    ensures
        (a.runtime is Some) == (b.runtime is Some),
        a.runtime matches Some(x) ==> {
            let y = b.runtime->Some_0;
            &&& x.server_time_utc == y.server_time_utc
            &&& (x.active_mode is Some) == (y.active_mode is Some)
            &&& (x.active_mode matches Some(infos) ==> infos.len() == y.active_mode->Some_0.len()
                && forall|i: int|
                #![trigger infos[i]]
                0 <= i < infos.len() ==> {
                    let other = y.active_mode->Some_0[i];
                    &&& infos[i].sandbox_id@ == other.sandbox_id@
                    &&& infos[i].sandbox_name@ == other.sandbox_name@
                    &&& infos[i].map_id@ == other.map_id@
                    &&& infos[i].active_time_of_day_preset == other.active_time_of_day_preset
                    &&& infos[i].active_player_count == other.active_player_count
                    &&& (infos[i].ghost_mode is Some) == (other.ghost_mode is Some)
                    &&& (infos[i].ghost_mode matches Some(settings) ==> equal_settings(
                        settings,
                        other.ghost_mode->Some_0,
                    ))
                })
        },
        a.upcoming_races.len() == b.upcoming_races.len(),
        forall|i: int|
            #![trigger a.upcoming_races[i]]
            0 <= i < a.upcoming_races.len() ==> {
                &&& a.upcoming_races[i].race_name@ == b.upcoming_races[i].race_name@
                &&& a.upcoming_races[i].start_time_utc == b.upcoming_races[i].start_time_utc
                &&& a.upcoming_races[i].race_duration_sec == b.upcoming_races[i].race_duration_sec
            },
{
    if a.runtime is Some && a.runtime->Some_0.active_mode is Some {
        let infos = a.runtime->Some_0.active_mode->Some_0;
        let others = b.runtime->Some_0.active_mode->Some_0;
        assert forall|i: int| 0 <= i < infos.len() implies equal_info(
            #[trigger] infos[i],
            others[i],
        ) by {}
    }
    assert forall|i: int| 0 <= i < a.upcoming_races.len() implies equal_race(
        #[trigger] a.upcoming_races[i],
        b.upcoming_races[i],
    ) by {}
}

/// Without its time a menu shows the same sandboxes and races.
pub proof fn only_the_time_is_left_out(menu: MenuView)
    ensures
        without_time(menu).upcoming_races == menu.upcoming_races,
        (without_time(menu).runtime is Some) == (menu.runtime is Some),
        menu.runtime matches Some(runtime) ==> without_time(menu).runtime->Some_0.active_mode
            == runtime.active_mode && without_time(menu).runtime->Some_0.server_time_utc is None,
{
}

/// The first menu is news, and so is every one that does not show the same as the last.
pub proof fn first_and_other_menus_are_news(last: MenuView, menu: MenuView)
    ensures
        is_news(None, menu),
        is_news(Some(last), menu) <==> !equal_menus(last, without_time(menu)),
{
}

} // verus!
