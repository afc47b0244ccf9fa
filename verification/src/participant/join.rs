//! How drivers and bots come to a car.

use rand::Rng;
use vstd::prelude::*;
use crate::engine::{opt_text, EngineCommandTarget, TargetView};
use crate::mode::BackendMode;
use crate::race::runtime_store::{
    no_identity, with_next_id, CarRecordView, IdentityView, RaceRuntimeStore, RuntimeCarIdentity,
    StoreView,
};
use crate::status::{Code, Status};
use crate::text;

verus! {

pub const MAX_DISPLAY_NAME_CHARS: usize = 64;

/// The number of the first stream of drivers.
pub const FIRST_STREAM_SEQ: u64 = 100_000;

/// The participant service's own state: the number of the next stream.
#[derive(Debug)]
pub struct RaceParticipantServiceImpl {
    pub simulation_hz: u32,
    pub next_stream_seq: u64,
}

impl RaceParticipantServiceImpl {
    pub fn new(simulation_hz: u32) -> (r: Self)
        ensures
            r.simulation_hz == simulation_hz,
            r.next_stream_seq == FIRST_STREAM_SEQ,
            r.next_stream_seq == 100_000,
    {
        RaceParticipantServiceImpl { simulation_hz, next_stream_seq: FIRST_STREAM_SEQ }
    }

    /// A number for a new stream; the count wraps round.
    pub fn allocate_stream_id(&mut self) -> (id: u64)
        ensures
            id == old(self).next_stream_seq,
            final(self).next_stream_seq == if id == u64::MAX {
                0
            } else {
                (id + 1) as u64
            },
            final(self).simulation_hz == old(self).simulation_hz,
    {
        let id: u64 = self.next_stream_seq;
        self.next_stream_seq = if id == u64::MAX {
            0
        } else {
            id + 1
        };
        id
    }
}

/// Where a car is put when it enters a local sandbox.
#[derive(Clone, Copy, PartialEq, Eq, Debug, Structural)]
pub enum LocalSandboxSpawnModeRecord {
    StartLine,
    RandomOnTrack,
    InPit,
    RandomStartSlot,
}

/// What the engine is asked to do with the car.
#[derive(Clone, Copy, PartialEq, Eq, Debug, Structural)]
pub enum Placement {
    BeforeFinishLine,
    RandomOnTrack,
    InPit,
    StartSlot(u64),
}

/// `Rng::gen_range` of `rand::thread_rng` draws from an inclusive range that is not
/// empty. Nothing is said of which number comes.
#[verifier::external_body]
fn random_slot(slots: u64) -> (slot: u64)
    requires
        slots >= 1,
    ensures
        1 <= slot <= slots,
{
    rand::thread_rng().gen_range(1..=slots)
}

/// Where the car goes for the spawn mode. The number of start slots counts for a
/// random slot only.
pub fn place_for_spawn_mode(mode: LocalSandboxSpawnModeRecord, slots: u64) -> (r: Result<
    Placement,
    Status,
>)
    ensures
        match mode {
            LocalSandboxSpawnModeRecord::StartLine => r == Ok::<Placement, Status>(
                Placement::BeforeFinishLine,
            ),
            LocalSandboxSpawnModeRecord::RandomOnTrack => r == Ok::<Placement, Status>(
                Placement::RandomOnTrack,
            ),
            LocalSandboxSpawnModeRecord::InPit => r == Ok::<Placement, Status>(Placement::InPit),
            LocalSandboxSpawnModeRecord::RandomStartSlot => if slots == 0 {
                r matches Err(e) && e@ == (
                    Code::FailedPrecondition,
                    "no start slots available for selected map"@,
                )
            } else {
                r matches Ok(Placement::StartSlot(slot)) && 1 <= slot <= slots
            },
        },
{
    match mode {
        LocalSandboxSpawnModeRecord::StartLine => Ok(Placement::BeforeFinishLine),
        LocalSandboxSpawnModeRecord::RandomOnTrack => Ok(Placement::RandomOnTrack),
        LocalSandboxSpawnModeRecord::InPit => Ok(Placement::InPit),
        LocalSandboxSpawnModeRecord::RandomStartSlot => {
            if slots == 0 {
                return Err(
                    Status::failed_precondition("no start slots available for selected map"),
                );
            }
            Ok(Placement::StartSlot(random_slot(slots)))
        },
    }
}

/// What a driver's token says.
#[derive(Debug)]
pub struct TokenClaims {
    pub subject: String,
    pub team_id: Option<String>,
    pub instance_uuid: Option<String>,
}

/// The identity that a car gets from a token and its bot index.
pub open spec fn claimed_identity(claims: Option<TokenClaims>, bot_index: u32) -> IdentityView {
    match claims {
        Some(c) => IdentityView {
            subject: Some(c.subject@),
            team_id: opt_text(c.team_id),
            instance_uuid: opt_text(c.instance_uuid),
            local_bot_index: Some(bot_index),
            ..no_identity()
        },
        None => IdentityView { local_bot_index: Some(bot_index), ..no_identity() },
    }
}

/// The user that a car's bot index is counted for: the token's subject, or the car
/// itself.
pub open spec fn bot_user(claims: Option<TokenClaims>, car_id: u64) -> Seq<char> {
    match claims {
        Some(c) => c.subject@,
        None => "car-"@ + text::decimal(car_id as nat),
    }
}

/// The instance that the token names.
pub open spec fn claimed_instance(claims: Option<TokenClaims>) -> Option<Seq<char>> {
    match claims {
        Some(c) => opt_text(c.instance_uuid),
        None => None,
    }
}

/// The store after a sandbox car was registered under the next id.
pub open spec fn with_sandbox_car(
    s: StoreView,
    sandbox_id: Seq<char>,
    engine_car_id: u64,
    claims: Option<TokenClaims>,
) -> StoreView {
    let car_id = s.next_public_car_id;
    let user = bot_user(claims, car_id);
    let index = s.next_bot_index(sandbox_id, user);
    let instance = claimed_instance(claims);
    let before = s.record(car_id);
    StoreView {
        next_public_car_id: with_next_id(s).next_public_car_id,
        cars: s.cars.insert(
            car_id,
            CarRecordView {
                known: true,
                last_client_seq: Some(0),
                owner: if instance is Some {
                    instance
                } else {
                    before.owner
                },
                engine_car_id: Some(engine_car_id),
                target: Some(TargetView::Sandbox { sandbox_id }),
                identity: Some(claimed_identity(claims, index)),
                ..before
            },
        ),
        instance_cars: match instance {
            Some(uuid) => s.instance_cars.insert(uuid, car_id),
            None => s.instance_cars,
        },
        local_bot_next_index: s.local_bot_next_index.insert(
            (sandbox_id, user),
            if index == u32::MAX {
                u32::MAX
            } else {
                (index + 1) as u32
            },
        ),
    }
}

fn copy_text(o: &Option<String>) -> (r: Option<String>)
    ensures
        r == *o,
{
    match o {
        Some(s) => Some(s.clone()),
        None => None,
    }
}

/// `car-` and the car's id.
pub fn car_label(car_id: u64) -> (r: String)
    ensures
        r@ == "car-"@ + text::decimal(car_id as nat),
{
    let mut r: String = "car-".to_owned();
    text::push_decimal(&mut r, car_id as u128);
    r
}

/// Registers a car that was spawned and placed in a sandbox, and gives its id. A
/// backend that is not standalone wants a token; where there is none, the id is
/// spent all the same.
pub fn register_sandbox_car(
    store: &mut RaceRuntimeStore,
    mode: BackendMode,
    sandbox_id: &str,
    engine_car_id: u64,
    claims: Option<TokenClaims>,
) -> (r: Result<u64, Status>)
    ensures
        !mode.standalone() && claims is None ==> {
            &&& r matches Err(e) && e@ == (Code::Unauthenticated, "missing x-ha3-game-token"@)
            &&& final(store)@ == with_next_id(old(store)@)
        },
        mode.standalone() || claims is Some ==> {
            &&& r == Ok::<u64, Status>(old(store)@.next_public_car_id)
            &&& final(store)@ == with_sandbox_car(
                old(store)@,
                sandbox_id@,
                engine_car_id,
                if mode.standalone() {
                    None
                } else {
                    claims
                },
            )
        },
{
    let ghost first = store@;
    let car_id: u64 = store.allocate_public_car_id();
    let mut identity: RuntimeCarIdentity = RuntimeCarIdentity::default();
    let ghost used: Option<TokenClaims> = if mode.standalone() {
        None
    } else {
        claims
    };
    let mut user: String = car_label(car_id);
    if !mode.is_standalone() {
        match &claims {
            Some(claims) => {
                identity.subject = Some(claims.subject.clone());
                identity.team_id = copy_text(&claims.team_id);
                identity.instance_uuid = copy_text(&claims.instance_uuid);
                match &claims.instance_uuid {
                    Some(instance_uuid) => {
                        store.set_car_owner(car_id, instance_uuid.as_str());
                    },
                    None => {},
                }
                user = claims.subject.clone();
            },
            None => {
                return Err(Status::new(Code::Unauthenticated, "missing x-ha3-game-token"));
            },
        }
    }
    let index: u32 = store.allocate_local_bot_index(sandbox_id, user.as_str());
    identity.local_bot_index = Some(index);
    store.set_car_identity(car_id, identity);
    store.mark_known_car(car_id);
    store.set_last_client_seq(car_id, 0);
    store.set_car_engine_id(car_id, engine_car_id);
    store.set_car_target(
        car_id,
        EngineCommandTarget::Sandbox { sandbox_id: sandbox_id.to_owned() },
    );
    proof {
        let goal = with_sandbox_car(first, sandbox_id@, engine_car_id, used);
        assert(identity@ == claimed_identity(used, index));
        assert(store@.record(car_id) == goal.record(car_id));
        assert(store@.cars =~= goal.cars);
        assert(store@.instance_cars =~= goal.instance_cars);
        assert(store@.local_bot_next_index =~= goal.local_bot_next_index);
    }
    Ok(car_id)
}

/// A sandbox car that was registered is known, belongs to the sandbox, and its
/// owner's instance leads to it.
pub proof fn registered_sandbox_car_is_found(
    s: StoreView,
    sandbox_id: Seq<char>,
    engine_car_id: u64,
    claims: Option<TokenClaims>,
)
    ensures
        ({
            let after = with_sandbox_car(s, sandbox_id, engine_car_id, claims);
            let car = s.next_public_car_id;
            &&& after.record(car).known
            &&& after.record(car).target == Some(TargetView::Sandbox { sandbox_id })
            &&& after.record(car).engine_car_id == Some(engine_car_id)
            &&& claimed_instance(claims) matches Some(uuid) ==> after.instance_cars.contains_key(
                uuid,
            ) && after.instance_cars[uuid] == car && after.record(car).owner == Some(uuid)
            &&& forall|c: u64| c != car ==> #[trigger] after.record(c) == s.record(c)
        }),
{
}

/// The name under which a driver takes part in a local race.
pub open spec fn race_display_name(raw: Seq<char>) -> Seq<char> {
    let name = text::trimmed(raw);
    if name.len() == 0 {
        "Local bot"@
    } else {
        text::prefix(name, MAX_DISPLAY_NAME_CHARS as nat)
    }
}

/// A request to join a local race, cleaned up.
#[derive(Debug)]
pub struct LocalRaceJoin {
    pub race_id: String,
    pub display_name: String,
}

/// Cleans up a request to join a local race and holds it against the race that is
/// active.
pub fn check_local_race_join(
    race_id: &str,
    display_name: &str,
    active_race_id: Option<&str>,
) -> (r: Result<LocalRaceJoin, Status>)
    ensures
        ({
            let wanted = text::trimmed(race_id@);
            if wanted.len() == 0 {
                r matches Err(e) && e@ == (Code::InvalidArgument, "race_id must be non-empty"@)
            } else {
                match active_race_id {
                    None => r matches Err(e) && e@ == (
                        Code::FailedPrecondition,
                        "local race runtime is not active"@,
                    ),
                    Some(active) => if active@ != wanted {
                        r matches Err(e) && e@ == (
                            Code::NotFound,
                            "local race runtime is not active for requested race_id"@,
                        )
                    } else {
                        r matches Ok(join) && join.race_id@ == wanted && join.display_name@
                            == race_display_name(display_name@)
                    },
                }
            }
        }),
{
    let race_id: String = text::trim(race_id);
    if race_id.as_str().is_empty() {
        return Err(Status::invalid_argument("race_id must be non-empty"));
    }
    let name: String = text::trim(display_name);
    let display_name: String = if name.as_str().is_empty() {
        "Local bot".to_owned()
    } else {
        text::take_prefix(name.as_str(), MAX_DISPLAY_NAME_CHARS)
    };
    match active_race_id {
        None => Err(Status::failed_precondition("local race runtime is not active")),
        Some(active) => {
            if !text::str_eq(active, race_id.as_str()) {
                return Err(
                    Status::not_found("local race runtime is not active for requested race_id"),
                );
            }
            Ok(LocalRaceJoin { race_id, display_name })
        },
    }
}

/// Why the race state refused a participant.
#[derive(Clone, Copy, PartialEq, Eq, Debug, Structural)]
pub enum LocalRaceStateError {
    NoActiveRace,
    RaceMismatch,
    JoinClosed,
    ParticipantLimitReached,
}

/// The answer to a driver whom the race state refuses.
pub open spec fn state_error(err: LocalRaceStateError) -> (Code, Seq<char>) {
    match err {
        LocalRaceStateError::NoActiveRace => (
            Code::FailedPrecondition,
            "local race runtime is not active"@,
        ),
        LocalRaceStateError::RaceMismatch => (
            Code::NotFound,
            "local race runtime is not active for requested race_id"@,
        ),
        LocalRaceStateError::JoinClosed => (
            Code::FailedPrecondition,
            "local race join is allowed only in staging phase"@,
        ),
        LocalRaceStateError::ParticipantLimitReached => (
            Code::ResourceExhausted,
            "local race participant limit reached"@,
        ),
    }
}

/// How a refusal of the race state is answered when a driver joins.
pub fn map_local_race_state_err(err: LocalRaceStateError) -> (r: Status)
    ensures
        r@ == state_error(err),
{
    match err {
        LocalRaceStateError::NoActiveRace => Status::failed_precondition(
            "local race runtime is not active",
        ),
        LocalRaceStateError::RaceMismatch => Status::not_found(
            "local race runtime is not active for requested race_id",
        ),
        LocalRaceStateError::JoinClosed => Status::failed_precondition(
            "local race join is allowed only in staging phase",
        ),
        LocalRaceStateError::ParticipantLimitReached => Status::new(
            Code::ResourceExhausted,
            "local race participant limit reached",
        ),
    }
}

/// The start slot of the participant with the index, counted from 1: the slots are
/// dealt out in order, and from the first again when they are used up.
pub fn local_race_start_slot(participant_index: u32, slots: u64) -> (r: Result<u64, Status>)
    ensures
        slots == 0 ==> (r matches Err(e) && e@ == (
            Code::FailedPrecondition,
            "no start slots available for selected map"@,
        )),
        slots > 0 ==> (r matches Ok(slot) && slot == (if participant_index == 0 {
            0int
        } else {
            participant_index - 1
        }) % (slots as int) + 1),
{
    if slots == 0 {
        return Err(Status::failed_precondition("no start slots available for selected map"));
    }
    let place: u64 = (participant_index as u64).saturating_sub(1);
    let rest: u64 = place % slots;
    Ok(rest + 1)
}

/// Every start slot that is dealt out exists, and participants one round apart
/// share one.
pub proof fn start_slots_are_dealt_in_rounds(index: int, slots: int)
    requires
        index >= 1,
        slots > 0,
    ensures
        1 <= (index - 1) % slots + 1 <= slots,
        (index + slots - 1) % slots == (index - 1) % slots,
{
    assert((index + slots - 1) % slots == (index - 1) % slots) by (nonlinear_arith)
        requires
            slots > 0,
            index >= 1,
    ;
}

/// The identity of a car in a local race.
pub open spec fn race_identity(display_name: Seq<char>, participant_index: u32) -> IdentityView {
    IdentityView {
        local_race_display_name: Some(display_name),
        local_race_participant_index: Some(participant_index),
        ..no_identity()
    }
}

/// The record of a car that has just been registered.
pub open spec fn fresh_registration(
    before: CarRecordView,
    engine_car_id: u64,
    target: TargetView,
    identity: IdentityView,
) -> CarRecordView {
    CarRecordView {
        known: true,
        last_client_seq: Some(0),
        engine_car_id: Some(engine_car_id),
        target: Some(target),
        identity: Some(identity),
        ..before
    }
}

fn register(
    store: &mut RaceRuntimeStore,
    car_id: u64,
    engine_car_id: u64,
    target: EngineCommandTarget,
    identity: RuntimeCarIdentity,
)
    ensures
        final(store)@ == old(store)@.with_record(
            car_id,
            fresh_registration(
                old(store)@.record(car_id),
                engine_car_id,
                target@,
                identity@,
            ),
        ),
{
    let ghost first = store@;
    store.set_car_identity(car_id, identity);
    store.mark_known_car(car_id);
    store.set_last_client_seq(car_id, 0);
    store.set_car_engine_id(car_id, engine_car_id);
    store.set_car_target(car_id, target);
    proof {
        let goal = first.with_record(
            car_id,
            fresh_registration(first.record(car_id), engine_car_id, target@, identity@),
        );
        assert(store@.cars =~= goal.cars);
    }
}

/// Registers a car that was spawned and placed in a local race.
pub fn register_local_race_car(
    store: &mut RaceRuntimeStore,
    car_id: u64,
    engine_car_id: u64,
    join: &LocalRaceJoin,
    participant_index: u32,
)
    ensures
        final(store)@ == old(store)@.with_record(
            car_id,
            fresh_registration(
                old(store)@.record(car_id),
                engine_car_id,
                TargetView::LocalRace { race_id: join.race_id@ },
                race_identity(join.display_name@, participant_index),
            ),
        ),
{
    let mut identity: RuntimeCarIdentity = RuntimeCarIdentity::default();
    identity.local_race_display_name = Some(join.display_name.clone());
    identity.local_race_participant_index = Some(participant_index);
    register(
        store,
        car_id,
        engine_car_id,
        EngineCommandTarget::LocalRace { race_id: join.race_id.clone() },
        identity,
    );
}

/// The identity of a team's car in an official race.
pub open spec fn official_identity(team_id: Seq<char>, start_position_index: u64) -> IdentityView {
    IdentityView {
        team_id: Some(team_id),
        official_race_start_position_index: Some(start_position_index),
        ..no_identity()
    }
}

/// Registers a team's car in the official race.
pub fn register_official_race_runtime_car(
    store: &mut RaceRuntimeStore,
    team_id: &str,
    car_id: u64,
    engine_car_id: u64,
    start_position_index: u64,
)
    ensures
        final(store)@ == old(store)@.with_record(
            car_id,
            fresh_registration(
                old(store)@.record(car_id),
                engine_car_id,
                TargetView::OfficialRace,
                official_identity(team_id@, start_position_index),
            ),
        ),
{
    let mut identity: RuntimeCarIdentity = RuntimeCarIdentity::default();
    identity.team_id = Some(team_id.to_owned());
    identity.official_race_start_position_index = Some(start_position_index);
    register(store, car_id, engine_car_id, EngineCommandTarget::OfficialRace, identity);
}

/// A car has the identity that its token claims: its subject, its team and its instance,
/// each in its place, and the index of its bot; without a token the index alone.
pub proof fn identity_is_what_is_claimed(claims: Option<TokenClaims>, bot_index: u32)
    ensures
        ({
            let identity = claimed_identity(claims, bot_index);
            &&& identity.local_bot_index == Some(bot_index)
            &&& identity.local_race_display_name is None
            &&& identity.local_race_participant_index is None
            &&& identity.official_race_start_position_index is None
            &&& (identity.subject is Some) == (claims is Some)
            &&& (claims matches Some(c) ==> {
                &&& identity.subject == Some(c.subject@)
                &&& (identity.team_id is Some) == (c.team_id is Some)
                &&& (c.team_id matches Some(team) ==> identity.team_id == Some(team@))
                &&& (identity.instance_uuid is Some) == (c.instance_uuid is Some)
                &&& (c.instance_uuid matches Some(uuid) ==> identity.instance_uuid == Some(uuid@))
            })
            &&& claims is None ==> identity.team_id is None && identity.instance_uuid is None
        }),
{
}

/// Bots are counted for the subject of the token, and for the car where there is none; the
/// owner of a car is the instance that the token names.
pub proof fn bots_are_counted_for_the_subject(claims: Option<TokenClaims>, car_id: u64)
    ensures
        claims matches Some(c) ==> bot_user(claims, car_id) == c.subject@,
        claims is None ==> bot_user(claims, car_id) == "car-"@ + text::decimal(car_id as nat),
        claimed_instance(claims) is Some <==> (claims matches Some(c) && c.instance_uuid is Some),
        claims matches Some(c) ==> (c.instance_uuid matches Some(uuid) ==> claimed_instance(claims)
            == Some(uuid@)),
{
}

/// A sandbox car is registered under the next id, which is then spent. Its bot has the next
/// index of its user in the sandbox, which is then spent too; the indexes of other users and
/// of other sandboxes stay. An owner that the token does not name stays the one before, and
/// so do the controls and the stops of the car.
pub proof fn registered_sandbox_car_spends_its_numbers(
    s: StoreView,
    sandbox_id: Seq<char>,
    engine_car_id: u64,
    claims: Option<TokenClaims>,
)
    ensures
        ({
            let after = with_sandbox_car(s, sandbox_id, engine_car_id, claims);
            let car = s.next_public_car_id;
            let user = bot_user(claims, car);
            let index = s.next_bot_index(sandbox_id, user);
            &&& car < u64::MAX ==> after.next_public_car_id == car + 1
            &&& after.record(car).last_client_seq == Some(0u64)
            &&& after.record(car).pit_state == s.record(car).pit_state
            &&& after.record(car).controls_input == s.record(car).controls_input
            &&& (after.record(car).identity matches Some(identity) && identity.local_bot_index
                == Some(index))
            &&& claimed_instance(claims) is None ==> after.record(car).owner == s.record(car).owner
                && after.instance_cars == s.instance_cars
            &&& index < u32::MAX ==> after.next_bot_index(sandbox_id, user) == index + 1
            &&& forall|other: (Seq<char>, Seq<char>)|
                #![trigger after.local_bot_next_index.contains_key(other)]
                other != (sandbox_id, user) ==> after.local_bot_next_index.contains_key(other)
                    == s.local_bot_next_index.contains_key(other)
        }),
{
}

/// A driver of a local race goes by the name that was given, without the whitespace around
/// it and cut after sixty-four characters; one without a name is a local bot.
pub proof fn display_names_are_cut(raw: Seq<char>)
    ensures
        text::trimmed(raw).len() == 0 ==> race_display_name(raw) == "Local bot"@,
        0 < text::trimmed(raw).len() <= 64 ==> race_display_name(raw) == text::trimmed(raw),
        text::trimmed(raw).len() > 64 ==> race_display_name(raw) == text::trimmed(raw).take(64),
{
    let name = text::trimmed(raw);
    assert(name.len() <= 64 ==> text::prefix(name, 64) =~= name);
    assert(name.len() > 64 ==> text::prefix(name, 64) =~= name.take(64));
}

/// Each reason for which a driver is refused has its code.
pub proof fn refused_drivers_have_their_codes(err: LocalRaceStateError)
    ensures
        (state_error(err).0 == Code::FailedPrecondition) == (err is NoActiveRace || err
            is JoinClosed),
        (state_error(err).0 == Code::NotFound) == (err is RaceMismatch),
        (state_error(err).0 == Code::ResourceExhausted) == (err is ParticipantLimitReached),
{
}

/// In a local race a car is known by its driver's name and index, in an official one by its
/// team and its start position, and by nothing else.
pub proof fn race_cars_are_known_by_their_place(
    name: Seq<char>,
    participant_index: u32,
    start_position_index: u64,
)
    ensures
        race_identity(name, participant_index).local_race_display_name == Some(name),
        race_identity(name, participant_index).local_race_participant_index == Some(
            participant_index,
        ),
        race_identity(name, participant_index).team_id is None,
        race_identity(name, participant_index).subject is None,
        race_identity(name, participant_index).instance_uuid is None,
        race_identity(name, participant_index).local_bot_index is None,
        race_identity(name, participant_index).official_race_start_position_index is None,
        official_identity(name, start_position_index).team_id == Some(name),
        official_identity(name, start_position_index).official_race_start_position_index == Some(
            start_position_index,
        ),
        official_identity(name, start_position_index).local_race_display_name is None,
        official_identity(name, start_position_index).local_race_participant_index is None,
        official_identity(name, start_position_index).subject is None,
        official_identity(name, start_position_index).instance_uuid is None,
        official_identity(name, start_position_index).local_bot_index is None,
{
}

/// A car that has just been registered is known in its session, with nothing heard from its
/// driver yet; its owner, its stops and its controls stay.
pub proof fn fresh_registration_is_known(
    before: CarRecordView,
    engine_car_id: u64,
    target: TargetView,
    identity: IdentityView,
)
    ensures
        ({
            let after = fresh_registration(before, engine_car_id, target, identity);
            &&& after.known
            &&& after.last_client_seq == Some(0u64)
            &&& after.engine_car_id == Some(engine_car_id)
            &&& after.target == Some(target)
            &&& after.identity == Some(identity)
            &&& after.owner == before.owner
            &&& after.pit_state == before.pit_state
            &&& after.controls_input == before.controls_input
        }),
{
}

/// Each reason for which a driver is refused is told in its own words.
pub proof fn refused_drivers_are_told_why(err: LocalRaceStateError)
    ensures
        err is NoActiveRace ==> state_error(err).1 == "local race runtime is not active"@,
        err is RaceMismatch ==> state_error(err).1
            == "local race runtime is not active for requested race_id"@,
        err is JoinClosed ==> state_error(err).1
            == "local race join is allowed only in staging phase"@,
        err is ParticipantLimitReached ==> state_error(err).1
            == "local race participant limit reached"@,
{
}

} // verus!
