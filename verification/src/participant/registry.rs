//! The bots of the official race, by team.

use dashmap::DashMap;
use vstd::prelude::*;
use crate::participant::official::TeamOfficialRaceBotState;
use crate::text;

verus! {

/// What a map of bots holds, by the characters of the team ids.
pub uninterp spec fn bot_entries(m: DashMap<String, TeamOfficialRaceBotState>) -> Map<
    Seq<char>,
    TeamOfficialRaceBotState,
>;

/// `DashMap::new` makes an empty map.
#[verifier::external_body]
fn new_bots() -> (m: DashMap<String, TeamOfficialRaceBotState>)
    ensures
        (bot_entries(m) == Map::<Seq<char>, TeamOfficialRaceBotState>::empty()),
{
    DashMap::new()
}

/// `DashMap::insert` puts the bot under the team, in place of what was there.
#[verifier::external_body]
fn insert_bot(
    m: &mut DashMap<String, TeamOfficialRaceBotState>,
    team_id: String,
    bot: TeamOfficialRaceBotState,
)
    ensures
        bot_entries(*final(m)) == bot_entries(*old(m)).insert(team_id@, bot),
{
    m.insert(team_id, bot);
}

/// `DashMap::remove` takes the bot of the team out.
#[verifier::external_body]
fn remove_bot(m: &mut DashMap<String, TeamOfficialRaceBotState>, team_id: &str)
    ensures
        bot_entries(*final(m)) == bot_entries(*old(m)).remove(team_id@),
{
    m.remove(team_id);
}

/// `DashMap::get` finds the bot of the team; what is returned is a copy.
#[verifier::external_body]
fn get_bot(m: &DashMap<String, TeamOfficialRaceBotState>, team_id: &str) -> (r: Option<
    TeamOfficialRaceBotState,
>)
    ensures
        r is Some <==> bot_entries(*m).contains_key(team_id@),
        r is Some ==> r->Some_0 == bot_entries(*m)[team_id@],
{
    m.get(team_id).map(|entry| entry.value().clone())
}

/// `DashMap::iter` visits each entry once, in no order that is promised; what is
/// returned are the teams.
#[verifier::external_body]
fn bot_teams(m: &DashMap<String, TeamOfficialRaceBotState>) -> (r: Vec<String>)
    ensures
        text::text_views(r@).no_duplicates(),
        forall|k: Seq<char>| #[trigger]
            text::text_views(r@).contains(k) <==> bot_entries(*m).contains_key(k),
{
    m.iter().map(|entry| entry.key().clone()).collect()
}

/// The bots of the official race, by team.
pub struct OfficialRaceBots {
    bots: DashMap<String, TeamOfficialRaceBotState>,
}

impl View for OfficialRaceBots {
    type V = Map<Seq<char>, TeamOfficialRaceBotState>;

    closed spec fn view(&self) -> Map<Seq<char>, TeamOfficialRaceBotState> {
        bot_entries(self.bots)
    }
}

impl OfficialRaceBots {
    pub fn new() -> (r: Self)
        ensures
            r@ == Map::<Seq<char>, TeamOfficialRaceBotState>::empty(),
    {
        OfficialRaceBots { bots: new_bots() }
    }

    /// The team's bot is this one, in place of what it was.
    pub fn insert(&mut self, team_id: String, bot: TeamOfficialRaceBotState)
        ensures
            final(self)@ == old(self)@.insert(team_id@, bot),
    {
        insert_bot(&mut self.bots, team_id, bot);
    }

    /// The team has no bot any more.
    pub fn remove(&mut self, team_id: &str)
        ensures
            final(self)@ == old(self)@.remove(team_id@),
    {
        remove_bot(&mut self.bots, team_id);
    }

    /// The team's bot, as it is now.
    pub fn get(&self, team_id: &str) -> (r: Option<TeamOfficialRaceBotState>)
        ensures
            match r {
                Some(bot) => self@.contains_key(team_id@) && bot == self@[team_id@],
                None => !self@.contains_key(team_id@),
            },
    {
        get_bot(&self.bots, team_id)
    }

    pub fn contains_key(&self, team_id: &str) -> (r: bool)
        ensures
            r == self@.contains_key(team_id@),
    {
        self.get(team_id).is_some()
    }

    /// The teams that have a bot, once each and in no particular order.
    pub fn keys(&self) -> (r: Vec<String>)
        ensures
            text::text_views(r@).no_duplicates(),
            forall|k: Seq<char>| #[trigger]
                text::text_views(r@).contains(k) <==> self@.contains_key(k),
    {
        bot_teams(&self.bots)
    }
}

} // verus!
