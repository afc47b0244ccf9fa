//! What the official race is launched from: the roster of teams and the time of day.

use vstd::prelude::*;
use crate::engine::EngineRuntimeTimeOfDayPreset;
use crate::text;

verus! {

/// The teams on lines: a line that is blank or starts with `#` names none.
pub open spec fn listed_teams(lines: Seq<Seq<char>>) -> Seq<Seq<char>>
    decreases lines.len(),
{
    if lines.len() == 0 {
        Seq::empty()
    } else {
        let line = text::trimmed(lines.last());
        let before = listed_teams(lines.drop_last());
        if line.len() == 0 || line[0] == '#' {
            before
        } else {
            before.push(line)
        }
    }
}

/// The team ids of a roster file, in the order of its lines.
pub fn read_official_race_team_ids(content: &str) -> (r: Vec<String>)
    ensures
        text::text_views(r@) == listed_teams(text::split_on(content@, '\n')),
{
    let lines: Vec<String> = text::split(content, '\n');
    let ghost views = text::text_views(lines@);
    let mut r: Vec<String> = Vec::new();
    let mut i: usize = 0;
    proof {
        assert(views.take(0) =~= Seq::<Seq<char>>::empty());
        assert(text::text_views(r@) =~= Seq::<Seq<char>>::empty());
    }
    while i < lines.len()
        invariant
            i <= lines@.len(),
            views == text::text_views(lines@),
            text::text_views(r@) == listed_teams(views.take(i as int)),
        decreases lines@.len() - i,
    {
        let ghost before = text::text_views(r@);
        proof {
            assert(views.take(i + 1).drop_last() =~= views.take(i as int));
        }
        let line: String = text::trim(lines[i].as_str());
        let first: Vec<char> = text::chars_of(line.as_str());
        if first.len() > 0 && first[0] != '#' {
            let ghost named = line@;
            r.push(line);
            proof {
                assert(text::text_views(r@) =~= before.push(named));
            }
        }
        i += 1;
    }
    proof {
        assert(views.take(i as int) =~= views);
    }
    r
}

/// No listed team is blank or a comment.
pub proof fn listed_teams_are_named(lines: Seq<Seq<char>>, i: int)
    requires
        0 <= i < listed_teams(lines).len(),
    ensures
        listed_teams(lines)[i].len() > 0,
        listed_teams(lines)[i][0] != '#',
    decreases lines.len(),
{
    if i < listed_teams(lines.drop_last()).len() {
        listed_teams_are_named(lines.drop_last(), i);
    }
}

/// The time of day that a race is configured with.
#[derive(Clone, Copy, PartialEq, Eq, Debug, Structural)]
pub enum RaceTimeOfDayPreset {
    Unspecified,
    Morning,
    Noon,
    Evening,
    Night,
}

/// The engine's preset of the same name.
pub open spec fn engine_preset(preset: RaceTimeOfDayPreset) -> EngineRuntimeTimeOfDayPreset {
    match preset {
        RaceTimeOfDayPreset::Unspecified => EngineRuntimeTimeOfDayPreset::Unspecified,
        RaceTimeOfDayPreset::Morning => EngineRuntimeTimeOfDayPreset::Morning,
        RaceTimeOfDayPreset::Noon => EngineRuntimeTimeOfDayPreset::Noon,
        RaceTimeOfDayPreset::Evening => EngineRuntimeTimeOfDayPreset::Evening,
        RaceTimeOfDayPreset::Night => EngineRuntimeTimeOfDayPreset::Night,
    }
}

pub fn race_time_of_day_preset_to_engine(preset: RaceTimeOfDayPreset) -> (r:
    EngineRuntimeTimeOfDayPreset)
    ensures
        r == engine_preset(preset),
{
    match preset {
        RaceTimeOfDayPreset::Morning => EngineRuntimeTimeOfDayPreset::Morning,
        RaceTimeOfDayPreset::Noon => EngineRuntimeTimeOfDayPreset::Noon,
        RaceTimeOfDayPreset::Evening => EngineRuntimeTimeOfDayPreset::Evening,
        RaceTimeOfDayPreset::Night => EngineRuntimeTimeOfDayPreset::Night,
        RaceTimeOfDayPreset::Unspecified => EngineRuntimeTimeOfDayPreset::Unspecified,
    }
}

/// A preset goes by one name in a race's configuration and in the engine.
pub proof fn race_presets_keep_their_names(preset: RaceTimeOfDayPreset)
    ensures
        (engine_preset(preset) is Unspecified) == (preset is Unspecified),
        (engine_preset(preset) is Morning) == (preset is Morning),
        (engine_preset(preset) is Noon) == (preset is Noon),
        (engine_preset(preset) is Evening) == (preset is Evening),
        (engine_preset(preset) is Night) == (preset is Night),
{
}

/// Lines one after the other list the teams of each, in the same order.
pub proof fn teams_are_listed_line_by_line(first: Seq<Seq<char>>, then: Seq<Seq<char>>)
    ensures
        listed_teams(first + then) == listed_teams(first) + listed_teams(then),
    decreases then.len(),
{
    if then.len() == 0 {
        assert(first + then =~= first);
        assert(listed_teams(then) =~= Seq::empty());
    } else {
        teams_are_listed_line_by_line(first, then.drop_last());
        assert((first + then).drop_last() =~= first + then.drop_last());
        assert((first + then).last() == then.last());
    }
}

/// A line lists the team that stands on it, without the whitespace around it; a blank line
/// and one that begins with `#` list none.
pub proof fn line_lists_its_team(line: Seq<char>)
    ensures
        ({
            let team = text::trimmed(line);
            if team.len() > 0 && team[0] != '#' {
                listed_teams(seq![line]) == seq![team]
            } else {
                listed_teams(seq![line]).len() == 0
            }
        }),
{
    let lines = seq![line];
    assert(lines.drop_last() =~= Seq::empty());
    assert(lines.last() == line);
    reveal_with_fuel(listed_teams, 2);
    assert(Seq::<Seq<char>>::empty().push(text::trimmed(line)) =~= seq![text::trimmed(line)]);
}

} // verus!
