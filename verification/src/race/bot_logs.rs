//! The logs of a team's bot as they are shown to the team: a window on the end of
//! the file, and the lines that come in after it.

use std::collections::VecDeque;
use vstd::prelude::*;
use crate::status::{Code, Status};
use crate::text;

verus! {

pub const MAX_LINES: usize = 5_000;

pub const MAX_CHARS: usize = 200_000;

/// The end of a line, at most `max_chars` long; with it the length of what is left,
/// and whether anything was cut.
pub fn truncate_line_tail(line: String, max_chars: usize) -> (r: (String, usize, bool))
    ensures
        r.0@ == text::suffix(line@, max_chars as nat),
        r.1 == r.0@.len(),
        r.2 == (line@.len() > max_chars),
{
    let count: usize = line.as_str().unicode_len();
    if count <= max_chars {
        return (line, count, false);
    }
    (text::take_suffix(line.as_str(), max_chars), max_chars, true)
}

/// The lines, each cut to the longest line that is shown.
pub open spec fn cut_lines(lines: Seq<Seq<char>>) -> Seq<Seq<char>> {
    lines.map_values(|line: Seq<char>| text::suffix(line, MAX_CHARS as nat))
}

/// The number of characters in the lines from `from` on.
pub open spec fn chars_from(lines: Seq<Seq<char>>, from: int) -> nat
    decreases lines.len() - from,
{
    if from < 0 || from >= lines.len() {
        0
    } else {
        lines[from].len() + chars_from(lines, from + 1)
    }
}

/// The lines from `from` on are few and short enough to be shown.
pub open spec fn fits_from(lines: Seq<Seq<char>>, from: int) -> bool {
    lines.len() - from <= MAX_LINES && chars_from(lines, from) <= MAX_CHARS
}

/// The window is opened as far back as it fits.
pub open spec fn is_window_start(lines: Seq<Seq<char>>, from: int) -> bool {
    &&& 0 <= from <= lines.len()
    &&& fits_from(lines, from)
    &&& forall|k: int| 0 <= k < from ==> !(#[trigger] fits_from(lines, k))
}

proof fn lemma_chars_shrink(lines: Seq<Seq<char>>, a: int, b: int)
    requires
        0 <= a <= b <= lines.len(),
    ensures
        chars_from(lines, b) <= chars_from(lines, a),
    decreases b - a,
{
    if a < b {
        lemma_chars_shrink(lines, a + 1, b);
    }
}

proof fn lemma_chars_grow(lines: Seq<Seq<char>>, line: Seq<char>, from: int)
    requires
        0 <= from <= lines.len(),
    ensures
        chars_from(lines.push(line), from) == chars_from(lines, from) + line.len(),
    decreases lines.len() - from,
{
    if from < lines.len() {
        lemma_chars_grow(lines, line, from + 1);
        assert(lines.push(line)[from] == lines[from]);
    } else {
        assert(chars_from(lines.push(line), from + 1) == 0);
    }
}

/// There is only one window.
pub proof fn window_is_unique(lines: Seq<Seq<char>>, a: int, b: int)
    requires
        is_window_start(lines, a),
        is_window_start(lines, b),
    ensures
        a == b,
{
    if a < b {
        assert(!fits_from(lines, a));
    } else if b < a {
        assert(!fits_from(lines, b));
    }
}

/// A window on the end of a log.
pub struct LogWindow {
    lines: VecDeque<(String, usize)>,
    total_chars: usize,
    truncated: bool,
    seen: Ghost<Seq<Seq<char>>>,
    start: Ghost<int>,
}

/// What is shown of a log.
#[derive(Debug)]
pub struct BotLogsSnapshot {
    pub lines: Vec<String>,
    pub truncated: bool,
}

impl LogWindow {
    /// All the lines that have come in.
    pub closed spec fn seen(self) -> Seq<Seq<char>> {
        self.seen@
    }

    #[verifier::type_invariant]
    spec fn well_formed(self) -> bool {
        let cut = cut_lines(self.seen@);
        let start = self.start@;
        &&& is_window_start(cut, start)
        &&& self.lines@.len() == cut.len() - start
        &&& forall|i: int|
            0 <= i < self.lines@.len() ==> (#[trigger] self.lines@[i]).0@ == cut[start + i]
                && self.lines@[i].1 == cut[start + i].len()
        &&& self.total_chars == chars_from(cut, start)
        &&& self.truncated == (start > 0 || has_long_line(self.seen@))
    }

    pub fn new() -> (r: Self)
        ensures
            r.seen() == Seq::<Seq<char>>::empty(),
    {
        LogWindow {
            lines: VecDeque::new(),
            total_chars: 0,
            truncated: false,
            seen: Ghost(Seq::empty()),
            start: Ghost(0),
        }
    }

    /// A line comes in at the end of the log.
    pub fn push_line(self, raw_line: String) -> (r: Self)
        ensures
            r.seen() == self.seen().push(raw_line@),
    {
        proof {
            use_type_invariant(&self);
        }
        let ghost before = cut_lines(self.seen@);
        let ghost seen = self.seen@.push(raw_line@);
        let ghost cut = cut_lines(seen);
        let LogWindow { lines, total_chars, truncated, seen: _, start } = self;
        let mut lines: VecDeque<(String, usize)> = lines;
        let mut total_chars: usize = total_chars;
        let mut truncated: bool = truncated;
        let ghost mut from: int = start@;
        let (line, line_chars, was_cut) = truncate_line_tail(raw_line, MAX_CHARS);
        proof {
            assert(cut =~= before.push(line@));
            lemma_chars_grow(before, line@, from);
            assert forall|k: int| 0 <= k < from implies !(#[trigger] fits_from(cut, k)) by {
                assert(!fits_from(before, k));
                lemma_chars_grow(before, line@, k);
            }
            lemma_long_line_grows(self.seen@, raw_line@);
        }
        if was_cut {
            truncated = true;
        }
        lines.push_back((line, line_chars));
        total_chars = total_chars + line_chars;
        proof {
            assert forall|i: int| 0 <= i < lines@.len() implies (#[trigger] lines@[i]).0@
                == cut[from + i] && lines@[i].1 == cut[from + i].len() by {
                if i < lines@.len() - 1 {
                    assert(cut[from + i] == before[from + i]);
                }
            }
        }
        while lines.len() > MAX_LINES || total_chars > MAX_CHARS
            invariant
                0 <= from <= cut.len(),
                cut == cut_lines(seen),
                cut.len() > 0,
                cut.last().len() <= MAX_CHARS,
                lines@.len() == cut.len() - from,
                forall|i: int|
                    0 <= i < lines@.len() ==> (#[trigger] lines@[i]).0@ == cut[from + i]
                        && lines@[i].1 == cut[from + i].len(),
                total_chars == chars_from(cut, from),
                truncated == (from > 0 || has_long_line(seen)),
                forall|k: int| 0 <= k < from ==> !(#[trigger] fits_from(cut, k)),
            decreases lines@.len(),
        {
            let ghost shown = lines@;
            proof {
                assert(!fits_from(cut, from));
                if from == cut.len() {
                    assert(chars_from(cut, from) == 0);
                    assert(false);
                }
            }
            match lines.pop_front() {
                Some((_, removed_chars)) => {
                    proof {
                        assert(removed_chars == cut[from].len());
                        assert(chars_from(cut, from) == cut[from].len() + chars_from(
                            cut,
                            from + 1,
                        ));
                        assert forall|i: int| 0 <= i < lines@.len() implies (
                        #[trigger] lines@[i]).0@ == cut[from + 1 + i] && lines@[i].1 == cut[from + 1
                            + i].len() by {
                            assert(lines@[i] == shown[i + 1]);
                        }
                    }
                    total_chars = total_chars - removed_chars;
                    truncated = true;
                    proof {
                        from = from + 1;
                    }
                },
                None => {
                    return LogWindow {
                        lines,
                        total_chars,
                        truncated,
                        seen: Ghost(seen),
                        start: Ghost(from),
                    };
                },
            }
        }
        LogWindow { lines, total_chars, truncated, seen: Ghost(seen), start: Ghost(from) }
    }

    /// The window as it is shown: the last of the lines, each cut to the longest
    /// line that is shown, as many as fit; with it whether anything is left out.
    pub fn into_snapshot(self) -> (r: BotLogsSnapshot)
        ensures
            exists|start: int|
                #![trigger is_window_start(cut_lines(self.seen()), start)]
                {
                    &&& is_window_start(cut_lines(self.seen()), start)
                    &&& text::text_views(r.lines@) == cut_lines(self.seen()).skip(start)
                    &&& r.truncated == (start > 0 || has_long_line(self.seen()))
                },
    {
        proof {
            use_type_invariant(&self);
        }
        let ghost cut = cut_lines(self.seen@);
        let ghost from = self.start@;
        let ghost seen = self.seen@;
        let truncated: bool = self.truncated;
        let LogWindow { lines: held, total_chars: _, truncated: _, seen: _, start: _ } = self;
        let mut rest: VecDeque<(String, usize)> = held;
        let mut lines: Vec<String> = Vec::new();
        proof {
            assert(text::text_views(lines@) =~= cut.subrange(from, from));
        }
        while rest.len() > 0
            invariant
                0 <= from,
                from + lines@.len() + rest@.len() == cut.len(),
                forall|i: int|
                    0 <= i < rest@.len() ==> (#[trigger] rest@[i]).0@ == cut[from + lines@.len()
                        + i],
                text::text_views(lines@) == cut.subrange(from, from + lines@.len()),
            decreases rest@.len(),
        {
            let ghost shown = rest@;
            let ghost before = lines@;
            match rest.pop_front() {
                Some((line, _)) => {
                    let ghost view = line@;
                    lines.push(line);
                    proof {
                        assert(view == cut[from + before.len()]);
                        assert(text::text_views(lines@) =~= text::text_views(before).push(view));
                        assert(cut.subrange(from, from + before.len()).push(view) =~= cut.subrange(
                            from,
                            from + lines@.len(),
                        ));
                        assert forall|i: int| 0 <= i < rest@.len() implies (
                        #[trigger] rest@[i]).0@ == cut[from + lines@.len() + i] by {
                            assert(rest@[i] == shown[i + 1]);
                        }
                    }
                },
                None => {},
            }
        }
        proof {
            assert(cut.subrange(from, from + lines@.len()) =~= cut.skip(from));
            assert(is_window_start(cut_lines(self.seen()), from));
        }
        BotLogsSnapshot { lines, truncated }
    }
}

/// One of the lines is longer than what is shown of a line.
pub open spec fn has_long_line(lines: Seq<Seq<char>>) -> bool {
    exists|i: int| 0 <= i < lines.len() && (#[trigger] lines[i]).len() > MAX_CHARS
}

proof fn lemma_long_line_grows(lines: Seq<Seq<char>>, line: Seq<char>)
    ensures
        has_long_line(lines.push(line)) == (has_long_line(lines) || line.len() > MAX_CHARS),
{
    let more = lines.push(line);
    if has_long_line(lines) {
        let i = choose|i: int| 0 <= i < lines.len() && (#[trigger] lines[i]).len() > MAX_CHARS;
        assert(more[i].len() > MAX_CHARS);
    }
    if line.len() > MAX_CHARS {
        assert(more[lines.len() as int].len() > MAX_CHARS);
    }
    if has_long_line(more) {
        let i = choose|i: int| 0 <= i < more.len() && (#[trigger] more[i]).len() > MAX_CHARS;
        if i < lines.len() {
            assert(lines[i].len() > MAX_CHARS);
        }
    }
}

/// What is shown of a log that has lines is not empty: its last line always fits.
pub proof fn window_shows_the_last_line(lines: Seq<Seq<char>>, start: int)
    requires
        lines.len() > 0,
        is_window_start(cut_lines(lines), start),
    ensures
        start < lines.len(),
{
    let cut = cut_lines(lines);
    if start == lines.len() {
        let last = cut.len() - 1;
        assert(chars_from(cut, last) == cut[last].len() + chars_from(cut, last + 1));
        assert(fits_from(cut, last));
    }
}

/// A line without the carriage return at its end.
pub open spec fn without_return(line: Seq<char>) -> Seq<char> {
    if line.len() > 0 && line.last() == '\r' {
        line.drop_last()
    } else {
        line
    }
}

/// A line as it is shown.
pub open spec fn shown_line(line: Seq<char>) -> Seq<char> {
    text::suffix(without_return(line), MAX_CHARS as nat)
}

pub open spec fn shown_lines(lines: Seq<Seq<char>>) -> Seq<Seq<char>> {
    lines.map_values(|line: Seq<char>| shown_line(line))
}

fn show_line(line: String) -> (r: String)
    ensures
        r@ == shown_line(line@),
{
    let count: usize = line.as_str().unicode_len();
    let bare: String = if count > 0 && line.as_str().get_char(count - 1) == '\r' {
        let r: String = line.as_str().substring_char(0, count - 1).to_owned();
        proof {
            assert(r@ =~= line@.drop_last());
        }
        r
    } else {
        line
    };
    let (shown, _, _) = truncate_line_tail(bare, MAX_CHARS);
    shown
}

/// Where a reader stands in a log that grows: how far it has read, and the start of
/// a line whose end has not come yet.
#[derive(Debug)]
pub struct LogFollower {
    pub offset: u64,
    pub pending: String,
}

impl LogFollower {
    /// `self` is `before` after text was read that takes up `size` bytes; `lines` are shown.
    pub open spec fn has_read(
        self,
        before: LogFollower,
        read: Seq<char>,
        size: nat,
        lines: Seq<Seq<char>>,
    ) -> bool {
        let pieces = text::split_on(before.pending@ + read, '\n');
        &&& self.offset == if before.offset + size > u64::MAX {
            u64::MAX as int
        } else {
            before.offset + size
        }
        &&& lines == shown_lines(pieces.drop_last())
        &&& self.pending@ == pieces.last()
    }

    /// A reader that has seen the first `offset` bytes.
    pub fn new(offset: u64) -> (r: Self)
        ensures
            r.offset == offset,
            r.pending@ == Seq::<char>::empty(),
    {
        LogFollower { offset, pending: String::new() }
    }

    /// Before it reads on, the reader looks at the size of the file: a file that has
    /// become shorter is read from its start.
    pub fn on_file_size(&mut self, file_size_bytes: u64)
        ensures
            file_size_bytes < old(self).offset ==> final(self).offset == 0 && final(self).pending@
                == Seq::<char>::empty(),
            file_size_bytes >= old(self).offset ==> *final(self) == *old(self),
    {
        if file_size_bytes < self.offset {
            self.offset = 0;
            self.pending = String::new();
        }
    }

    /// The bytes that were appended to the file came in.
    pub fn on_bytes(&mut self, bytes: &Vec<u8>) -> (lines: Vec<String>)
        ensures
            final(self).has_read(
                *old(self),
                text::lossy_text(bytes@),
                bytes@.len(),
                text::text_views(lines@),
            ),
    {
        let read: String = text::decode_lossy(bytes);
        self.on_read(read.as_str(), bytes.len() as u64)
    }

    /// Text came in that takes up `size` bytes: the lines that it ends are shown,
    /// and what follows them waits.
    pub fn on_read(&mut self, read: &str, size: u64) -> (lines: Vec<String>)
        ensures
            final(self).has_read(*old(self), read@, size as nat, text::text_views(lines@)),
    {
        self.offset = self.offset.saturating_add(size);
        let all: String = text::join2(self.pending.as_str(), read);
        let mut pieces: Vec<String> = text::split(all.as_str(), '\n');
        let ghost views = text::text_views(pieces@);
        let last: Option<String> = pieces.pop();
        match last {
            Some(rest) => {
                self.pending = rest;
            },
            None => {},
        }
        let mut lines: Vec<String> = Vec::new();
        let mut i: usize = 0;
        proof {
            assert(text::text_views(lines@) =~= shown_lines(views.take(0)));
        }
        while i < pieces.len()
            invariant
                i <= pieces@.len(),
                views.len() == pieces@.len() + 1,
                forall|k: int| 0 <= k < pieces@.len() ==> (#[trigger] pieces@[k])@ == views[k],
                text::text_views(lines@) == shown_lines(views.take(i as int)),
            decreases pieces@.len() - i,
        {
            let ghost before = text::text_views(lines@);
            let shown: String = show_line(pieces[i].clone());
            let ghost view = shown@;
            lines.push(shown);
            proof {
                assert(text::text_views(lines@) =~= before.push(view));
                assert(shown_lines(views.take(i + 1)) =~= shown_lines(views.take(i as int)).push(
                    view,
                ));
            }
            i += 1;
        }
        proof {
            assert(views.take(i as int) =~= views.drop_last());
        }
        lines
    }
}

/// The lines do not depend on how the text is cut into reads: two reads show what
/// one read of both texts shows, and leave the same to wait.
pub proof fn reads_add_up(pending: Seq<char>, a: Seq<char>, b: Seq<char>)
    ensures
        ({
            let first = text::split_on(pending + a, '\n');
            let second = text::split_on(first.last() + b, '\n');
            let whole = text::split_on(pending + (a + b), '\n');
            &&& shown_lines(whole.drop_last()) == shown_lines(first.drop_last()) + shown_lines(
                second.drop_last(),
            )
            &&& whole.last() == second.last()
        }),
{
    text::split_continues(pending + a, b, '\n');
    let first = text::split_on(pending + a, '\n');
    let second = text::split_on(first.last() + b, '\n');
    let whole = text::split_on(pending + (a + b), '\n');
    assert(pending + (a + b) =~= (pending + a) + b);
    text::split_continues(first.last() + b, Seq::empty(), '\n');
    assert(whole == first.drop_last() + second);
    assert(whole.drop_last() =~= first.drop_last() + second.drop_last());
    assert(shown_lines(whole.drop_last()) =~= shown_lines(first.drop_last()) + shown_lines(
        second.drop_last(),
    ));
}

/// What one read gives: its text, and how many bytes that takes up.
pub struct LogRead {
    pub text: Seq<char>,
    pub size: u64,
}

/// The text of all reads.
pub open spec fn text_of_reads(reads: Seq<LogRead>) -> Seq<char>
    decreases reads.len(),
{
    if reads.len() == 0 {
        Seq::empty()
    } else {
        text_of_reads(reads.drop_last()) + reads.last().text
    }
}

/// How many bytes all reads take up.
pub open spec fn size_of_reads(reads: Seq<LogRead>) -> nat
    decreases reads.len(),
{
    if reads.len() == 0 {
        0
    } else {
        size_of_reads(reads.drop_last()) + reads.last().size as nat
    }
}

/// Where a reader stands after the reads, from the start of the file: how far it has read,
/// what waits, and the lines that were shown.
pub struct FollowedLog {
    pub offset: nat,
    pub pending: Seq<char>,
    pub lines: Seq<Seq<char>>,
}

/// Each read adds to what was followed as `LogFollower::on_read` has it.
pub open spec fn after_reads(reads: Seq<LogRead>) -> FollowedLog
    decreases reads.len(),
{
    if reads.len() == 0 {
        FollowedLog { offset: 0, pending: Seq::empty(), lines: Seq::empty() }
    } else {
        let before = after_reads(reads.drop_last());
        let pieces = text::split_on(before.pending + reads.last().text, '\n');
        FollowedLog {
            offset: before.offset + reads.last().size as nat,
            pending: pieces.last(),
            lines: before.lines + shown_lines(pieces.drop_last()),
        }
    }
}

/// However a log is cut into reads, and however many they are: the lines that were shown
/// are the ended lines of its text, in order and each once; what follows the last line end
/// waits; and the reader stands behind all that it has read.
pub proof fn all_reads_add_up(reads: Seq<LogRead>)
    ensures
        ({
            let pieces = text::split_on(text_of_reads(reads), '\n');
            let log = after_reads(reads);
            &&& log.lines == shown_lines(pieces.drop_last())
            &&& log.pending == pieces.last()
            &&& log.offset == size_of_reads(reads)
        }),
    decreases reads.len(),
{
    if reads.len() == 0 {
        let pieces = text::split_on(Seq::<char>::empty(), '\n');
        assert(pieces =~= seq![Seq::<char>::empty()]);
        assert(shown_lines(pieces.drop_last()) =~= Seq::<Seq<char>>::empty());
    } else {
        let before = reads.drop_last();
        all_reads_add_up(before);
        let a = text_of_reads(before);
        let b = reads.last().text;
        reads_add_up(Seq::empty(), a, b);
        assert(Seq::<char>::empty() + a =~= a);
        assert(Seq::<char>::empty() + (a + b) =~= a + b);
    }
}

/// The log of the bot that a team has in a sandbox.
pub fn require_team_log(log_file_path: Option<String>) -> (r: Result<String, Status>)
    ensures
        match log_file_path {
            Some(path) => r == Ok::<String, Status>(path),
            None => r matches Err(e) && e@ == (
                Code::NotFound,
                "no active official sandbox bot for team"@,
            ),
        },
{
    match log_file_path {
        Some(path) => Ok(path),
        None => Err(Status::not_found("no active official sandbox bot for team")),
    }
}

/// Whether a log is still followed: as long as the team's bot writes to it.
pub fn is_log_current(current_path: &Option<String>, log_path: &str) -> (r: bool)
    ensures
        r == (current_path is Some && current_path->Some_0@ == log_path@),
{
    match current_path {
        Some(path) => text::str_eq(path.as_str(), log_path),
        None => false,
    }
}

/// A window shows at most five thousand lines and two hundred thousand characters, and with
/// one line more it would show too many of either.
pub proof fn window_is_as_wide_as_it_may_be(lines: Seq<Seq<char>>, from: int)
    requires
        is_window_start(lines, from),
    ensures
        lines.len() - from <= 5_000,
        chars_from(lines, from) <= 200_000,
        from > 0 ==> lines.len() - (from - 1) > 5_000 || chars_from(lines, from - 1) > 200_000,
{
    if from > 0 {
        assert(!fits_from(lines, from - 1));
    }
}

/// The characters from a line on are those of the line and of all that follow it.
pub proof fn characters_of_lines_add_up(lines: Seq<Seq<char>>, from: int)
    ensures
        0 <= from < lines.len() ==> chars_from(lines, from) == lines[from].len() + chars_from(
            lines,
            from + 1,
        ),
        from >= lines.len() ==> chars_from(lines, from) == 0,
{
}

/// Of a line at most its last two hundred thousand characters are shown.
pub proof fn lines_are_cut_at_their_start(lines: Seq<Seq<char>>, i: int)
    requires
        0 <= i < lines.len(),
    ensures
        cut_lines(lines).len() == lines.len(),
        lines[i].len() <= 200_000 ==> cut_lines(lines)[i] == lines[i],
        lines[i].len() > 200_000 ==> cut_lines(lines)[i] == lines[i].skip(
            lines[i].len() - 200_000,
        ),
        lines[i].len() > 200_000 ==> has_long_line(lines),
        has_long_line(lines) ==> exists|k: int|
            0 <= k < lines.len() && (#[trigger] lines[k]).len() > 200_000,
{
    if lines[i].len() > 200_000 {
        assert(text::suffix(lines[i], 200_000) =~= lines[i].skip(lines[i].len() - 200_000));
    }
}

/// A carriage return at the end of a line is not shown; nothing else of a line that fits is
/// left out.
pub proof fn only_the_return_is_left_out(line: Seq<char>)
    ensures
        line.len() > 0 && line.last() == '\r' ==> without_return(line) == line.take(
            line.len() - 1,
        ),
        line.len() == 0 || line.last() != '\r' ==> without_return(line) == line,
        without_return(line).len() <= 200_000 ==> shown_line(line) == without_return(line),
        shown_line(line).len() <= 200_000,
        shown_lines(seq![line]).len() == 1,
        shown_lines(seq![line])[0] == shown_line(line),
{
    if line.len() > 0 {
        assert(line.drop_last() =~= line.take(line.len() - 1));
    }
}

/// A reader moves on by the bytes that it has read, up to the largest number, and shows one
/// line for each line end.
pub proof fn reader_moves_on_by_what_it_reads(
    before: LogFollower,
    after: LogFollower,
    read: Seq<char>,
    size: nat,
    lines: Seq<Seq<char>>,
)
    requires
        after.has_read(before, read, size, lines),
    ensures
        before.offset + size <= u64::MAX ==> after.offset == before.offset + size,
        before.offset + size > u64::MAX ==> after.offset == u64::MAX,
        lines.len() + 1 == text::split_on(before.pending@ + read, '\n').len(),
{
    text::split_continues(before.pending@ + read, Seq::empty(), '\n');
}

} // verus!
