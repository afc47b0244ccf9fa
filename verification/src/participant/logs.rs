//! The logs of the bots of the official race: where they are kept, and how.

use vstd::prelude::*;
use crate::text;

verus! {

pub const SUBMISSIONS_ROOT: &'static str = ".submissions";

pub const TEAM_LOGS_SUBDIR: &'static str = "logs";

/// The end of a log that is shown when a bot fails.
pub const LOG_TAIL_MAX_CHARS: usize = 4_000;

/// The length of the start of a container's id that names its log, in bytes.
pub const SHORT_ID_BYTES: usize = 12;

/// The character itself, or `_` in the place of one that no name may hold.
pub open spec fn storage_char(c: char) -> char {
    if text::ascii_word(c) {
        c
    } else {
        '_'
    }
}

pub open spec fn storage_chars(s: Seq<char>) -> Seq<char> {
    s.map_values(|c: char| storage_char(c))
}

pub(crate) fn storage_char_of(c: char) -> (r: char)
    ensures
        r == storage_char(c),
{
    if text::is_ascii_word(c) {
        c
    } else {
        '_'
    }
}

/// The text with `_` in the place of every character that no name may hold.
pub fn replace_unsafe_chars(value: &str) -> (r: String)
    ensures
        r@ == storage_chars(value@),
{
    let chars: Vec<char> = text::chars_of(value);
    let mut r: String = String::new();
    let mut i: usize = 0;
    while i < chars.len()
        invariant
            i <= chars@.len(),
            chars@ == value@,
            r@ == storage_chars(value@.take(i as int)),
        decreases chars@.len() - i,
    {
        let c: char = storage_char_of(chars[i]);
        r.push(c);
        proof {
            assert(storage_chars(value@.take(i + 1)) =~= storage_chars(value@.take(i as int)).push(
                c,
            ));
        }
        i += 1;
    }
    proof {
        assert(value@.take(i as int) =~= value@);
    }
    r
}

/// `s` without the `_` at its start.
pub open spec fn without_leading(s: Seq<char>) -> Seq<char>
    decreases s.len(),
{
    if s.len() > 0 && s[0] == '_' {
        without_leading(s.subrange(1, s.len() as int))
    } else {
        s
    }
}

/// `s` without the `_` at its end.
pub open spec fn without_trailing(s: Seq<char>) -> Seq<char>
    decreases s.len(),
{
    if s.len() > 0 && s.last() == '_' {
        without_trailing(s.drop_last())
    } else {
        s
    }
}

/// A name for storage made of any text.
pub open spec fn storage_component(value: Seq<char>) -> Seq<char> {
    let kept = without_trailing(without_leading(storage_chars(value)));
    if kept.len() == 0 {
        "unknown"@
    } else {
        kept
    }
}

/// A part of a path made of any text: it holds letters, digits, `-` and `_` only,
/// and no `_` at its ends.
pub fn sanitize_storage_component(value: &str) -> (r: String)
    ensures
        r@ == storage_component(value@),
{
    let replaced: String = replace_unsafe_chars(value);
    let chars: Vec<char> = text::chars_of(replaced.as_str());
    let ghost all = chars@;
    let mut from: usize = 0;
    proof {
        assert(all.subrange(0, all.len() as int) =~= all);
    }
    while from < chars.len() && chars[from] == '_'
        invariant
            from <= chars@.len(),
            chars@ == all,
            without_leading(all) == without_leading(all.subrange(from as int, all.len() as int)),
        decreases chars@.len() - from,
    {
        proof {
            let rest = all.subrange(from as int, all.len() as int);
            assert(rest.subrange(1, rest.len() as int) =~= all.subrange(
                from + 1,
                all.len() as int,
            ));
        }
        from += 1;
    }
    let ghost led = all.subrange(from as int, all.len() as int);
    let mut to: usize = chars.len();
    proof {
        assert(led.take(led.len() as int) =~= led);
    }
    while to > from && chars[to - 1] == '_'
        invariant
            from <= to <= chars@.len(),
            chars@ == all,
            led == all.subrange(from as int, all.len() as int),
            without_trailing(led) == without_trailing(led.take(to - from)),
        decreases to - from,
    {
        proof {
            let rest = led.take(to - from);
            assert(rest.drop_last() =~= led.take(to - from - 1));
            assert(rest.last() == chars@[to - 1]);
        }
        to -= 1;
    }
    proof {
        assert(led.take(to - from) =~= all.subrange(from as int, to as int));
        assert(without_leading(all) == led);
        if to > from {
            assert(led.take(to - from).last() == chars@[to - 1]);
        }
    }
    if from == to {
        return "unknown".to_owned();
    }
    text::string_of_range(&chars, from, to)
}

proof fn lemma_leading(s: Seq<char>)
    requires
        text::all_word(s),
    ensures
        text::all_word(without_leading(s)),
        without_leading(s).len() > 0 ==> without_leading(s)[0] != '_',
    decreases s.len(),
{
    if s.len() > 0 && s[0] == '_' {
        lemma_leading(s.subrange(1, s.len() as int));
    }
}

proof fn lemma_trailing(s: Seq<char>)
    requires
        text::all_word(s),
    ensures
        text::all_word(without_trailing(s)),
        without_trailing(s).len() > 0 ==> without_trailing(s).last() != '_',
        without_trailing(s).len() > 0 ==> without_trailing(s)[0] == s[0],
    decreases s.len(),
{
    if s.len() > 0 && s.last() == '_' {
        lemma_trailing(s.drop_last());
    }
}

/// A name for storage is not empty, holds nothing but letters, digits, `-` and `_`,
/// and has no `_` at its ends: it cannot climb out of its directory.
pub proof fn storage_component_is_safe(value: Seq<char>)
    ensures
        storage_component(value).len() > 0,
        text::all_word(storage_component(value)),
        storage_component(value)[0] != '_',
        storage_component(value).last() != '_',
{
    let mapped = storage_chars(value);
    assert(text::all_word(mapped)) by {
        assert forall|i: int| 0 <= i < mapped.len() implies text::ascii_word(
            #[trigger] mapped[i],
        ) by {
            assert(mapped[i] == storage_char(value[i]));
        }
    }
    lemma_leading(mapped);
    lemma_trailing(without_leading(mapped));
    reveal_strlit("unknown");
}

/// A name for storage stands for itself.
pub proof fn storage_component_is_idempotent(value: Seq<char>)
    ensures
        storage_component(storage_component(value)) == storage_component(value),
{
    storage_component_is_safe(value);
    let name = storage_component(value);
    assert(storage_chars(name) =~= name);
}

/// The length of a character in UTF-8.
pub open spec fn utf8_len(c: char) -> nat {
    let code = c as u32;
    if code < 0x80 {
        1
    } else if code < 0x800 {
        2
    } else if code < 0x1_0000 {
        3
    } else {
        4
    }
}

/// The length of a text in UTF-8.
pub open spec fn utf8_size(s: Seq<char>) -> nat
    decreases s.len(),
{
    if s.len() == 0 {
        0
    } else {
        utf8_size(s.drop_last()) + utf8_len(s.last())
    }
}

/// The start of a text that takes up `n` bytes, where there is one; else all of it.
pub open spec fn is_byte_prefix(r: Seq<char>, s: Seq<char>, n: nat) -> bool {
    ||| exists|k: int| 0 <= k <= s.len() && r == s.take(k) && utf8_size(#[trigger] s.take(k)) == n
    ||| r == s && forall|k: int| 0 <= k <= s.len() ==> utf8_size(#[trigger] s.take(k)) != n
}

fn utf8_len_of(c: char) -> (r: usize)
    ensures
        r == utf8_len(c),
{
    let code: u32 = c as u32;
    if code < 0x80 {
        1
    } else if code < 0x800 {
        2
    } else if code < 0x1_0000 {
        3
    } else {
        4
    }
}

proof fn lemma_utf8_size_grows(s: Seq<char>, a: int, b: int)
    requires
        0 <= a <= b <= s.len(),
    ensures
        utf8_size(s.take(a)) <= utf8_size(s.take(b)),
    decreases b - a,
{
    if a < b {
        assert(s.take(b).drop_last() =~= s.take(b - 1));
        lemma_utf8_size_grows(s, a, b - 1);
    }
}

/// The short form of a container's id.
pub fn short_container_id(container_id: &str) -> (r: String)
    ensures
        is_byte_prefix(r@, text::trimmed(container_id@), SHORT_ID_BYTES as nat),
        is_byte_prefix(r@, text::trimmed(container_id@), 12),
{
    let trimmed: String = text::trim(container_id);
    let chars: Vec<char> = text::chars_of(trimmed.as_str());
    let mut size: usize = 0;
    let mut i: usize = 0;
    proof {
        assert(chars@.take(0) =~= Seq::<char>::empty());
    }
    while i < chars.len() && size < SHORT_ID_BYTES
        invariant
            i <= chars@.len(),
            chars@ == trimmed@,
            size == utf8_size(chars@.take(i as int)),
            size <= SHORT_ID_BYTES + 3,
            forall|k: int| 0 <= k < i ==> utf8_size(#[trigger] chars@.take(k)) < SHORT_ID_BYTES,
        decreases chars@.len() - i,
    {
        let ghost before = i as int;
        size = size + utf8_len_of(chars[i]);
        proof {
            assert(chars@.take(i + 1).drop_last() =~= chars@.take(i as int));
            assert forall|k: int| 0 <= k < i + 1 implies utf8_size(#[trigger] chars@.take(k))
                < SHORT_ID_BYTES by {
                if k == before {
                    assert(chars@.take(k) =~= chars@.take(before));
                }
            }
        }
        i += 1;
    }
    if size == SHORT_ID_BYTES {
        proof {
            assert(chars@.subrange(0, i as int) =~= trimmed@.take(i as int));
            assert(utf8_size(trimmed@.take(i as int)) == SHORT_ID_BYTES);
        }
        return text::string_of_range(&chars, 0, i);
    }
    proof {
        assert forall|k: int| 0 <= k <= trimmed@.len() implies utf8_size(
            #[trigger] trimmed@.take(k),
        ) != SHORT_ID_BYTES by {
            if k >= i {
                lemma_utf8_size_grows(trimmed@, i as int, k);
                if size < SHORT_ID_BYTES {
                    assert(k == i);
                }
            }
        }
    }
    trimmed
}

/// The directory of a team's logs.
pub open spec fn logs_dir(team_id: Seq<char>) -> Seq<char> {
    SUBMISSIONS_ROOT@ + "/"@ + storage_component(team_id) + "/"@ + TEAM_LOGS_SUBDIR@
}

pub fn team_logs_dir(team_id: &str) -> (r: String)
    ensures
        r@ == logs_dir(team_id@),
{
    let team: String = sanitize_storage_component(team_id);
    let mut r: String = text::join3(SUBMISSIONS_ROOT, "/", team.as_str());
    r.append("/");
    r.append(TEAM_LOGS_SUBDIR);
    r
}

/// The name of a log; `short` is the short form of the container's id.
pub open spec fn log_file_name(
    ts_ms: nat,
    team_id: Seq<char>,
    submission_id: Seq<char>,
    slot_index: int,
    short: Seq<char>,
) -> Seq<char> {
    text::decimal(ts_ms) + "_team-"@ + storage_component(team_id) + "_submission-"@
        + storage_component(submission_id) + "_sandbox-official-race_slot-"@ + text::signed_decimal(
        slot_index,
    ) + "_container-"@ + storage_component(short) + ".log"@
}

/// The path of the log of a bot whose container started at the time.
pub fn build_official_race_bot_log_path(
    ts_ms: u128,
    team_id: &str,
    submission_id: &str,
    slot_index: i16,
    container_id: &str,
) -> (r: String)
    ensures
        exists|short: Seq<char>|
            is_byte_prefix(short, text::trimmed(container_id@), SHORT_ID_BYTES as nat) && r@
                == logs_dir(team_id@) + "/"@ + #[trigger] log_file_name(
                ts_ms as nat,
                team_id@,
                submission_id@,
                slot_index as int,
                short,
            ),
{
    let short: String = short_container_id(container_id);
    let team: String = sanitize_storage_component(team_id);
    let submission: String = sanitize_storage_component(submission_id);
    let container: String = sanitize_storage_component(short.as_str());
    let mut name: String = String::new();
    text::push_decimal(&mut name, ts_ms);
    proof {
        assert(Seq::<char>::empty() + text::decimal(ts_ms as nat) =~= text::decimal(ts_ms as nat));
    }
    name.append("_team-");
    name.append(team.as_str());
    name.append("_submission-");
    name.append(submission.as_str());
    name.append("_sandbox-official-race_slot-");
    text::push_signed_decimal(&mut name, slot_index as i64);
    name.append("_container-");
    name.append(container.as_str());
    name.append(".log");
    proof {
        assert(name@ == log_file_name(
            ts_ms as nat,
            team_id@,
            submission_id@,
            slot_index as int,
            short@,
        ));
    }
    let dir: String = team_logs_dir(team_id);
    text::join3(dir.as_str(), "/", name.as_str())
}

/// The lines at the start of a log.
pub open spec fn log_header(
    team_id: Seq<char>,
    submission_id: Seq<char>,
    slot_index: int,
    container_id: Seq<char>,
    started_at_ms: nat,
    started_at_utc: Seq<char>,
) -> Seq<char> {
    "# team_id="@ + team_id + "\n# submission_id="@ + submission_id
        + "\n# sandbox_id=official-race\n# slot_index="@ + text::signed_decimal(slot_index)
        + "\n# container_id="@ + container_id + "\n# started_at_unix_ms="@ + text::decimal(
        started_at_ms,
    ) + "\n# started_at_utc="@ + started_at_utc + "\n"@
}

/// A moment, in nanoseconds since the epoch, as RFC 3339 writes it; nothing where it
/// cannot be written so.
pub uninterp spec fn rfc3339_text(unix_nanos: int) -> Option<Seq<char>>;

/// Wraps `time::OffsetDateTime::format` with `Rfc3339`, on the moment that
/// `OffsetDateTime::from_unix_timestamp_nanos` makes of the number; nothing where either
/// fails. How a moment is written is left unsaid.
#[verifier::external_body]
fn format_rfc3339(unix_nanos: i128) -> (r: Option<String>)
    ensures
        crate::engine::opt_text(r) == rfc3339_text(unix_nanos as int),
{
    let moment = time::OffsetDateTime::from_unix_timestamp_nanos(unix_nanos).ok();
    moment.and_then(|m| m.format(&time::format_description::well_known::Rfc3339).ok())
}

/// How a moment is shown that could be written so, or could not be.
pub open spec fn shown_moment(written: Option<Seq<char>>) -> Seq<char> {
    match written {
        Some(written) => written,
        None => "unknown"@,
    }
}

pub fn show_moment(written: Option<String>) -> (r: String)
    ensures
        r@ == shown_moment(crate::engine::opt_text(written)),
{
    match written {
        Some(written) => written,
        None => "unknown".to_owned(),
    }
}

/// How a moment is shown, given in nanoseconds since the epoch.
pub fn utc_text(unix_nanos: i128) -> (r: String)
    ensures
        r@ == shown_moment(rfc3339_text(unix_nanos as int)),
{
    show_moment(format_rfc3339(unix_nanos))
}

pub fn build_log_header(
    team_id: &str,
    submission_id: &str,
    slot_index: i16,
    container_id: &str,
    started_at_ms: u128,
    started_at_utc: &str,
) -> (r: String)
    ensures
        r@ == log_header(
            team_id@,
            submission_id@,
            slot_index as int,
            container_id@,
            started_at_ms as nat,
            started_at_utc@,
        ),
{
    let mut r: String = text::join3("# team_id=", team_id, "\n# submission_id=");
    r.append(submission_id);
    r.append("\n# sandbox_id=official-race\n# slot_index=");
    text::push_signed_decimal(&mut r, slot_index as i64);
    r.append("\n# container_id=");
    r.append(container_id);
    r.append("\n# started_at_unix_ms=");
    text::push_decimal(&mut r, started_at_ms);
    r.append("\n# started_at_utc=");
    r.append(started_at_utc);
    r.append("\n");
    r
}

/// One line of a log, under the name of the channel that it came from.
pub fn log_line(channel: &str, line: &str) -> (r: String)
    ensures
        r@ == "["@ + channel@ + "] "@ + line@ + "\n"@,
{
    let mut r: String = text::join3("[", channel, "] ");
    r.append(line);
    r.append("\n");
    r
}

/// The line of a log that says how the following of the container's output ended:
/// with the exit code, where there was one.
pub fn follow_ended_line(code: Option<i32>) -> (r: String)
    ensures
        r@ == "# docker/logs follow ended status="@ + match code {
            Some(code) => "Some("@ + text::signed_decimal(code as int) + ")"@,
            None => "None"@,
        } + "\n"@,
{
    let mut shown: String = String::new();
    match code {
        Some(code) => {
            shown.append("Some(");
            text::push_signed_decimal(&mut shown, code as i64);
            shown.append(")");
            proof {
                assert(shown@ =~= "Some("@ + text::signed_decimal(code as int) + ")"@);
            }
        },
        None => {
            shown.append("None");
            proof {
                assert(shown@ =~= "None"@);
            }
        },
    }
    text::join3("# docker/logs follow ended status=", shown.as_str(), "\n")
}

/// The line of a log that says why the container's output could not be followed.
pub fn follow_failed_line(error: &str) -> (r: String)
    ensures
        r@ == "# docker/logs follow failed error="@ + error@ + "\n"@,
{
    text::join3("# docker/logs follow failed error=", error, "\n")
}

/// The line of a log that says why a channel could not be read on.
pub fn read_error_line(channel: &str, error: &str) -> (r: String)
    ensures
        r@ == "["@ + channel@ + "] <stream read error: "@ + error@ + ">\n"@,
{
    let mut r: String = text::join3("[", channel, "] <stream read error: ");
    r.append(error);
    r.append(">\n");
    r
}

/// Both outputs, trimmed, one after the other; nothing where both are blank.
pub open spec fn joined_outputs(stdout: Seq<char>, stderr: Seq<char>) -> Option<Seq<char>> {
    let out = text::trimmed(stdout);
    let err = text::trimmed(stderr);
    if out.len() == 0 && err.len() == 0 {
        None
    } else if err.len() == 0 {
        Some(out)
    } else if out.len() == 0 {
        Some(err)
    } else {
        Some(out + "\n"@ + err)
    }
}

/// The end of what a bot's container has put out.
pub open spec fn log_tail(stdout: Seq<char>, stderr: Seq<char>) -> Option<Seq<char>> {
    match joined_outputs(stdout, stderr) {
        None => None,
        Some(all) => Some(
            if all.len() <= LOG_TAIL_MAX_CHARS {
                all
            } else {
                "..."@ + text::suffix(all, LOG_TAIL_MAX_CHARS as nat)
            },
        ),
    }
}

pub fn combine_log_tail(stdout: &str, stderr: &str) -> (r: Option<String>)
    ensures
        crate::engine::opt_text(r) == log_tail(stdout@, stderr@),
{
    let out: String = text::trim(stdout);
    let err: String = text::trim(stderr);
    let all: String = if out.as_str().is_empty() && err.as_str().is_empty() {
        return None;
    } else if err.as_str().is_empty() {
        out
    } else if out.as_str().is_empty() {
        err
    } else {
        text::join3(out.as_str(), "\n", err.as_str())
    };
    if all.as_str().unicode_len() <= LOG_TAIL_MAX_CHARS {
        return Some(all);
    }
    let tail: String = text::take_suffix(all.as_str(), LOG_TAIL_MAX_CHARS);
    Some(text::join2("...", tail.as_str()))
}

/// The end of what a bot's container has put out, read from the bytes.
pub fn read_log_tail(stdout: &Vec<u8>, stderr: &Vec<u8>) -> (r: Option<String>)
    ensures
        crate::engine::opt_text(r) == log_tail(
            text::lossy_text(stdout@),
            text::lossy_text(stderr@),
        ),
{
    let out: String = text::decode_lossy(stdout);
    let err: String = text::decode_lossy(stderr);
    combine_log_tail(out.as_str(), err.as_str())
}

/// A shown end of a log is never longer than the limit and the three dots.
pub proof fn log_tail_is_bounded(stdout: Seq<char>, stderr: Seq<char>)
    ensures
        log_tail(stdout, stderr) matches Some(tail) ==> tail.len() <= LOG_TAIL_MAX_CHARS + 3,
{
    reveal_strlit("...");
}

/// Every character stays that a name may hold, and `_` stands for each other one.
pub proof fn characters_stay_or_are_replaced(value: Seq<char>, i: int)
    requires
        0 <= i < value.len(),
    ensures
        storage_chars(value).len() == value.len(),
        text::ascii_word(value[i]) ==> storage_chars(value)[i] == value[i],
        !text::ascii_word(value[i]) ==> storage_chars(value)[i] == '_',
{
}

/// All `_` at the start go, and nothing else does.
pub proof fn leading_is_cut_off(s: Seq<char>) -> (n: int)
    ensures
        0 <= n <= s.len(),
        without_leading(s) == s.skip(n),
        forall|i: int| 0 <= i < n ==> #[trigger] s[i] == '_',
        n < s.len() ==> s[n] != '_',
    decreases s.len(),
{
    if s.len() > 0 && s[0] == '_' {
        let rest = s.subrange(1, s.len() as int);
        let n = leading_is_cut_off(rest);
        assert(rest.skip(n) =~= s.skip(n + 1));
        assert forall|i: int| 0 <= i < n + 1 implies #[trigger] s[i] == '_' by {
            if i > 0 {
                assert(rest[i - 1] == s[i]);
            }
        }
        if n + 1 < s.len() {
            assert(rest[n] == s[n + 1]);
        }
        n + 1
    } else {
        assert(s.skip(0) =~= s);
        0
    }
}

/// All `_` at the end go, and nothing else does.
pub proof fn trailing_is_cut_off(s: Seq<char>) -> (n: int)
    ensures
        0 <= n <= s.len(),
        without_trailing(s) == s.take(n),
        forall|i: int| n <= i < s.len() ==> #[trigger] s[i] == '_',
        n > 0 ==> s[n - 1] != '_',
    decreases s.len(),
{
    if s.len() > 0 && s.last() == '_' {
        let n = trailing_is_cut_off(s.drop_last());
        assert(s.drop_last().take(n) =~= s.take(n));
        assert forall|i: int| n <= i < s.len() implies #[trigger] s[i] == '_' by {
            if i < s.len() - 1 {
                assert(s.drop_last()[i] == s[i]);
            }
        }
        n
    } else {
        assert(s.take(s.len() as int) =~= s);
        s.len() as int
    }
}

/// A text that is a name for storage already is kept, and one of which nothing is left is
/// unknown.
pub proof fn names_for_storage_are_kept(value: Seq<char>)
    ensures
        value.len() > 0 && text::all_word(value) && value[0] != '_' && value.last() != '_'
            ==> storage_component(value) == value,
        (forall|i: int| 0 <= i < value.len() ==> !text::ascii_word(#[trigger] value[i]))
            ==> storage_component(value) == "unknown"@,
{
    let chars = storage_chars(value);
    if value.len() > 0 && text::all_word(value) && value[0] != '_' && value.last() != '_' {
        assert forall|i: int| 0 <= i < value.len() implies #[trigger] chars[i] == value[i] by {}
        assert(chars =~= value);
    }
    if forall|i: int| 0 <= i < value.len() ==> !text::ascii_word(#[trigger] value[i]) {
        let n = leading_is_cut_off(chars);
        if n < chars.len() {
            assert(!text::ascii_word(value[n]));
            assert(chars[n] == '_');
        }
        assert(without_leading(chars).len() == 0);
    }
}

/// A character takes up to four bytes, more the higher its number is.
pub proof fn characters_take_their_bytes(c: char)
    ensures
        utf8_len(c) == 1 <==> (c as u32) <= 0x7f,
        utf8_len(c) == 2 <==> 0x80 <= (c as u32) <= 0x7ff,
        utf8_len(c) == 3 <==> 0x800 <= (c as u32) <= 0xffff,
        utf8_len(c) == 4 <==> (c as u32) >= 0x1_0000,
        1 <= utf8_len(c) <= 4,
{
}

/// Texts one after the other take up the bytes of both, and a character its own.
pub proof fn text_takes_the_bytes_of_its_characters(first: Seq<char>, c: char)
    ensures
        utf8_size(first.push(c)) == utf8_size(first) + utf8_len(c),
        utf8_size(Seq::empty()) == 0,
{
    assert(first.push(c).drop_last() =~= first);
}

/// The start of a text by bytes is the start by characters that takes up as many, or the
/// whole text where no start does.
pub proof fn byte_prefix_takes_its_bytes(r: Seq<char>, s: Seq<char>, n: nat)
    requires
        is_byte_prefix(r, s, n),
    ensures
        r == s.take(r.len() as int),
        utf8_size(r) == n || r == s,
{
    assert(s.take(s.len() as int) =~= s);
}

/// A team's logs are kept in its own directory below that of the submissions.
pub proof fn logs_are_kept_below_the_team(team_id: Seq<char>)
    ensures
        logs_dir(team_id) == ".submissions"@ + "/"@ + storage_component(team_id) + "/"@ + "logs"@,
{
}

/// What was put out is shown without the whitespace around it, standard output first, and
/// nothing is shown where there was nothing.
pub proof fn outputs_are_joined(stdout: Seq<char>, stderr: Seq<char>)
    ensures
        ({
            let out = text::trimmed(stdout);
            let err = text::trimmed(stderr);
            &&& joined_outputs(stdout, stderr) is None <==> out.len() == 0 && err.len() == 0
            &&& out.len() > 0 && err.len() == 0 ==> joined_outputs(stdout, stderr) == Some(out)
            &&& out.len() == 0 && err.len() > 0 ==> joined_outputs(stdout, stderr) == Some(err)
            &&& out.len() > 0 && err.len() > 0 ==> joined_outputs(stdout, stderr) == Some(
                out + "\n"@ + err,
            )
        }),
{
}

/// Of what was put out the last four thousand characters are shown, behind three dots where
/// there are more.
pub proof fn log_tail_is_the_end(stdout: Seq<char>, stderr: Seq<char>)
    ensures
        (log_tail(stdout, stderr) is Some) == (joined_outputs(stdout, stderr) is Some),
        joined_outputs(stdout, stderr) matches Some(all) ==> {
            &&& all.len() <= 4_000 ==> log_tail(stdout, stderr) == Some(all)
            &&& all.len() > 4_000 ==> log_tail(stdout, stderr) == Some(
                "..."@ + all.skip(all.len() - 4_000),
            )
        },
{
    if joined_outputs(stdout, stderr) is Some {
        let all = joined_outputs(stdout, stderr)->Some_0;
        if all.len() > 4_000 {
            assert(text::suffix(all, 4_000) =~= all.skip(all.len() - 4_000));
        }
    }
}

/// A moment is shown as it was written, and is unknown where it could not be.
pub proof fn moments_are_shown_as_written(written: Option<Seq<char>>)
    ensures
        written matches Some(shown) ==> shown_moment(written) == shown,
        written is None ==> shown_moment(written) == "unknown"@,
{
}

} // verus!
