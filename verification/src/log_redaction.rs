//! Secrets in the logs of bots: they are found and masked before anybody sees them.

use vstd::prelude::*;
use crate::text;

verus! {

/// A key that names a secret, `=` or `:`, and the secret.
pub const KEY_VALUE_PATTERN: &'static str = r"(?ix)
            (?P<prefix>
              (?P<key>
                \b
                [A-Z0-9_.-]*
                (?:TOKEN|SECRET|PASSWORD|API_KEY|AUTH|COOKIE|KEY)
                [A-Z0-9_.-]*
                \b
              )
              \s*(?:=|:)\s*
            )
            (?P<value>[^\s,;)\]}]+)
            ";

/// `Bearer` and the token behind it.
pub const BEARER_PATTERN: &'static str = r"(?i)(?P<prefix>\bBearer\s+)(?P<value>[^\s,;)\]}]+)";

/// Three parts joined by dots, as in a signed token.
pub const JWT_PATTERN: &'static str =
    r"(?P<value>\b[A-Za-z0-9_-]{5,}\.[A-Za-z0-9_-]{5,}\.[A-Za-z0-9_-]{5,}\b)";

/// One of the patterns by which secrets are found.
pub open spec fn is_secret_pattern(pattern: Seq<char>) -> bool {
    pattern == KEY_VALUE_PATTERN@ || pattern == BEARER_PATTERN@ || pattern == JWT_PATTERN@
}

/// Where a pattern finds secrets in a text: of each, in characters, where the match
/// starts, where the key in it ends, where the secret starts, and where both end.
pub uninterp spec fn secret_spans(pattern: Seq<char>, text: Seq<char>) -> Seq<
    (usize, usize, usize, usize),
>;

/// The spans lie in a text of the length, one behind the other, each with its key in
/// front of its secret.
pub open spec fn spans_in_order(spans: Seq<(usize, usize, usize, usize)>, len: nat) -> bool {
    &&& forall|i: int|
        0 <= i < spans.len() ==> (#[trigger] spans[i]).0 <= spans[i].1 <= spans[i].2 < spans[i].3
            <= len
    &&& forall|i: int, j: int|
        #![trigger spans[i], spans[j]]
        0 <= i < j < spans.len() ==> spans[i].3 <= spans[j].0
}

/// Wraps `regex::Regex::captures_iter` with one of the patterns above, all of which
/// `Regex::new` accepts: the successive matches, which do not overlap. In each of the
/// patterns the secret is the group `value`, which is not empty and ends the match,
/// and the group `key`, where there is one, starts it. Byte positions are given as
/// counts of characters; a match without a key has it end where the match starts.
#[verifier::external_body]
fn find_secrets(pattern: &str, text: &str) -> (r: Vec<(usize, usize, usize, usize)>)
    requires
        is_secret_pattern(pattern@),
    ensures
        r@ == secret_spans(pattern@, text@),
        spans_in_order(r@, text@.len()),
{
    let regex = regex::Regex::new(pattern).expect("invalid log redaction regex");
    let chars_before = |byte: usize| text[..byte].chars().count();
    regex.captures_iter(text).map(|caps| {
        let whole = caps.get(0).map(|m| (m.start(), m.end())).unwrap_or_default();
        let key_end: usize = caps.name("key").map_or(whole.0, |m| m.end());
        let value: usize = caps.name("value").map_or(whole.0, |m| m.start());
        (chars_before(whole.0), chars_before(key_end), chars_before(value), chars_before(whole.1))
    }).collect()
}

/// Three stars stand at the position.
pub open spec fn stars_at(s: Seq<char>, i: int) -> bool {
    0 <= i && i + 3 <= s.len() && s[i] == '*' && s[i + 1] == '*' && s[i + 2] == '*'
}

/// Three stars stand somewhere: something is masked already.
pub open spec fn has_stars(s: Seq<char>) -> bool {
    exists|i: int| #[trigger] stars_at(s, i)
}

fn holds_stars(s: &str) -> (r: bool)
    ensures
        r == has_stars(s@),
{
    let v: Vec<char> = text::chars_of(s);
    if v.len() < 3 {
        return false;
    }
    let mut i: usize = 0;
    while i <= v.len() - 3
        invariant
            v@ == s@,
            v@.len() >= 3,
            i <= v@.len() - 2,
            forall|j: int| 0 <= j < i ==> !#[trigger] stars_at(s@, j),
        decreases v@.len() - i,
    {
        if v[i] == '*' && v[i + 1] == '*' && v[i + 2] == '*' {
            proof {
                assert(stars_at(s@, i as int));
            }
            return true;
        }
        i += 1;
    }
    false
}

/// The value stands between two quotes of the same kind.
pub open spec fn is_quoted(value: Seq<char>) -> bool {
    value.len() >= 2 && ((value[0] == '"' && value.last() == '"') || (value[0] == '\''
        && value.last() == '\''))
}

/// What stands between the quotes, or all of it.
pub open spec fn core_of(value: Seq<char>) -> Seq<char> {
    if is_quoted(value) {
        value.subrange(1, value.len() - 1)
    } else {
        value
    }
}

/// The quote on either side, or nothing.
pub open spec fn quote_of(value: Seq<char>) -> Seq<char> {
    if is_quoted(value) {
        seq![value[0]]
    } else {
        Seq::empty()
    }
}

/// The opening quote, what stands between the quotes, and the closing quote; without
/// quotes all of the value stands in the middle.
pub fn split_wrapping_quotes(value: &str) -> (r: (&str, &str, &str))
    ensures
        r.0@ == quote_of(value@),
        r.1@ == core_of(value@),
        r.2@ == quote_of(value@),
{
    let len: usize = value.unicode_len();
    proof {
        reveal_strlit("");
    }
    if len < 2 {
        return ("", value, "");
    }
    let first: char = value.get_char(0);
    let last: char = value.get_char(len - 1);
    if (first == '"' && last == '"') || (first == '\'' && last == '\'') {
        let opening: &str = value.substring_char(0, 1);
        let closing: &str = value.substring_char(len - 1, len);
        proof {
            assert(opening@ =~= quote_of(value@));
            assert(closing@ =~= quote_of(value@));
        }
        (opening, value.substring_char(1, len - 1), closing)
    } else {
        ("", value, "")
    }
}

/// How many characters are left at either end of a secret of the length.
pub open spec fn left_in_sight(len: nat) -> nat {
    if len <= 2 {
        0
    } else if len <= 7 {
        1
    } else {
        2
    }
}

/// A secret with three stars in place of its middle.
pub open spec fn masked_core(core: Seq<char>) -> Seq<char> {
    let n = left_in_sight(core.len());
    core.take(n as int) + seq!['*', '*', '*'] + core.skip(core.len() - n)
}

/// The value is nothing to mask: there is nothing in it, or it is masked already.
pub open spec fn is_harmless(value: Seq<char>) -> bool {
    has_stars(value) || core_of(value).len() == 0
}

/// A value with its secret masked, within its quotes.
pub open spec fn masked_value(value: Seq<char>) -> Seq<char> {
    if is_harmless(value) {
        value
    } else {
        quote_of(value) + masked_core(core_of(value)) + quote_of(value)
    }
}

proof fn lemma_core_has_no_more_stars(value: Seq<char>)
    ensures
        has_stars(core_of(value)) ==> has_stars(value),
        value.len() == 0 ==> core_of(value).len() == 0,
{
    if has_stars(core_of(value)) && is_quoted(value) {
        let i = choose|i: int| #[trigger] stars_at(core_of(value), i);
        assert(stars_at(value, i + 1));
    }
}

/// Masks a secret.
pub fn mask_secret_value(raw_value: &str) -> (r: String)
    ensures
        r@ == masked_value(raw_value@),
{
    proof {
        lemma_core_has_no_more_stars(raw_value@);
    }
    if raw_value.is_empty() || holds_stars(raw_value) {
        return raw_value.to_owned();
    }
    let (prefix, core, suffix) = split_wrapping_quotes(raw_value);
    if core.is_empty() || holds_stars(core) {
        return raw_value.to_owned();
    }
    let len: usize = core.unicode_len();
    let n: usize = if len <= 2 {
        0
    } else if len <= 7 {
        1
    } else {
        2
    };
    let mut masked: String = prefix.to_owned();
    masked.append(core.substring_char(0, n));
    masked.append("***");
    masked.append(core.substring_char(len - n, len));
    masked.append(suffix);
    proof {
        reveal_strlit("***");
        assert("***"@ =~= seq!['*', '*', '*']);
        assert(masked@ =~= masked_value(raw_value@));
    }
    masked
}

/// A value that was masked shows three stars in place of its secret and at most nine
/// characters.
pub proof fn masked_value_is_short(value: Seq<char>)
    requires
        !is_harmless(value),
    ensures
        has_stars(masked_value(value)),
        masked_value(value).len() <= 9,
{
    let n = left_in_sight(core_of(value).len());
    let masked = masked_value(value);
    let q = quote_of(value);
    assert(stars_at(masked, (q.len() + n) as int));
}

/// Masking what was masked changes nothing.
pub proof fn masking_is_idempotent(value: Seq<char>)
    ensures
        masked_value(masked_value(value)) == masked_value(value),
{
    if !is_harmless(value) {
        masked_value_is_short(value);
    }
}

/// What is shown of a secret depends on its quotes and on the characters left in
/// sight at its ends, and on nothing between them.
pub proof fn mask_shows_only_the_ends(a: Seq<char>, b: Seq<char>)
    requires
        !is_harmless(a),
        !is_harmless(b),
        quote_of(a) == quote_of(b),
        left_in_sight(core_of(a).len()) == left_in_sight(core_of(b).len()),
        forall|i: int|
            0 <= i < left_in_sight(core_of(a).len()) ==> #[trigger] core_of(a)[i] == core_of(b)[i]
                && core_of(a)[core_of(a).len() - 1 - i] == core_of(b)[core_of(b).len() - 1 - i],
    ensures
        masked_value(a) == masked_value(b),
{
    let n = left_in_sight(core_of(a).len()) as int;
    let x = core_of(a);
    let y = core_of(b);
    assert(x.take(n) =~= y.take(n));
    let s = x.skip(x.len() - n);
    let t = y.skip(y.len() - n);
    assert forall|i: int| 0 <= i < n implies #[trigger] s[i] == t[i] by {
        assert(x[n - 1 - i] == y[n - 1 - i]);
    }
    assert(s =~= t);
}

/// What stands in place of a match: what is in front of the secret, and the secret
/// masked. The word `Bearer` behind `Authorization` is no secret.
pub open spec fn replacement(text: Seq<char>, span: (usize, usize, usize, usize)) -> Seq<char> {
    let prefix = text.subrange(span.0 as int, span.2 as int);
    let key = text.subrange(span.0 as int, span.1 as int);
    let value = text.subrange(span.2 as int, span.3 as int);
    if text::same_letters(key, "authorization"@) && text::same_letters(value, "bearer"@) {
        prefix + value
    } else {
        prefix + masked_value(value)
    }
}

/// The text from `from` on, with every match replaced.
pub open spec fn replaced(
    text: Seq<char>,
    spans: Seq<(usize, usize, usize, usize)>,
    from: int,
) -> Seq<char>
    decreases spans.len(),
{
    if spans.len() == 0 {
        text.subrange(from, text.len() as int)
    } else {
        text.subrange(from, spans[0].0 as int) + replacement(text, spans[0]) + replaced(
            text,
            spans.drop_first(),
            spans[0].3 as int,
        )
    }
}

/// Masks the secrets at the spans.
pub fn replace_secrets(line: &str, spans: &Vec<(usize, usize, usize, usize)>) -> (r: String)
    requires
        spans_in_order(spans@, line@.len()),
    ensures
        r@ == replaced(line@, spans@, 0),
{
    let len: usize = line.unicode_len();
    let mut out: String = "".to_owned();
    let mut from: usize = 0;
    let mut n: usize = 0;
    proof {
        reveal_strlit("");
        assert(spans@.skip(0) =~= spans@);
        assert(out@ + replaced(line@, spans@, 0) =~= replaced(line@, spans@, 0));
    }
    while n < spans.len()
        invariant
            n <= spans@.len(),
            len == line@.len(),
            from <= len,
            spans_in_order(spans@, line@.len()),
            n < spans@.len() ==> from <= spans@[n as int].0,
            out@ + replaced(line@, spans@.skip(n as int), from as int) == replaced(
                line@,
                spans@,
                0,
            ),
        decreases spans@.len() - n,
    {
        let span: (usize, usize, usize, usize) = spans[n];
        let ghost before = out@;
        let prefix: &str = line.substring_char(span.0, span.2);
        let key: &str = line.substring_char(span.0, span.1);
        let value: &str = line.substring_char(span.2, span.3);
        out.append(line.substring_char(from, span.0));
        out.append(prefix);
        if text::is_same_but_for_case(key, "authorization") && text::is_same_but_for_case(
            value,
            "bearer",
        ) {
            out.append(value);
        } else {
            let masked: String = mask_secret_value(value);
            out.append(masked.as_str());
        }
        proof {
            let rest = spans@.skip(n as int);
            assert(rest[0] == span);
            assert(rest.drop_first() =~= spans@.skip(n + 1));
            assert(out@ =~= before + line@.subrange(from as int, span.0 as int) + replacement(
                line@,
                span,
            ));
            assert(out@ + replaced(line@, spans@.skip(n + 1), span.3 as int) =~= before + replaced(
                line@,
                rest,
                from as int,
            ));
            if n + 1 < spans@.len() {
                assert(spans@[n as int].3 <= spans@[n + 1].0);
            }
        }
        from = span.3;
        n += 1;
    }
    out.append(line.substring_char(from, len));
    out
}

/// The line with the secrets masked that the pattern finds in it.
pub open spec fn redacted_by(pattern: Seq<char>, line: Seq<char>) -> Seq<char> {
    replaced(line, secret_spans(pattern, line), 0)
}

/// The line with its secrets masked: values of keys first, then bearer tokens, then
/// signed tokens that stand alone.
pub open spec fn redacted(line: Seq<char>) -> Seq<char> {
    redacted_by(
        JWT_PATTERN@,
        redacted_by(BEARER_PATTERN@, redacted_by(KEY_VALUE_PATTERN@, line)),
    )
}

/// Masks the secrets of a line.
pub fn redact_log_line(line: &str) -> (r: String)
    ensures
        r@ == redacted(line@),
{
    let keys: String = replace_secrets(line, &find_secrets(KEY_VALUE_PATTERN, line));
    let bearers: String = replace_secrets(
        keys.as_str(),
        &find_secrets(BEARER_PATTERN, keys.as_str()),
    );
    replace_secrets(bearers.as_str(), &find_secrets(JWT_PATTERN, bearers.as_str()))
}

/// A text is masked already exactly where three stars stand in it one after the other.
pub proof fn three_stars_are_a_mask(s: Seq<char>, i: int)
    ensures
        0 <= i && i + 2 < s.len() && s[i] == '*' && s[i + 1] == '*' && s[i + 2] == '*'
            ==> has_stars(s),
        stars_at(s, i) ==> 0 <= i && i + 2 < s.len() && s[i] == '*' && s[i + 1] == '*' && s[i + 2]
            == '*',
{
    assert(0 <= i && i + 2 < s.len() && s[i] == '*' && s[i + 1] == '*' && s[i + 2] == '*'
        ==> stars_at(s, i));
}

/// A value is made of a quote, what stands in it, and the quote again; only two equal quotes
/// at its ends are taken for quotes.
pub proof fn values_are_taken_out_of_their_quotes(value: Seq<char>)
    ensures
        value == quote_of(value) + core_of(value) + quote_of(value),
        quote_of(value).len() == 1 <==> value.len() >= 2 && value[0] == value.last() && (value[0]
            == '"' || value[0] == '\''),
        quote_of(value).len() <= 1,
{
    assert(value =~= quote_of(value) + core_of(value) + quote_of(value));
}

/// Of a secret of up to two characters nothing is left in sight, of one with up to seven the
/// first and the last character, and of a longer one the first two and the last two.
pub proof fn ends_of_a_secret_stay_in_sight(core: Seq<char>)
    ensures
        core.len() <= 2 ==> masked_core(core) == seq!['*', '*', '*'],
        3 <= core.len() <= 7 ==> masked_core(core) == seq![
            core[0],
            '*',
            '*',
            '*',
            core[core.len() - 1],
        ],
        core.len() >= 8 ==> masked_core(core) == seq![
            core[0],
            core[1],
            '*',
            '*',
            '*',
            core[core.len() - 2],
            core[core.len() - 1],
        ],
{
    let n = core.len() as int;
    if n <= 2 {
        assert(masked_core(core) =~= seq!['*', '*', '*']);
    } else if n <= 7 {
        assert(masked_core(core) =~= seq![core[0], '*', '*', '*', core[n - 1]]);
    } else {
        assert(masked_core(core) =~= seq![
            core[0],
            core[1],
            '*',
            '*',
            '*',
            core[n - 2],
            core[n - 1],
        ]);
    }
}

/// Every secret is masked within its quotes; a value stays only where nothing stands in its
/// quotes or it is masked already.
pub proof fn secrets_are_masked_within_their_quotes(value: Seq<char>)
    ensures
        is_harmless(value) <==> has_stars(value) || core_of(value).len() == 0,
        is_harmless(value) ==> masked_value(value) == value,
        !is_harmless(value) ==> masked_value(value) == quote_of(value) + masked_core(
            core_of(value),
        ) + quote_of(value),
{
}

/// What is in front of a secret stays, and the secret is masked, unless it is the word
/// `Bearer` behind `Authorization`, in any case.
pub proof fn only_the_bearer_word_stays(text: Seq<char>, span: (usize, usize, usize, usize))
    requires
        span.0 <= span.1 <= span.2 < span.3 <= text.len(),
    ensures
        ({
            let key = text.subrange(span.0 as int, span.1 as int);
            let value = text.subrange(span.2 as int, span.3 as int);
            let in_front = text.subrange(span.0 as int, span.2 as int);
            let stays = text::same_letters(key, "authorization"@) && text::same_letters(
                value,
                "bearer"@,
            );
            &&& stays ==> replacement(text, span) == text.subrange(span.0 as int, span.3 as int)
            &&& !stays ==> replacement(text, span) == in_front + masked_value(value)
        }),
{
    assert(text.subrange(span.0 as int, span.2 as int) + text.subrange(
        span.2 as int,
        span.3 as int,
    ) =~= text.subrange(span.0 as int, span.3 as int));
}

/// Nothing but matches is replaced: a text without any stays, and what stands in front of the
/// first match stays, followed by its replacement and the rest.
pub proof fn only_matches_are_replaced(
    text: Seq<char>,
    spans: Seq<(usize, usize, usize, usize)>,
    from: int,
)
    requires
        0 <= from <= text.len(),
    ensures
        spans.len() == 0 ==> replaced(text, spans, from) == text.skip(from),
        spans.len() == 0 && from == 0 ==> replaced(text, spans, from) == text,
        spans.len() > 0 ==> replaced(text, spans, from) == text.subrange(from, spans[0].0 as int)
            + replacement(text, spans[0]) + replaced(text, spans.skip(1), spans[0].3 as int),
{
    if spans.len() == 0 {
        assert(text.subrange(from, text.len() as int) =~= text.skip(from));
        assert(text.skip(0) =~= text);
    } else {
        assert(spans.drop_first() =~= spans.skip(1));
    }
}

/// A line is redacted by the values of keys first, by bearer tokens in what that leaves, and by
/// signed tokens in what is left then.
pub proof fn lines_are_redacted_in_three_steps(line: Seq<char>, keyed: Seq<char>, borne: Seq<char>)
    requires
        keyed == replaced(line, secret_spans(KEY_VALUE_PATTERN@, line), 0),
        borne == replaced(keyed, secret_spans(BEARER_PATTERN@, keyed), 0),
    ensures
        redacted(line) == replaced(borne, secret_spans(JWT_PATTERN@, borne), 0),
{
}

} // verus!
