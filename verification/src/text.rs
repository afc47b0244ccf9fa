//! Strings as sequences of characters: trimming, decimal numerals, joining and
//! the order of strings.

use vstd::prelude::*;

verus! {

/// The character has the Unicode property `White_Space`.
pub open spec fn char_is_whitespace(c: char) -> bool {
    let n = c as u32;
    ||| 0x09 <= n <= 0x0d
    ||| n == 0x20 || n == 0x85 || n == 0xa0 || n == 0x1680
    ||| 0x2000 <= n <= 0x200a
    ||| n == 0x2028 || n == 0x2029 || n == 0x202f || n == 0x205f || n == 0x3000
}

fn is_whitespace(c: char) -> (b: bool)
    ensures
        b == char_is_whitespace(c),
{
    let n: u32 = c as u32;
    (0x09 <= n && n <= 0x0d) || n == 0x20 || n == 0x85 || n == 0xa0 || n == 0x1680 || (0x2000 <= n
        && n <= 0x200a) || n == 0x2028 || n == 0x2029 || n == 0x202f || n == 0x205f || n == 0x3000
}

/// `String::push` appends one character to the end of the string.
pub assume_specification[ String::push ](s: &mut String, c: char)
    ensures
        final(s)@ == old(s)@.push(c),
;

/// The text of bytes that should be UTF-8; what is not stands there as replacement
/// characters.
pub uninterp spec fn lossy_text(bytes: Seq<u8>) -> Seq<char>;

/// Wraps `String::from_utf8_lossy`, which decodes UTF-8. Which replacement characters it
/// puts in for other bytes is left unsaid.
#[verifier::external_body]
pub(crate) fn decode_lossy(bytes: &Vec<u8>) -> (r: String)
    ensures
        r@ == lossy_text(bytes@),
        vstd::utf8::valid_utf8(bytes@) ==> r@ == vstd::utf8::decode_utf8(bytes@),
{
    String::from_utf8_lossy(bytes).into_owned()
}

/// Two string slices are equal when they hold the same characters.
pub(crate) fn str_eq(a: &str, b: &str) -> (r: bool)
    ensures
        r == (a@ == b@),
{
    let left: String = a.to_owned();
    let right: String = b.to_owned();
    left == right
}

/// `s` without its leading whitespace.
pub open spec fn trimmed_start(s: Seq<char>) -> Seq<char>
    decreases s.len(),
{
    if s.len() > 0 && char_is_whitespace(s[0]) {
        trimmed_start(s.subrange(1, s.len() as int))
    } else {
        s
    }
}

/// `s` without its trailing whitespace.
pub open spec fn trimmed_end(s: Seq<char>) -> Seq<char>
    decreases s.len(),
{
    if s.len() > 0 && char_is_whitespace(s.last()) {
        trimmed_end(s.drop_last())
    } else {
        s
    }
}

/// `s` without leading and trailing whitespace.
pub open spec fn trimmed(s: Seq<char>) -> Seq<char> {
    trimmed_end(trimmed_start(s))
}

/// Whether nothing but whitespace is in `s`.
pub open spec fn is_blank(s: Seq<char>) -> bool {
    forall|i: int| 0 <= i < s.len() ==> #[trigger] char_is_whitespace(s[i])
}

/// The characters of `s`, in order.
pub fn chars_of(s: &str) -> (v: Vec<char>)
    ensures
        v@ == s@,
{
    let mut v: Vec<char> = Vec::new();
    let n: usize = s.unicode_len();
    let mut it = s.chars();
    let mut i: usize = 0;
    while i < n
        invariant
            i <= n,
            n == s@.len(),
            v@ == s@.subrange(0, i as int),
            vstd::std_specs::iter::IteratorSpec::remaining(&it) == s@.subrange(i as int, n as int),
        decreases n - i,
    {
        match it.next() {
            Some(c) => {
                proof {
                    assert(s@.subrange(0, i as int).push(c) =~= s@.subrange(0, i + 1));
                    assert(s@.subrange(i as int, n as int).drop_first() =~= s@.subrange(
                        i + 1,
                        n as int,
                    ));
                }
                v.push(c);
            },
            None => {},
        }
        i += 1;
    }
    proof {
        assert(s@.subrange(0, n as int) =~= s@);
    }
    v
}

/// The string that holds the characters `v[from..to]`.
pub fn string_of_range(v: &Vec<char>, from: usize, to: usize) -> (s: String)
    requires
        from <= to <= v@.len(),
    ensures
        s@ == v@.subrange(from as int, to as int),
{
    let mut s: String = String::new();
    let mut i: usize = from;
    while i < to
        invariant
            from <= i <= to <= v@.len(),
            s@ == v@.subrange(from as int, i as int),
        decreases to - i,
    {
        s.push(v[i]);
        proof {
            assert(v@.subrange(from as int, i as int).push(v@[i as int]) =~= v@.subrange(
                from as int,
                i + 1,
            ));
        }
        i += 1;
    }
    s
}

proof fn lemma_trimmed_start_step(s: Seq<char>, i: int)
    requires
        0 <= i < s.len(),
        char_is_whitespace(s[i]),
    ensures
        trimmed_start(s.subrange(i, s.len() as int)) == trimmed_start(
            s.subrange(i + 1, s.len() as int),
        ),
{
    let t = s.subrange(i, s.len() as int);
    assert(t.subrange(1, t.len() as int) =~= s.subrange(i + 1, s.len() as int));
}

/// `s` without leading and trailing whitespace, as `str::trim` gives it.
pub fn trim(s: &str) -> (r: String)
    ensures
        r@ == trimmed(s@),
{
    let v: Vec<char> = chars_of(s);
    let n: usize = v.len();
    let mut from: usize = 0;
    proof {
        assert(v@.subrange(0, n as int) =~= v@);
    }
    while from < n && is_whitespace(v[from])
        invariant
            from <= n,
            n == v@.len(),
            trimmed_start(v@) == trimmed_start(v@.subrange(from as int, n as int)),
        decreases n - from,
    {
        proof {
            lemma_trimmed_start_step(v@, from as int);
        }
        from += 1;
    }
    let mut to: usize = n;
    let ghost start = v@.subrange(from as int, n as int);
    while from < to && is_whitespace(v[to - 1])
        invariant
            from <= to <= n,
            n == v@.len(),
            trimmed_end(start) == trimmed_end(v@.subrange(from as int, to as int)),
        decreases to,
    {
        proof {
            assert(v@.subrange(from as int, to as int).drop_last() =~= v@.subrange(
                from as int,
                to - 1,
            ));
        }
        to -= 1;
    }
    string_of_range(&v, from, to)
}

/// Trimming a string that is empty or whitespace leaves nothing, and only that.
pub proof fn trimmed_is_empty_iff_blank(s: Seq<char>)
    ensures
        trimmed(s).len() == 0 <==> is_blank(s),
{
    lemma_trimmed_start_blank(s);
    lemma_trimmed_end_keeps(trimmed_start(s));
}

proof fn lemma_trimmed_start_blank(s: Seq<char>)
    ensures
        is_blank(s) ==> trimmed_start(s).len() == 0,
        !is_blank(s) ==> trimmed_start(s).len() > 0 && !char_is_whitespace(trimmed_start(s)[0]),
    decreases s.len(),
{
    if s.len() > 0 && char_is_whitespace(s[0]) {
        let t = s.subrange(1, s.len() as int);
        lemma_trimmed_start_blank(t);
        if is_blank(t) {
            assert forall|i: int| 0 <= i < s.len() implies #[trigger] char_is_whitespace(s[i]) by {
                if i > 0 {
                    assert(char_is_whitespace(t[i - 1]));
                }
            }
        } else {
            let k = choose|k: int| 0 <= k < t.len() && !#[trigger] char_is_whitespace(t[k]);
            assert(!char_is_whitespace(s[k + 1]));
        }
    }
}

proof fn lemma_trimmed_end_keeps(s: Seq<char>)
    requires
        s.len() > 0 ==> !char_is_whitespace(s[0]),
    ensures
        s.len() > 0 ==> trimmed_end(s).len() > 0,
        s.len() == 0 ==> trimmed_end(s).len() == 0,
    decreases s.len(),
{
    if s.len() > 0 && char_is_whitespace(s.last()) {
        lemma_trimmed_end_keeps(s.drop_last());
    }
}

proof fn lemma_trimmed_end_ends(s: Seq<char>)
    ensures
        trimmed_end(s).len() > 0 ==> !char_is_whitespace(trimmed_end(s).last()) && s.len() > 0
            && trimmed_end(s)[0] == s[0],
    decreases s.len(),
{
    if s.len() > 0 && char_is_whitespace(s.last()) {
        lemma_trimmed_end_ends(s.drop_last());
    }
}

/// Trimming what was trimmed changes nothing.
pub proof fn trimming_is_idempotent(s: Seq<char>)
    ensures
        trimmed(trimmed(s)) == trimmed(s),
{
    lemma_trimmed_start_blank(s);
    lemma_trimmed_end_ends(trimmed_start(s));
}

/// The decimal digit of `d`.
pub open spec fn digit(d: nat) -> char
    recommends
        d < 10,
{
    (48 + d) as char
}

/// The decimal numeral of `n`, without leading zeros.
pub open spec fn decimal(n: nat) -> Seq<char>
    decreases n,
{
    if n < 10 {
        seq![digit(n)]
    } else {
        decimal(n / 10).push(digit(n % 10))
    }
}

/// The decimal numeral of `n`, with a minus sign in front of a negative number.
pub open spec fn signed_decimal(n: int) -> Seq<char> {
    if n < 0 {
        seq!['-'] + decimal((-n) as nat)
    } else {
        decimal(n as nat)
    }
}

fn digit_char(d: u8) -> (c: char)
    requires
        d < 10,
    ensures
        c == digit(d as nat),
{
    (48 + d) as char
}

/// Appends the decimal numeral of `n`.
pub fn push_decimal(out: &mut String, n: u128)
    ensures
        final(out)@ == old(out)@ + decimal(n as nat),
    decreases n,
{
    if n >= 10 {
        push_decimal(out, n / 10);
    }
    let last: u8 = (n % 10) as u8;
    out.push(digit_char(last));
    proof {
        if n >= 10 {
            assert(old(out)@ + decimal((n / 10) as nat).push(digit((n % 10) as nat)) =~= (old(out)@
                + decimal((n / 10) as nat)).push(digit((n % 10) as nat)));
        } else {
            assert(old(out)@ + seq![digit(n as nat)] =~= old(out)@.push(digit(n as nat)));
        }
    }
}

/// Appends the decimal numeral of `n`, with its sign where it is negative.
pub fn push_signed_decimal(out: &mut String, n: i64)
    ensures
        final(out)@ == old(out)@ + signed_decimal(n as int),
{
    if n < 0 {
        out.push('-');
        let magnitude: u128 = (-(n as i128)) as u128;
        push_decimal(out, magnitude);
        proof {
            assert(old(out)@.push('-') + decimal((-n) as nat) =~= old(out)@ + (seq!['-']
                + decimal((-n) as nat)));
        }
    } else {
        push_decimal(out, n as u128);
    }
}

/// `[A-Za-z0-9]`.
pub open spec fn ascii_alphanumeric(c: char) -> bool {
    ('0' <= c && c <= '9') || ('a' <= c && c <= 'z') || ('A' <= c && c <= 'Z')
}

pub fn is_ascii_alphanumeric(c: char) -> (b: bool)
    ensures
        b == ascii_alphanumeric(c),
{
    ('0' <= c && c <= '9') || ('a' <= c && c <= 'z') || ('A' <= c && c <= 'Z')
}

/// `[A-Za-z0-9_-]`.
pub open spec fn ascii_word(c: char) -> bool {
    ascii_alphanumeric(c) || c == '-' || c == '_'
}

pub fn is_ascii_word(c: char) -> (b: bool)
    ensures
        b == ascii_word(c),
{
    is_ascii_alphanumeric(c) || c == '-' || c == '_'
}

/// Every character of `s` is in `[A-Za-z0-9]`.
pub open spec fn all_alphanumeric(s: Seq<char>) -> bool {
    forall|i: int| 0 <= i < s.len() ==> ascii_alphanumeric(#[trigger] s[i])
}

/// Every character of `s` is in `[A-Za-z0-9_-]`.
pub open spec fn all_word(s: Seq<char>) -> bool {
    forall|i: int| 0 <= i < s.len() ==> ascii_word(#[trigger] s[i])
}

pub fn is_all_alphanumeric(s: &str) -> (b: bool)
    ensures
        b == all_alphanumeric(s@),
{
    let v: Vec<char> = chars_of(s);
    let mut i: usize = 0;
    while i < v.len()
        invariant
            i <= v@.len(),
            v@ == s@,
            forall|j: int| 0 <= j < i ==> ascii_alphanumeric(#[trigger] v@[j]),
        decreases v@.len() - i,
    {
        if !is_ascii_alphanumeric(v[i]) {
            return false;
        }
        i += 1;
    }
    true
}

pub fn is_all_word(s: &str) -> (b: bool)
    ensures
        b == all_word(s@),
{
    let v: Vec<char> = chars_of(s);
    let mut i: usize = 0;
    while i < v.len()
        invariant
            i <= v@.len(),
            v@ == s@,
            forall|j: int| 0 <= j < i ==> ascii_word(#[trigger] v@[j]),
        decreases v@.len() - i,
    {
        if !is_ascii_word(v[i]) {
            return false;
        }
        i += 1;
    }
    true
}

/// The first `n` characters of `s`, or all of it where it is shorter.
pub open spec fn prefix(s: Seq<char>, n: nat) -> Seq<char> {
    if s.len() <= n {
        s
    } else {
        s.subrange(0, n as int)
    }
}

/// The last `n` characters of `s`, or all of it where it is shorter.
pub open spec fn suffix(s: Seq<char>, n: nat) -> Seq<char> {
    if s.len() <= n {
        s
    } else {
        s.subrange(s.len() - n, s.len() as int)
    }
}

pub fn take_prefix(s: &str, n: usize) -> (r: String)
    ensures
        r@ == prefix(s@, n as nat),
{
    let len: usize = s.unicode_len();
    if len <= n {
        s.to_owned()
    } else {
        s.substring_char(0, n).to_owned()
    }
}

pub fn take_suffix(s: &str, n: usize) -> (r: String)
    ensures
        r@ == suffix(s@, n as nat),
{
    let len: usize = s.unicode_len();
    if len <= n {
        s.to_owned()
    } else {
        s.substring_char(len - n, len).to_owned()
    }
}

/// `a` followed by `b`.
pub fn join2(a: &str, b: &str) -> (r: String)
    ensures
        r@ == a@ + b@,
{
    let mut r: String = a.to_owned();
    r.append(b);
    r
}

/// `a`, `b` and `c`, one after the other.
pub fn join3(a: &str, b: &str, c: &str) -> (r: String)
    ensures
        r@ == a@ + b@ + c@,
{
    let mut r: String = a.to_owned();
    r.append(b);
    r.append(c);
    r
}

/// The path of `name` under `root`: a slash is put between them where `root` is neither
/// empty nor ends in one, and an absolute `name` stands for itself.
pub open spec fn joined_path(root: Seq<char>, name: Seq<char>) -> Seq<char> {
    if name.len() > 0 && name[0] == '/' {
        name
    } else if root.len() == 0 || root.last() == '/' {
        root + name
    } else {
        root + "/"@ + name
    }
}

pub fn join_path(root: &str, name: &str) -> (r: String)
    ensures
        r@ == joined_path(root@, name@),
{
    if name.unicode_len() > 0 && name.get_char(0) == '/' {
        return name.to_owned();
    }
    let len: usize = root.unicode_len();
    if len == 0 || root.get_char(len - 1) == '/' {
        return join2(root, name);
    }
    join3(root, "/", name)
}

/// Whether `s` ends in `tail`.
pub open spec fn ends_with(s: Seq<char>, tail: Seq<char>) -> bool {
    s.len() >= tail.len() && s.subrange(s.len() - tail.len(), s.len() as int) == tail
}

pub fn has_suffix(s: &str, tail: &str) -> (r: bool)
    ensures
        r == ends_with(s@, tail@),
{
    let len: usize = s.unicode_len();
    let tail_len: usize = tail.unicode_len();
    if len < tail_len {
        return false;
    }
    str_eq(s.substring_char(len - tail_len, len), tail)
}

/// The text without its last `n` characters.
pub fn without_last(s: &str, n: usize) -> (r: String)
    requires
        n <= s@.len(),
    ensures
        r@ == s@.take(s@.len() - n),
{
    let len: usize = s.unicode_len();
    s.substring_char(0, len - n).to_owned()
}

/// Whether `a` comes before `b`, character by character, a proper prefix first.
pub open spec fn text_before(a: Seq<char>, b: Seq<char>) -> bool
    decreases a.len(),
{
    if b.len() == 0 {
        false
    } else if a.len() == 0 {
        true
    } else if a[0] != b[0] {
        a[0] < b[0]
    } else {
        text_before(a.subrange(1, a.len() as int), b.subrange(1, b.len() as int))
    }
}

/// Whether `a` comes before `b` in the order of strings.
pub fn is_text_before(a: &str, b: &str) -> (r: bool)
    ensures
        r == text_before(a@, b@),
{
    let u: Vec<char> = chars_of(a);
    let v: Vec<char> = chars_of(b);
    let mut i: usize = 0;
    proof {
        assert(u@.subrange(0, u@.len() as int) =~= u@);
        assert(v@.subrange(0, v@.len() as int) =~= v@);
    }
    while i < u.len() && i < v.len()
        invariant
            u@ == a@,
            v@ == b@,
            i <= u@.len(),
            i <= v@.len(),
            text_before(a@, b@) == text_before(
                u@.subrange(i as int, u@.len() as int),
                v@.subrange(i as int, v@.len() as int),
            ),
        decreases u@.len() - i,
    {
        if u[i] != v[i] {
            return u[i] < v[i];
        }
        proof {
            let s = u@.subrange(i as int, u@.len() as int);
            let t = v@.subrange(i as int, v@.len() as int);
            assert(s.subrange(1, s.len() as int) =~= u@.subrange(i + 1, u@.len() as int));
            assert(t.subrange(1, t.len() as int) =~= v@.subrange(i + 1, v@.len() as int));
        }
        i += 1;
    }
    i < v.len()
}

/// The order of strings is total and antisymmetric.
pub proof fn text_order_is_total(a: Seq<char>, b: Seq<char>)
    ensures
        !(text_before(a, b) && text_before(b, a)),
        text_before(a, b) || text_before(b, a) || a == b,
        !text_before(a, a),
    decreases a.len(),
{
    if a.len() > 0 {
        let ta = a.subrange(1, a.len() as int);
        if b.len() > 0 {
            let tb = b.subrange(1, b.len() as int);
            text_order_is_total(ta, tb);
            if a[0] == b[0] && ta == tb {
                assert(a =~= seq![a[0]] + ta);
                assert(b =~= seq![b[0]] + tb);
            }
        } else {
            text_order_is_total(ta, ta);
        }
    } else if b.len() == 0 {
        assert(a =~= b);
    }
}

/// The order of strings is transitive.
pub proof fn text_order_is_transitive(a: Seq<char>, b: Seq<char>, c: Seq<char>)
    requires
        text_before(a, b),
        text_before(b, c),
    ensures
        text_before(a, c),
    decreases a.len(),
{
    if a.len() > 0 && a[0] == b[0] && b[0] == c[0] {
        text_order_is_transitive(
            a.subrange(1, a.len() as int),
            b.subrange(1, b.len() as int),
            c.subrange(1, c.len() as int),
        );
    }
}

/// The value of a decimal digit.
pub open spec fn digit_value(c: char) -> Option<nat> {
    if '0' <= c && c <= '9' {
        Some((c as nat - 48) as nat)
    } else {
        None
    }
}

/// The number that a row of decimal digits stands for; nothing where another
/// character is in it.
pub open spec fn digits_value(s: Seq<char>) -> Option<nat>
    decreases s.len(),
{
    if s.len() == 0 {
        Some(0nat)
    } else {
        match (digits_value(s.drop_last()), digit_value(s.last())) {
            (Some(head), Some(last)) => Some(head * 10 + last),
            _ => None,
        }
    }
}

/// The unsigned number of a string: digits, behind a plus sign or none.
pub open spec fn unsigned_value(s: Seq<char>) -> Option<nat> {
    let digits = if s.len() > 0 && s[0] == '+' {
        s.subrange(1, s.len() as int)
    } else {
        s
    };
    if digits.len() == 0 {
        None
    } else {
        digits_value(digits)
    }
}

proof fn lemma_digits_value_grows(s: Seq<char>, n: int)
    requires
        0 <= n <= s.len(),
        digits_value(s) is Some,
    ensures
        digits_value(s.subrange(0, n)) is Some,
        digits_value(s.subrange(0, n))->Some_0 <= digits_value(s)->Some_0,
    decreases s.len() - n,
{
    if n == s.len() {
        assert(s.subrange(0, n) =~= s);
    } else {
        lemma_digits_value_grows(s, n + 1);
        let longer = s.subrange(0, n + 1);
        assert(longer.drop_last() =~= s.subrange(0, n));
    }
}

/// Reads an unsigned 64-bit number, as `u64::from_str` does.
pub fn parse_u64(s: &str) -> (r: Option<u64>)
    ensures
        match r {
            Some(v) => unsigned_value(s@) == Some(v as nat),
            None => unsigned_value(s@) is None || unsigned_value(s@)->Some_0 > u64::MAX,
        },
{
    let v: Vec<char> = chars_of(s);
    let mut from: usize = 0;
    if v.len() > 0 && v[0] == '+' {
        from = 1;
    }
    let ghost digits = v@.subrange(from as int, v@.len() as int);
    proof {
        assert(from == 0 ==> digits =~= s@);
        assert(digits.subrange(0, 0) =~= Seq::empty());
        assert(digits.subrange(0, digits.len() as int) =~= digits);
    }
    if from == v.len() {
        return None;
    }
    let mut value: u64 = 0;
    let mut i: usize = from;
    while i < v.len()
        invariant
            from <= i <= v@.len(),
            from < v@.len(),
            from == 0 || from == 1,
            v@ == s@,
            from == 1 <==> s@.len() > 0 && s@[0] == '+',
            digits == v@.subrange(from as int, v@.len() as int),
            digits_value(digits.subrange(0, i - from)) == Some(value as nat),
        decreases v@.len() - i,
    {
        let c: char = v[i];
        let ghost longer = digits.subrange(0, i - from + 1);
        proof {
            assert(from == 0 ==> digits =~= s@);
            assert(longer.drop_last() =~= digits.subrange(0, i - from));
            assert(longer.last() == c);
            if digits_value(digits) is Some {
                lemma_digits_value_grows(digits, i - from + 1);
            }
        }
        if !('0' <= c && c <= '9') {
            return None;
        }
        let d: u64 = (c as u32 - 48) as u64;
        if value > (u64::MAX - d) / 10 {
            proof {
                assert(value * 10 + d > u64::MAX);
            }
            return None;
        }
        value = value * 10 + d;
        i += 1;
    }
    proof {
        assert(from == 0 ==> digits =~= s@);
        assert(digits.subrange(0, digits.len() as int) =~= digits);
    }
    Some(value)
}

/// The views of texts.
pub open spec fn text_views(v: Seq<String>) -> Seq<Seq<char>> {
    Seq::new(v.len(), |i: int| v[i]@)
}

/// The pieces of a text between the separators: one more than there are separators.
pub open spec fn split_on(s: Seq<char>, sep: char) -> Seq<Seq<char>>
    decreases s.len(),
{
    if s.len() == 0 {
        seq![Seq::<char>::empty()]
    } else {
        let rest = split_on(s.drop_last(), sep);
        if s.last() == sep {
            rest.push(Seq::empty())
        } else {
            rest.drop_last().push(rest.last().push(s.last()))
        }
    }
}

/// Splits a text at every separator.
pub fn split(s: &str, sep: char) -> (r: Vec<String>)
    ensures
        text_views(r@) == split_on(s@, sep),
        r@.len() >= 1,
{
    let chars: Vec<char> = chars_of(s);
    let mut r: Vec<String> = Vec::new();
    let mut current: String = String::new();
    let mut i: usize = 0;
    proof {
        assert(text_views(r@).push(current@) =~= seq![Seq::<char>::empty()]);
        assert(chars@.take(0) =~= Seq::<char>::empty());
    }
    while i < chars.len()
        invariant
            i <= chars@.len(),
            text_views(r@).push(current@) == split_on(chars@.take(i as int), sep),
        decreases chars@.len() - i,
    {
        let ghost before = text_views(r@).push(current@);
        let c: char = chars[i];
        proof {
            assert(chars@.take(i + 1).drop_last() =~= chars@.take(i as int));
            assert(before.drop_last() =~= text_views(r@));
        }
        if c == sep {
            let mut piece: String = String::new();
            std::mem::swap(&mut piece, &mut current);
            r.push(piece);
            proof {
                assert(text_views(r@) =~= before);
            }
        } else {
            current.push(c);
        }
        i += 1;
    }
    proof {
        assert(chars@.take(i as int) =~= s@);
    }
    let ghost before = text_views(r@).push(current@);
    r.push(current);
    proof {
        assert(text_views(r@) =~= before);
    }
    r
}

proof fn lemma_split_has_pieces(s: Seq<char>, sep: char)
    ensures
        split_on(s, sep).len() >= 1,
        !split_on(s, sep).last().contains(sep),
    decreases s.len(),
{
    if s.len() > 0 {
        lemma_split_has_pieces(s.drop_last(), sep);
        let rest = split_on(s.drop_last(), sep);
        if s.last() != sep {
            let piece = rest.last().push(s.last());
            assert forall|i: int| 0 <= i < piece.len() implies piece[i] != sep by {
                if i < rest.last().len() {
                    assert(rest.last().contains(rest.last()[i]));
                }
            }
        }
    }
}

proof fn lemma_split_without_separator(s: Seq<char>, sep: char)
    requires
        !s.contains(sep),
    ensures
        split_on(s, sep) == seq![s],
    decreases s.len(),
{
    if s.len() > 0 {
        assert(s.contains(s.last()));
        assert forall|i: int| 0 <= i < s.drop_last().len() implies s.drop_last()[i] != sep by {
            assert(s.contains(s[i]));
        }
        lemma_split_without_separator(s.drop_last(), sep);
        assert(s.drop_last().push(s.last()) =~= s);
        assert(split_on(s, sep) =~= seq![s]);
    } else {
        assert(s =~= Seq::<char>::empty());
    }
}

/// A text can be split in two steps: what stands after the last separator of the
/// first part goes on with the second part.
pub proof fn split_continues(a: Seq<char>, b: Seq<char>, sep: char)
    ensures
        split_on(a, sep).len() >= 1,
        split_on(a + b, sep) == split_on(a, sep).drop_last() + split_on(
            split_on(a, sep).last() + b,
            sep,
        ),
    decreases b.len(),
{
    lemma_split_has_pieces(a, sep);
    let head = split_on(a, sep).drop_last();
    let open = split_on(a, sep).last();
    if b.len() == 0 {
        assert(a + b =~= a);
        assert(open + b =~= open);
        lemma_split_without_separator(open, sep);
        assert(head + seq![open] =~= split_on(a, sep));
    } else {
        let c = b.last();
        split_continues(a, b.drop_last(), sep);
        assert((a + b).drop_last() =~= a + b.drop_last());
        assert((open + b).drop_last() =~= open + b.drop_last());
        let whole = split_on(a + b.drop_last(), sep);
        let tail = split_on(open + b.drop_last(), sep);
        lemma_split_has_pieces(open + b.drop_last(), sep);
        assert(whole == head + tail);
        assert((a + b).last() == c);
        assert((open + b).last() == c);
        assert(whole.last() == tail.last());
        if c == sep {
            assert(whole.push(Seq::empty()) =~= head + tail.push(Seq::empty()));
        } else {
            assert(whole.drop_last().push(whole.last().push(c)) =~= head + tail.drop_last().push(
                tail.last().push(c),
            ));
        }
    }
}

/// The characters are the same but for the case of an ASCII letter.
pub open spec fn same_letter(a: char, b: char) -> bool {
    ||| a == b
    ||| 'A' <= a <= 'Z' && b as int == a as int + 32
    ||| 'A' <= b <= 'Z' && a as int == b as int + 32
}

/// The texts are the same but for the case of ASCII letters.
pub open spec fn same_letters(a: Seq<char>, b: Seq<char>) -> bool {
    a.len() == b.len() && forall|i: int| 0 <= i < a.len() ==> same_letter(#[trigger] a[i], b[i])
}

pub fn is_same_but_for_case(a: &str, b: &str) -> (r: bool)
    ensures
        r == same_letters(a@, b@),
{
    let v: Vec<char> = chars_of(a);
    let w: Vec<char> = chars_of(b);
    if v.len() != w.len() {
        return false;
    }
    let mut i: usize = 0;
    while i < v.len()
        invariant
            i <= v@.len(),
            v@.len() == w@.len(),
            v@ == a@,
            w@ == b@,
            forall|j: int| 0 <= j < i ==> same_letter(#[trigger] v@[j], w@[j]),
        decreases v@.len() - i,
    {
        let x: char = v[i];
        let y: char = w[i];
        let same: bool = x == y || ('A' <= x && x <= 'Z' && 'a' <= y && y <= 'z' && y as u32
            == x as u32 + 32) || ('A' <= y && y <= 'Z' && 'a' <= x && x <= 'z' && x as u32
            == y as u32 + 32);
        if !same {
            return false;
        }
        i += 1;
    }
    true
}

/// These characters are whitespace, and no others are.
pub proof fn whitespace_is_listed(c: char)
    ensures
        char_is_whitespace(c) <==> {
            ||| c == '\t' || c == '\n' || c == '\r' || c == ' '
            ||| (c as u32) == 11 || (c as u32) == 12 || (c as u32) == 0x85 || (c as u32) == 0xa0
            ||| (c as u32) == 0x1680
            ||| 0x2000 <= (c as u32) <= 0x200a
            ||| (c as u32) == 0x2028 || (c as u32) == 0x2029
            ||| (c as u32) == 0x202f || (c as u32) == 0x205f || (c as u32) == 0x3000
        },
{
}

proof fn lemma_start_is_cut_off(s: Seq<char>) -> (n: int)
    ensures
        0 <= n <= s.len(),
        trimmed_start(s) == s.skip(n),
        forall|i: int| 0 <= i < n ==> char_is_whitespace(#[trigger] s[i]),
        n < s.len() ==> !char_is_whitespace(s[n]),
    decreases s.len(),
{
    if s.len() > 0 && char_is_whitespace(s[0]) {
        let rest = s.subrange(1, s.len() as int);
        let n = lemma_start_is_cut_off(rest);
        assert(rest.skip(n) =~= s.skip(n + 1));
        assert forall|i: int| 0 <= i < n + 1 implies char_is_whitespace(#[trigger] s[i]) by {
            if i > 0 {
                assert(rest[i - 1] == s[i]);
            }
        }
        if n + 1 < s.len() {
            assert(rest[n] == s[n + 1]);
        }
        n + 1
    } else {
        assert(s.skip(0) =~= s);
        0
    }
}

proof fn lemma_end_is_cut_off(s: Seq<char>) -> (n: int)
    ensures
        0 <= n <= s.len(),
        trimmed_end(s) == s.take(n),
        forall|i: int| n <= i < s.len() ==> char_is_whitespace(#[trigger] s[i]),
        n > 0 ==> !char_is_whitespace(s[n - 1]),
    decreases s.len(),
{
    if s.len() > 0 && char_is_whitespace(s.last()) {
        let n = lemma_end_is_cut_off(s.drop_last());
        assert(s.drop_last().take(n) =~= s.take(n));
        assert forall|i: int| n <= i < s.len() implies char_is_whitespace(#[trigger] s[i]) by {
            if i < s.len() - 1 {
                assert(s.drop_last()[i] == s[i]);
            }
        }
        n
    } else {
        assert(s.take(s.len() as int) =~= s);
        s.len() as int
    }
}

/// Trimming takes away whitespace at both ends, all of it, and nothing else.
pub proof fn trimming_takes_whitespace_alone(s: Seq<char>) -> (r: (int, int))
    ensures
        0 <= r.0 <= r.1 <= s.len(),
        trimmed(s) == s.subrange(r.0, r.1),
        forall|i: int| 0 <= i < r.0 ==> char_is_whitespace(#[trigger] s[i]),
        forall|i: int| r.1 <= i < s.len() ==> char_is_whitespace(#[trigger] s[i]),
        r.0 < r.1 ==> !char_is_whitespace(s[r.0]) && !char_is_whitespace(s[r.1 - 1]),
{
    let from = lemma_start_is_cut_off(s);
    let rest = s.skip(from);
    let n = lemma_end_is_cut_off(rest);
    assert(rest.take(n) =~= s.subrange(from, from + n));
    assert forall|i: int| from + n <= i < s.len() implies char_is_whitespace(
        #[trigger] s[i],
    ) by {
        assert(rest[i - from] == s[i]);
    }
    if n > 0 {
        assert(rest[n - 1] == s[from + n - 1]);
    }
    (from, from + n)
}

/// A digit stands for its value, and the value of a numeral is ten times that of its start
/// and the last digit on top.
pub proof fn digits_have_their_values(d: nat, s: Seq<char>, c: char)
    requires
        d < 10,
    ensures
        digit_value(digit(d)) == Some(d),
        digit_value(c) is Some <==> 48 <= (c as u32) <= 57,
        digit_value(c) matches Some(value) ==> value == (c as u32) - 48,
        digits_value(s) is Some && digit_value(c) is Some ==> digits_value(s.push(c)) == Some(
            digits_value(s)->Some_0 * 10 + digit_value(c)->Some_0,
        ),
        digits_value(s.push(c)) is Some ==> digits_value(s) is Some && digit_value(c) is Some,
{
    assert(s.push(c).drop_last() =~= s);
}

/// The numeral of a number is read back as that number. It has no sign, and a leading zero
/// only where it is zero.
pub proof fn numerals_are_read_back(n: nat)
    ensures
        decimal(n).len() > 0,
        digits_value(decimal(n)) == Some(n),
        n > 0 ==> decimal(n)[0] != '0',
        unsigned_value(decimal(n)) == Some(n),
    decreases n,
{
    if n < 10 {
        let s = seq![digit(n)];
        assert(s.drop_last() =~= Seq::empty());
        assert(s.last() == digit(n));
        reveal_with_fuel(digits_value, 2);
    } else {
        numerals_are_read_back(n / 10);
        let head = decimal(n / 10);
        let last = digit(n % 10);
        digits_have_their_values(n % 10, head, last);
        assert(decimal(n) == head.push(last));
        assert(decimal(n)[0] == head[0]);
    }
    let s = decimal(n);
    assert(s[0] != '+') by {
        if n < 10 {
        } else {
            lemma_numeral_starts_with_a_digit(n);
        }
    }
}

proof fn lemma_numeral_starts_with_a_digit(n: nat)
    ensures
        decimal(n).len() > 0,
        48 <= (decimal(n)[0] as u32) <= 57,
    decreases n,
{
    if n >= 10 {
        lemma_numeral_starts_with_a_digit(n / 10);
        assert(decimal(n)[0] == decimal(n / 10)[0]);
    }
}

/// A minus stands in front of the numeral of a negative number, and of no other.
pub proof fn only_negative_numbers_have_a_minus(n: int)
    ensures
        n >= 0 ==> signed_decimal(n) == decimal(n as nat) && signed_decimal(n)[0] != '-',
        n < 0 ==> signed_decimal(n)[0] == '-' && signed_decimal(n).skip(1) == decimal((-n) as nat),
{
    if n >= 0 {
        lemma_numeral_starts_with_a_digit(n as nat);
    } else {
        assert(signed_decimal(n).skip(1) =~= decimal((-n) as nat));
    }
}

/// A number may stand behind one plus sign; without a digit there is none, and whatever
/// else stands in the text leaves none.
pub proof fn only_digits_make_a_number(s: Seq<char>, i: int)
    ensures
        unsigned_value(seq!['+'] + s) == if s.len() == 0 {
            None
        } else {
            digits_value(s)
        },
        unsigned_value(Seq::empty()) is None,
        s.len() > 0 && s[0] != '+' ==> unsigned_value(s) == digits_value(s),
        0 <= i < s.len() && digit_value(s[i]) is None ==> digits_value(s) is None,
    decreases s.len(),
{
    assert((seq!['+'] + s).subrange(1, (1 + s.len()) as int) =~= s);
    if 0 <= i < s.len() - 1 && digit_value(s[i]) is None {
        only_digits_make_a_number(s.drop_last(), i);
    }
}

/// The alphanumeric characters are the ASCII digits and letters; a word may hold `-` and `_`
/// too.
pub proof fn letters_and_digits_are_ascii(c: char)
    ensures
        ascii_alphanumeric(c) <==> 48 <= (c as u32) <= 57 || 65 <= (c as u32) <= 90 || 97 <= (
        c as u32) <= 122,
        ascii_word(c) <==> ascii_alphanumeric(c) || (c as u32) == 45 || (c as u32) == 95,
{
}

/// A text is alphanumeric, or a word, exactly where each of its characters is.
pub proof fn every_character_counts(s: Seq<char>)
    ensures
        all_alphanumeric(s) <==> forall|i: int|
            #![trigger s[i]]
            0 <= i < s.len() ==> ascii_alphanumeric(s[i]),
        all_word(s) <==> forall|i: int| #![trigger s[i]] 0 <= i < s.len() ==> ascii_word(s[i]),
        is_blank(s) <==> forall|i: int|
            #![trigger s[i]]
            0 <= i < s.len() ==> char_is_whitespace(s[i]),
{
    if forall|i: int| #![trigger s[i]] 0 <= i < s.len() ==> char_is_whitespace(s[i]) {
        assert forall|i: int| 0 <= i < s.len() implies #[trigger] char_is_whitespace(s[i]) by {}
    }
}

/// The start and the end of a text are as long as was asked for, or are the whole of a text
/// that is shorter.
pub proof fn starts_and_ends_are_taken(s: Seq<char>, n: nat)
    ensures
        n <= s.len() ==> prefix(s, n) == s.take(n as int),
        n <= s.len() ==> suffix(s, n) == s.skip(s.len() - n),
        n > s.len() ==> prefix(s, n) == s && suffix(s, n) == s,
{
    if n <= s.len() {
        assert(prefix(s, n) =~= s.take(n as int));
        assert(suffix(s, n) =~= s.skip(s.len() - n));
    }
}

/// A relative name goes under the root, behind exactly one slash; an absolute one stands for
/// itself, and without a root the name is the path.
pub proof fn paths_are_joined_by_a_slash(root: Seq<char>, name: Seq<char>)
    ensures
        name.len() > 0 && name[0] == '/' ==> joined_path(root, name) == name,
        !(name.len() > 0 && name[0] == '/') && root.len() == 0 ==> joined_path(root, name) == name,
        !(name.len() > 0 && name[0] == '/') && root.len() > 0 && root.last() == '/'
            ==> joined_path(root, name) == root + name,
        !(name.len() > 0 && name[0] == '/') && root.len() > 0 && root.last() != '/'
            ==> joined_path(root, name) == root + seq!['/'] + name,
{
    reveal_strlit("/");
    assert("/"@ =~= seq!['/']);
    if root.len() == 0 {
        assert(root + name =~= name);
    }
}

/// A text ends in another exactly where it is made of something and the other.
pub proof fn text_ends_in_its_tail(head: Seq<char>, s: Seq<char>, tail: Seq<char>)
    ensures
        ends_with(head + tail, tail),
        ends_with(s, tail) ==> s == s.take(s.len() - tail.len()) + tail,
{
    assert((head + tail).subrange(head.len() as int, (head + tail).len() as int) =~= tail);
    if ends_with(s, tail) {
        assert(s =~= s.take(s.len() - tail.len()) + tail);
    }
}

/// The first character in which two texts differ decides which comes first; of a text and
/// one that it is the start of, the shorter comes first.
pub proof fn first_difference_decides(a: Seq<char>, b: Seq<char>, k: int)
    requires
        0 <= k <= a.len(),
        k <= b.len(),
        a.take(k) == b.take(k),
    ensures
        k < a.len() && k < b.len() && a[k] < b[k] ==> text_before(a, b),
        k < a.len() && k < b.len() && a[k] > b[k] ==> !text_before(a, b),
        k == a.len() && k < b.len() ==> text_before(a, b),
        k == b.len() ==> !text_before(a, b),
    decreases k,
{
    if k > 0 {
        assert(a[0] == a.take(k)[0]);
        assert(b[0] == b.take(k)[0]);
        let u = a.subrange(1, a.len() as int);
        let v = b.subrange(1, b.len() as int);
        assert(u.take(k - 1) =~= a.take(k).subrange(1, k));
        assert(v.take(k - 1) =~= b.take(k).subrange(1, k));
        first_difference_decides(u, v, k - 1);
    }
}

/// A separator ends a piece, any other character goes on with the last one, and a text
/// without a separator is one piece.
pub proof fn separators_end_pieces(s: Seq<char>, c: char, sep: char)
    ensures
        split_on(s.push(sep), sep) == split_on(s, sep).push(Seq::empty()),
        c != sep ==> split_on(s.push(c), sep).len() == split_on(s, sep).len()
            && split_on(s.push(c), sep).last() == split_on(s, sep).last().push(c)
            && split_on(s.push(c), sep).drop_last() == split_on(s, sep).drop_last(),
        !s.contains(sep) ==> split_on(s, sep) == seq![s],
        !split_on(s, sep).last().contains(sep),
{
    lemma_split_has_pieces(s, sep);
    assert(s.push(sep).drop_last() =~= s);
    assert(s.push(c).drop_last() =~= s);
    if c != sep {
        let rest = split_on(s, sep);
        let grown = rest.drop_last().push(rest.last().push(c));
        assert(grown.drop_last() =~= rest.drop_last());
    }
    if !s.contains(sep) {
        lemma_split_without_separator(s, sep);
    }
}

/// Letters are the same where they differ in nothing but the case of an ASCII letter, which
/// is thirty-two numbers apart; whichever of the two comes first.
pub proof fn only_case_may_differ(a: char, b: char)
    ensures
        same_letter(a, a),
        same_letter(a, b) == same_letter(b, a),
        same_letter(a, b) && a < b ==> 65 <= (a as u32) <= 90 && (b as u32) == (a as u32) + 32,
        65 <= (a as u32) <= 90 && (b as u32) == (a as u32) + 32 ==> same_letter(a, b),
        same_letters(seq![a], seq![b]) == same_letter(a, b),
{
    if same_letters(seq![a], seq![b]) {
        assert(same_letter(seq![a][0], seq![b][0]));
    }
}

/// Texts are the same but for case only where they are equally long and each letter is.
pub proof fn texts_same_but_for_case(a: Seq<char>, b: Seq<char>, i: int)
    requires
        same_letters(a, b),
        0 <= i < a.len(),
    ensures
        a.len() == b.len(),
        same_letter(a[i], b[i]),
        same_letters(b, a),
{
    assert forall|k: int| 0 <= k < b.len() implies same_letter(#[trigger] b[k], a[k]) by {
        assert(same_letter(a[k], b[k]));
    }
}

/// Texts are viewed one by one, in their order.
pub proof fn texts_are_viewed_in_order(v: Seq<String>, i: int)
    ensures
        text_views(v).len() == v.len(),
        0 <= i < v.len() ==> text_views(v)[i] == v[i]@,
{
}

} // verus!
