//! Character-level helpers shared by the rest of the library: whitespace,
//! trimming, ASCII case, decimal rendering and substring search, each with
//! the specification the callers reason with.

use vstd::prelude::*;

verus! {

/// Unicode `White_Space`, the property `char::is_whitespace` tests.
pub open spec fn is_space(c: char) -> bool {
    let u = c as u32;
    ||| 0x09 <= u <= 0x0d
    ||| u == 0x20
    ||| u == 0x85
    ||| u == 0xa0
    ||| u == 0x1680
    ||| 0x2000 <= u <= 0x200a
    ||| u == 0x2028
    ||| u == 0x2029
    ||| u == 0x202f
    ||| u == 0x205f
    ||| u == 0x3000
}

/// Whether `c` is whitespace in the Unicode sense.
pub fn is_whitespace(c: char) -> (b: bool)
    ensures
        b == is_space(c),
{
    let u = c as u32;
    (0x09 <= u && u <= 0x0d) || u == 0x20 || u == 0x85 || u == 0xa0 || u == 0x1680 || (0x2000
        <= u && u <= 0x200a) || u == 0x2028 || u == 0x2029 || u == 0x202f || u == 0x205f || u
        == 0x3000
}

/// ASCII lower case of one character; everything else is unchanged.
pub open spec fn lower(c: char) -> char {
    if 'A' <= c && c <= 'Z' {
        ((c as u32) + 32) as char
    } else {
        c
    }
}

/// ASCII lower case of a whole sequence.
pub open spec fn lower_seq(s: Seq<char>) -> Seq<char> {
    Seq::new(s.len(), |i: int| lower(s[i]))
}

/// `char::to_ascii_lowercase`.
pub fn ascii_lower(c: char) -> (r: char)
    ensures
        r == lower(c),
{
    if 'A' <= c && c <= 'Z' {
        let b = (c as u8) + 32;
        assert(b as u32 == (c as u32) + 32);
        b as char
    } else {
        c
    }
}

/// The decimal digit character for `d < 10`.
pub open spec fn digit(d: nat) -> char {
    ((d + 48) as u32) as char
}

/// `n` written in decimal, without sign or leading zeros.
pub open spec fn decimal(n: nat) -> Seq<char>
    decreases n,
{
    if n < 10 {
        seq![digit(n)]
    } else {
        decimal(n / 10).push(digit(n % 10))
    }
}

/// A decimal rendering is never empty and holds only digits.
pub proof fn lemma_decimal_digits(n: nat)
    ensures
        decimal(n).len() >= 1,
        forall|i: int| 0 <= i < decimal(n).len() ==> '0' <= #[trigger] decimal(n)[i] <= '9',
    decreases n,
{
    if n >= 10 {
        lemma_decimal_digits(n / 10);
    }
}

/// Append one character to a string: `String::push`, trusted to leave the
/// old text followed by `c`.
#[verifier::external_body]
pub(crate) fn push_char(s: &mut String, c: char)
    ensures
        final(s)@ == old(s)@.push(c),
{
    s.push(c);
}

/// Append the decimal rendering of `n`.
pub fn push_decimal(s: &mut String, n: u64)
    ensures
        final(s)@ == old(s)@ + decimal(n as nat),
    decreases n,
{
    if n >= 10 {
        push_decimal(s, n / 10);
    }
    let d = (n % 10) as u8;
    let c = (d + 48) as char;
    assert(c == digit((n % 10) as nat));
    push_char(s, c);
    proof {
        if n < 10 {
            assert(decimal(n as nat) =~= seq![digit(n as nat)]);
        }
    }
}

/// A new string holding the decimal rendering of `n`.
pub fn decimal_string(n: u64) -> (s: String)
    ensures
        s@ == decimal(n as nat),
{
    let mut s = String::new();
    push_decimal(&mut s, n);
    assert(s@ =~= decimal(n as nat));
    s
}

/// Append every character of `v`.
pub fn push_chars(s: &mut String, v: &[char])
    ensures
        final(s)@ == old(s)@ + v@,
{
    let ghost start = s@;
    let mut i: usize = 0;
    while i < v.len()
        invariant
            0 <= i <= v@.len(),
            s@ == start + v@.subrange(0, i as int),
        decreases v@.len() - i,
    {
        push_char(s, v[i]);
        i += 1;
        assert(s@ =~= start + v@.subrange(0, i as int));
    }
    assert(v@.subrange(0, v@.len() as int) =~= v@);
}

/// A string made of the characters of `v`.
pub fn string_of(v: &[char]) -> (s: String)
    ensures
        s@ == v@,
{
    let mut s = String::new();
    push_chars(&mut s, v);
    assert(s@ =~= v@);
    s
}

/// The characters of a string slice, in order.
pub fn chars_of(s: &str) -> (v: Vec<char>)
    ensures
        v@ == s@,
{
    let mut v: Vec<char> = Vec::new();
    for c in it: s.chars()
        invariant
            v@ == it.seq().take(it.index() as int),
            it.seq() == s@,
    {
        v.push(c);
    }
    v
}

/// Number of leading whitespace characters.
pub open spec fn leading_spaces(s: Seq<char>) -> nat
    decreases s.len(),
{
    if s.len() > 0 && is_space(s[0]) {
        1 + leading_spaces(s.drop_first())
    } else {
        0
    }
}

/// Number of trailing whitespace characters.
pub open spec fn trailing_spaces(s: Seq<char>) -> nat
    decreases s.len(),
{
    if s.len() > 0 && is_space(s.last()) {
        1 + trailing_spaces(s.drop_last())
    } else {
        0
    }
}

/// `s` without leading whitespace (`str::trim_start`).
pub open spec fn trim_start(s: Seq<char>) -> Seq<char> {
    s.subrange(leading_spaces(s) as int, s.len() as int)
}

/// `s` without trailing whitespace (`str::trim_end`).
pub open spec fn trim_end(s: Seq<char>) -> Seq<char> {
    s.subrange(0, s.len() - trailing_spaces(s))
}

/// `s` without leading or trailing whitespace (`str::trim`).
pub open spec fn trim(s: Seq<char>) -> Seq<char> {
    trim_end(trim_start(s))
}

/// True when `s` is empty or all whitespace.
pub open spec fn is_blank(s: Seq<char>) -> bool {
    forall|i: int| 0 <= i < s.len() ==> is_space(#[trigger] s[i])
}

pub proof fn lemma_leading_spaces(s: Seq<char>, n: int)
    requires
        0 <= n <= s.len(),
        forall|k: int| 0 <= k < n ==> is_space(#[trigger] s[k]),
        n == s.len() || !is_space(s[n]),
    ensures
        leading_spaces(s) == n,
    decreases n,
{
    if n > 0 {
        let t = s.drop_first();
        assert forall|k: int| 0 <= k < n - 1 implies is_space(#[trigger] t[k]) by {
            assert(t[k] == s[k + 1]);
        }
        if n - 1 < t.len() {
            assert(t[n - 1] == s[n]);
        }
        lemma_leading_spaces(t, n - 1);
    }
}

pub proof fn lemma_trailing_spaces(s: Seq<char>, m: int)
    requires
        0 <= m <= s.len(),
        forall|k: int| m <= k < s.len() ==> is_space(#[trigger] s[k]),
        m == 0 || !is_space(s[m - 1]),
    ensures
        trailing_spaces(s) == s.len() - m,
    decreases s.len() - m,
{
    if m < s.len() {
        let t = s.drop_last();
        assert forall|k: int| m <= k < t.len() implies is_space(#[trigger] t[k]) by {
            assert(t[k] == s[k]);
        }
        if m > 0 {
            assert(t[m - 1] == s[m - 1]);
        }
        lemma_trailing_spaces(t, m);
    }
}

/// Bounds `(start, end)` of `trim(v)` inside `v`.
pub fn trim_bounds(v: &[char]) -> (r: (usize, usize))
    ensures
        r.0 <= r.1 <= v@.len(),
        v@.subrange(r.0 as int, r.1 as int) == trim(v@),
        r.0 == r.1 <==> is_blank(v@),
{
    let mut start: usize = 0;
    while start < v.len() && is_whitespace(v[start])
        invariant
            0 <= start <= v@.len(),
            forall|k: int| 0 <= k < start ==> is_space(#[trigger] v@[k]),
        decreases v@.len() - start,
    {
        start += 1;
    }
    proof {
        lemma_leading_spaces(v@, start as int);
    }
    let ghost t = trim_start(v@);
    let mut end: usize = v.len();
    while end > start && is_whitespace(v[end - 1])
        invariant
            start <= end <= v@.len(),
            t == v@.subrange(start as int, v@.len() as int),
            forall|k: int| end <= k < v@.len() ==> is_space(#[trigger] v@[k]),
        decreases end,
    {
        end -= 1;
    }
    proof {
        let m = end - start;
        assert forall|k: int| m <= k < t.len() implies is_space(#[trigger] t[k]) by {
            assert(t[k] == v@[k + start]);
        }
        if m > 0 {
            assert(t[m - 1] == v@[end - 1]);
        }
        lemma_trailing_spaces(t, m);
        assert(trim(v@) =~= v@.subrange(start as int, end as int));
        if start == end {
            assert forall|i: int| 0 <= i < v@.len() implies is_space(#[trigger] v@[i]) by {
                if i >= start {
                    assert(end <= i);
                }
            }
        }
        if is_blank(v@) && start < v@.len() {
            assert(is_space(v@[start as int]));
        }
    }
    (start, end)
}

/// `needle` occurs in `hay` at position `i`.
pub open spec fn occurs_at(hay: Seq<char>, needle: Seq<char>, i: int) -> bool {
    0 <= i && i + needle.len() <= hay.len() && hay.subrange(i, i + needle.len()) == needle
}

/// `needle` occurs somewhere in `hay` (`str::contains`).
pub open spec fn contains_seq(hay: Seq<char>, needle: Seq<char>) -> bool {
    exists|i: int| occurs_at(hay, needle, i)
}

/// Whether `needle` matches `hay` at position `i`.
pub fn matches_at(hay: &[char], needle: &[char], i: usize) -> (b: bool)
    ensures
        b == occurs_at(hay@, needle@, i as int),
{
    if i > hay.len() || needle.len() > hay.len() - i {
        return false;
    }
    let mut k: usize = 0;
    while k < needle.len()
        invariant
            i + needle@.len() <= hay@.len(),
            hay@.len() == hay.len(),
            0 <= k <= needle@.len(),
            forall|j: int| 0 <= j < k ==> hay@[i + j] == needle@[j],
        decreases needle@.len() - k,
    {
        if hay[i + k] != needle[k] {
            assert(hay@.subrange(i as int, i + needle@.len())[k as int] != needle@[k as int]);
            return false;
        }
        k += 1;
    }
    assert(hay@.subrange(i as int, i + needle@.len()) =~= needle@);
    true
}

/// Whether `needle` occurs anywhere in `hay`.
pub fn contains_chars(hay: &[char], needle: &[char]) -> (b: bool)
    ensures
        b == contains_seq(hay@, needle@),
{
    let mut i: usize = 0;
    while i < hay.len()
        invariant
            0 <= i <= hay@.len(),
            forall|j: int| 0 <= j < i ==> !occurs_at(hay@, needle@, j),
        decreases hay@.len() - i,
    {
        if matches_at(hay, needle, i) {
            return true;
        }
        i += 1;
    }
    if matches_at(hay, needle, i) {
        return true;
    }
    assert forall|j: int| !occurs_at(hay@, needle@, j) by {
        if occurs_at(hay@, needle@, j) {
            assert(j <= hay@.len());
        }
    }
    false
}

/// `prefix` is a prefix of `s`.
pub open spec fn has_prefix(s: Seq<char>, prefix: Seq<char>) -> bool {
    prefix.len() <= s.len() && s.subrange(0, prefix.len() as int) == prefix
}

/// Whether `s` starts with `prefix`.
pub fn starts_with_chars(s: &[char], prefix: &[char]) -> (b: bool)
    ensures
        b == has_prefix(s@, prefix@),
{
    matches_at(s, prefix, 0)
}

/// Whether the character `c` occurs in `s`.
pub fn contains_char(s: &[char], c: char) -> (b: bool)
    ensures
        b == s@.contains(c),
{
    let mut i: usize = 0;
    while i < s.len()
        invariant
            0 <= i <= s@.len(),
            forall|j: int| 0 <= j < i ==> s@[j] != c,
        decreases s@.len() - i,
    {
        if s[i] == c {
            assert(s@[i as int] == c);
            return true;
        }
        i += 1;
    }
    false
}

/// The slice `v[from..to]` as a new vector.
pub fn sub_chars(v: &[char], from: usize, to: usize) -> (r: Vec<char>)
    requires
        from <= to <= v@.len(),
    ensures
        r@ == v@.subrange(from as int, to as int),
{
    let mut r: Vec<char> = Vec::new();
    let mut i = from;
    while i < to
        invariant
            from <= i <= to <= v@.len(),
            r@ == v@.subrange(from as int, i as int),
        decreases to - i,
    {
        r.push(v[i]);
        i += 1;
        assert(r@ =~= v@.subrange(from as int, i as int));
    }
    r
}

/// `trim(v)` as a new vector.
pub fn trimmed(v: &[char]) -> (r: Vec<char>)
    ensures
        r@ == trim(v@),
{
    let (a, b) = trim_bounds(v);
    sub_chars(v, a, b)
}

/// Whether two character slices are equal.
pub fn chars_eq(a: &[char], b: &[char]) -> (r: bool)
    ensures
        r == (a@ == b@),
{
    if a.len() != b.len() {
        return false;
    }
    let r = matches_at(a, b, 0);
    proof {
        if r {
            assert(a@.subrange(0, b@.len() as int) =~= a@);
        } else {
            if a@ == b@ {
                assert(a@.subrange(0, b@.len() as int) =~= a@);
            }
        }
    }
    r
}

/// Index of the first character of `s` satisfying `p`, or `s.len()`.
pub open spec fn first_where(s: Seq<char>, p: spec_fn(char) -> bool) -> int
    decreases s.len(),
{
    if s.len() == 0 {
        0
    } else if p(s[0]) {
        0
    } else {
        1 + first_where(s.drop_first(), p)
    }
}

pub proof fn lemma_first_where(s: Seq<char>, p: spec_fn(char) -> bool, n: int)
    requires
        0 <= n <= s.len(),
        forall|k: int| 0 <= k < n ==> !p(#[trigger] s[k]),
        n == s.len() || p(s[n]),
    ensures
        first_where(s, p) == n,
    decreases n,
{
    if n > 0 {
        let t = s.drop_first();
        assert forall|k: int| 0 <= k < n - 1 implies !p(#[trigger] t[k]) by {
            assert(t[k] == s[k + 1]);
        }
        if n - 1 < t.len() {
            assert(t[n - 1] == s[n]);
        }
        lemma_first_where(t, p, n - 1);
    }
}

pub proof fn lemma_first_where_bounds(s: Seq<char>, p: spec_fn(char) -> bool)
    ensures
        0 <= first_where(s, p) <= s.len(),
        forall|k: int| 0 <= k < first_where(s, p) ==> !p(#[trigger] s[k]),
        first_where(s, p) < s.len() ==> p(s[first_where(s, p)]),
    decreases s.len(),
{
    if s.len() > 0 && !p(s[0]) {
        let t = s.drop_first();
        lemma_first_where_bounds(t, p);
        assert forall|k: int| 0 <= k < first_where(s, p) implies !p(#[trigger] s[k]) by {
            if k > 0 {
                assert(s[k] == t[k - 1]);
            }
        }
        if first_where(s, p) < s.len() {
            assert(s[first_where(s, p)] == t[first_where(t, p)]);
        }
    }
}

/// The text of some bytes, with invalid UTF-8 sequences replaced by U+FFFD
/// (`String::from_utf8_lossy`).
pub uninterp spec fn utf8_lossy(bytes: Seq<u8>) -> Seq<char>;

/// `String::from_utf8_lossy`, owned. Trusted to give the decoded text for
/// valid UTF-8; for anything else the result is the named `utf8_lossy` of
/// the bytes, whose replacement rules are not restated here.
#[verifier::external_body]
pub(crate) fn lossy_text(bytes: &[u8]) -> (s: String)
    ensures
        s@ == utf8_lossy(bytes@),
        vstd::utf8::valid_utf8(bytes@) ==> s@ == vstd::utf8::decode_utf8(bytes@),
{
    String::from_utf8_lossy(bytes).into_owned()
}

/// ASCII digit.
pub open spec fn is_digit(c: char) -> bool {
    '0' <= c && c <= '9'
}

/// Value of a run of decimal digits.
pub open spec fn digits_value(s: Seq<char>) -> nat
    decreases s.len(),
{
    if s.len() == 0 {
        0
    } else {
        digits_value(s.drop_last()) * 10 + ((s.last() as u32) - 48) as nat
    }
}

/// Every character is an ASCII digit.
pub open spec fn all_digits(s: Seq<char>) -> bool {
    forall|i: int| 0 <= i < s.len() ==> is_digit(#[trigger] s[i])
}

/// `s` without one leading `+`.
pub open spec fn without_plus(s: Seq<char>) -> Seq<char> {
    if s.len() > 0 && s[0] == '+' {
        s.drop_first()
    } else {
        s
    }
}

/// The decimal rendering of a number reads back as that number.
pub proof fn lemma_decimal_value(n: nat)
    ensures
        digits_value(decimal(n)) == n,
        all_digits(decimal(n)),
        decimal(n).len() >= 1,
    decreases n,
{
    lemma_decimal_digits(n);
    let d = n % 10;
    let code: u32 = (d + 48) as u32;
    assert((code as char) as u32 == code);
    assert(digit(d) as u32 - 48 == d);
    assert(decimal(n).last() == digit(d));
    assert(digits_value(decimal(n)) == digits_value(decimal(n).drop_last()) * 10 + d);
    if n >= 10 {
        lemma_decimal_value(n / 10);
        assert(decimal(n).drop_last() =~= decimal(n / 10));
        assert(n == (n / 10) * 10 + d);
    } else {
        assert(decimal(n).drop_last() =~= Seq::<char>::empty());
    }
    assert(all_digits(decimal(n))) by {
        assert forall|i: int| 0 <= i < decimal(n).len() implies is_digit(#[trigger] decimal(n)[i]) by {}
    }
}

/// `str::parse::<u32>`: an optional `+`, then one or more ASCII digits whose
/// value fits in a `u32`.
pub open spec fn parse_u32_spec(s: Seq<char>) -> Option<u32> {
    let body = without_plus(s);
    if body.len() == 0 || !all_digits(body) {
        None
    } else if digits_value(body) > u32::MAX {
        None
    } else {
        Some(digits_value(body) as u32)
    }
}

proof fn lemma_digits_value_grows(s: Seq<char>, i: int, j: int)
    requires
        0 <= i <= j <= s.len(),
        forall|k: int| 0 <= k < s.len() ==> is_digit(#[trigger] s[k]),
    ensures
        digits_value(s.subrange(0, i)) <= digits_value(s.subrange(0, j)),
    decreases j - i,
{
    if i < j {
        lemma_digits_value_grows(s, i, j - 1);
        assert(s.subrange(0, j).drop_last() =~= s.subrange(0, j - 1));
    }
}

/// `str::parse::<u32>` on characters.
pub fn parse_u32(s: &[char]) -> (r: Option<u32>)
    ensures
        r == parse_u32_spec(s@),
{
    let start: usize = if s.len() > 0 && s[0] == '+' {
        1
    } else {
        0
    };
    let ghost body = without_plus(s@);
    assert(body =~= s@.subrange(start as int, s@.len() as int));
    if start == s.len() {
        return None;
    }
    let mut i = start;
    while i < s.len()
        invariant
            start <= i <= s@.len(),
            body =~= s@.subrange(start as int, s@.len() as int),
            body == without_plus(s@),
            forall|k: int| 0 <= k < i - start ==> is_digit(#[trigger] body[k]),
        decreases s@.len() - i,
    {
        if !('0' <= s[i] && s[i] <= '9') {
            assert(body[i - start] == s@[i as int]);
            assert(!is_digit(body[i - start]));
            assert(!all_digits(body));
            assert(body == without_plus(s@));
            assert(parse_u32_spec(s@) is None);
            return None;
        }
        i += 1;
    }
    let mut value: u64 = 0;
    let mut i = start;
    while i < s.len()
        invariant
            start <= i <= s@.len(),
            body =~= s@.subrange(start as int, s@.len() as int),
            body == without_plus(s@),
            forall|k: int| 0 <= k < body.len() ==> is_digit(#[trigger] body[k]),
            value == digits_value(body.subrange(0, i - start)),
            value <= u32::MAX,
        decreases s@.len() - i,
    {
        assert(body[i - start] == s@[i as int]);
        assert(is_digit(body[i - start]));
        let d = (s[i] as u32 - 48) as u64;
        assert(body.subrange(0, i + 1 - start).drop_last() =~= body.subrange(0, i - start));
        value = value * 10 + d;
        i += 1;
        if value > 4294967295 {
            proof {
                lemma_digits_value_grows(body, i - start, body.len() as int);
                assert(body.subrange(0, body.len() as int) =~= body);
                assert(digits_value(body) > u32::MAX);
                assert(parse_u32_spec(s@) is None);
            }
            return None;
        }
    }
    assert(body.subrange(0, body.len() as int) =~= body);
    assert(i - start == body.len());
    Some(value as u32)
}

/// Whether `c` is upper case in the Unicode sense (`char::is_uppercase`).
pub uninterp spec fn is_upper(c: char) -> bool;

/// `char::is_uppercase`, trusted to give the named `is_upper` of `c`, whose
/// Unicode tables are not restated here; among ASCII letters, exactly
/// `'A'..='Z'`.
#[verifier::external_body]
pub(crate) fn is_uppercase(c: char) -> (b: bool)
    ensures
        b == is_upper(c),
        ('A' <= c && c <= 'Z') ==> b,
        ('a' <= c && c <= 'z') ==> !b,
{
    c.is_uppercase()
}

/// `i` in decimal, with a leading `-` when negative.
pub open spec fn signed_decimal(i: int) -> Seq<char> {
    if i < 0 {
        seq!['-'] + decimal((-i) as nat)
    } else {
        decimal(i as nat)
    }
}

/// Append `i` in decimal, with a leading `-` when negative.
pub fn push_signed_decimal(s: &mut String, i: i32)
    ensures
        final(s)@ == old(s)@ + signed_decimal(i as int),
{
    let wide = i as i64;
    if wide < 0 {
        push_char(s, '-');
        push_decimal(s, (-wide) as u64);
    } else {
        push_decimal(s, wide as u64);
    }
    assert(s@ =~= old(s)@ + signed_decimal(i as int));
}

/// Index of the first occurrence of `needle` in `hay` at or after `i`, or -1.
pub open spec fn find_from(hay: Seq<char>, needle: Seq<char>, i: int) -> int
    decreases hay.len() + 1 - i,
{
    if i < 0 || i + needle.len() > hay.len() {
        -1
    } else if occurs_at(hay, needle, i) {
        i
    } else {
        find_from(hay, needle, i + 1)
    }
}

/// Position of the first occurrence of `needle` in `hay`.
pub fn find_chars(hay: &[char], needle: &[char]) -> (r: Option<usize>)
    ensures
        match r {
            Some(i) => i as int == find_from(hay@, needle@, 0) && i + needle@.len() <= hay@.len(),
            None => find_from(hay@, needle@, 0) == -1,
        },
{
    let mut i: usize = 0;
    while i <= hay.len() && needle.len() <= hay.len() - i
        invariant
            0 <= i <= hay@.len() + 1,
            hay@.len() == hay.len(),
            find_from(hay@, needle@, 0) == find_from(hay@, needle@, i as int),
        decreases hay@.len() + 1 - i,
    {
        if matches_at(hay, needle, i) {
            return Some(i);
        }
        proof {
            if i == hay.len() {
                assert(needle@ =~= hay@.subrange(i as int, i as int));
            }
        }
        i += 1;
    }
    None
}

/// Index of the last line break in `s`, or -1.
pub open spec fn last_newline(s: Seq<char>) -> int
    decreases s.len(),
{
    if s.len() == 0 {
        -1
    } else if s.last() == '\n' {
        s.len() - 1
    } else {
        last_newline(s.drop_last())
    }
}

pub proof fn lemma_last_newline_bounds(s: Seq<char>)
    ensures
        -1 <= last_newline(s) < s.len(),
    decreases s.len(),
{
    if s.len() > 0 && s.last() != '\n' {
        lemma_last_newline_bounds(s.drop_last());
    }
}

/// The last line of `text` that is not blank, trimmed: where libvips puts
/// the most specific part of a chained error.
pub open spec fn last_nonblank_line(s: Seq<char>) -> Option<Seq<char>>
    decreases s.len(),
{
    let k = last_newline(s);
    let tail = s.subrange(k + 1, s.len() as int);
    if !is_blank(tail) {
        Some(trim(tail))
    } else if k < 0 {
        None
    } else {
        proof {
            lemma_last_newline_bounds(s);
        }
        last_nonblank_line(s.subrange(0, k))
    }
}

proof fn lemma_last_newline_is(q: Seq<char>, j: int)
    requires
        -1 <= j < q.len(),
        j >= 0 ==> q[j] == '\n',
        forall|k: int| j < k < q.len() ==> #[trigger] q[k] != '\n',
    ensures
        last_newline(q) == j,
    decreases q.len(),
{
    if q.len() > 0 && j < q.len() - 1 {
        let t = q.drop_last();
        assert forall|k: int| j < k < t.len() implies #[trigger] t[k] != '\n' by {
            assert(t[k] == q[k]);
        }
        if j >= 0 {
            assert(t[j] == q[j]);
        }
        lemma_last_newline_is(t, j);
    }
}

/// The last non-blank line of `v`, trimmed.
pub fn last_nonblank(v: &[char]) -> (r: Option<Vec<char>>)
    ensures
        match r {
            Some(l) => last_nonblank_line(v@) == Some(l@),
            None => last_nonblank_line(v@) is None,
        },
{
    let mut end = v.len();
    assert(v@.subrange(0, end as int) =~= v@);
    loop
        invariant
            end <= v@.len(),
            last_nonblank_line(v@) == last_nonblank_line(v@.subrange(0, end as int)),
        decreases end,
    {
        let ghost s = v@.subrange(0, end as int);
        let mut k = end;
        while k > 0 && v[k - 1] != '\n'
            invariant
                k <= end <= v@.len(),
                forall|j: int| k <= j < end ==> #[trigger] v@[j] != '\n',
            decreases k,
        {
            k -= 1;
        }
        proof {
            assert forall|j: int| k - 1 < j < s.len() implies #[trigger] s[j] != '\n' by {
                assert(s[j] == v@[j]);
            }
            if k > 0 {
                assert(s[k - 1] == v@[k - 1]);
            }
            lemma_last_newline_is(s, k - 1);
        }
        let tail = sub_chars(v, k, end);
        assert(tail@ =~= s.subrange(k as int, s.len() as int));
        let (a, b) = trim_bounds(tail.as_slice());
        if a < b {
            return Some(sub_chars(tail.as_slice(), a, b));
        }
        if k == 0 {
            return None;
        }
        assert(s.subrange(0, k - 1) =~= v@.subrange(0, k - 1));
        end = k - 1;
    }
}

} // verus!
