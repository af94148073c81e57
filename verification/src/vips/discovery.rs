//! Working out what an installed `vips` is: its version, which savers it
//! has, and why a candidate is unusable.
//!
//! Finding candidates (user choice, `VIPS_GUI_VIPS_EXE`, `PATH`, common
//! install directories) and running them happens outside this library; the
//! functions here decide what their output means.

use vstd::prelude::*;
use crate::text::{
    all_digits, ascii_lower, chars_of, contains_chars, contains_seq, decimal, digit, first_where,
    has_prefix, is_blank, is_digit, is_space, is_whitespace, lemma_decimal_value,
    lemma_first_where, lemma_first_where_bounds, lemma_leading_spaces, lemma_trailing_spaces,
    lossy_text, lower_seq, parse_u32, parse_u32_spec, push_char, push_chars, push_decimal,
    starts_with_chars, sub_chars, trim, trim_bounds, trim_end, trim_start, utf8_lossy,
    without_plus,
};
use super::{min_version, min_version_spec};
use crate::path::{join, push_joined};

verus! {

/// Environment variable that overrides discovery entirely.
pub const ENV_OVERRIDE: &'static str = "VIPS_GUI_VIPS_EXE";

/// A parsed `vips` version, e.g. `vips-8.18.6` -> `8.18.6`.
#[derive(Debug, Clone, Copy, PartialEq, Eq, Structural, PartialOrd, Ord, Hash)]
pub struct VipsVersion {
    pub major: u32,
    pub minor: u32,
    pub patch: u32,
}

/// `a >= b`, comparing major, then minor, then patch numerically.
pub open spec fn version_ge(a: VipsVersion, b: VipsVersion) -> bool {
    ||| a.major > b.major
    ||| a.major == b.major && a.minor > b.minor
    ||| a.major == b.major && a.minor == b.minor && a.patch >= b.patch
}

pub open spec fn space_pred() -> spec_fn(char) -> bool {
    |c: char| is_space(c)
}

pub open spec fn not_dash_or_blank_pred() -> spec_fn(char) -> bool {
    |c: char| c != '-' && c != ' '
}

pub open spec fn dash_or_plus_pred() -> spec_fn(char) -> bool {
    |c: char| c == '-' || c == '+'
}

pub open spec fn dot_pred() -> spec_fn(char) -> bool {
    |c: char| c == '.'
}

/// The first whitespace-separated word of the trimmed output.
pub open spec fn version_token(raw: Seq<char>) -> Seq<char> {
    let text = trim(raw);
    text.subrange(0, first_where(text, space_pred()))
}

/// The token without a leading `vips-` or `vips`.
pub open spec fn without_vips_prefix(token: Seq<char>) -> Seq<char> {
    if has_prefix(token, "vips-"@) {
        token.subrange("vips-"@.len() as int, token.len() as int)
    } else if has_prefix(token, "vips"@) {
        token.subrange("vips"@.len() as int, token.len() as int)
    } else {
        token
    }
}

/// The dotted numbers: leading `-` and spaces dropped, and anything from
/// the first `-` or `+` on (a pre-release or build suffix) cut off.
pub open spec fn version_core(raw: Seq<char>) -> Seq<char> {
    let s = without_vips_prefix(version_token(raw));
    let d = s.subrange(first_where(s, not_dash_or_blank_pred()), s.len() as int);
    d.subrange(0, first_where(d, dash_or_plus_pred()))
}

/// The text before the first dot.
pub open spec fn before_dot(s: Seq<char>) -> Seq<char> {
    s.subrange(0, first_where(s, dot_pred()))
}

/// The text after the first dot, if there is a dot.
pub open spec fn after_dot(s: Seq<char>) -> Option<Seq<char>> {
    let k = first_where(s, dot_pred());
    if k == s.len() {
        None
    } else {
        Some(s.subrange(k + 1, s.len() as int))
    }
}

/// A version component: absent reads as 0, present must parse.
pub open spec fn component(part: Option<Seq<char>>) -> Option<u32> {
    match part {
        None => Some(0),
        Some(p) => parse_u32_spec(before_dot(p)),
    }
}

/// What `vips --version` output means as a version.
///
/// The expected shape is `vips-8.18.6`; a bare `8.18.6`, a missing minor or
/// patch level (read as 0), trailing words and a pre-release suffix such as
/// `8.15.0-rc2` are accepted too.
pub open spec fn parse_version(raw: Seq<char>) -> Option<VipsVersion> {
    let core = version_core(raw);
    if version_token(raw).len() == 0 || core.len() == 0 {
        None
    } else {
        let r1 = after_dot(core);
        let r2 = match r1 {
            Some(r) => after_dot(r),
            None => None,
        };
        match (parse_u32_spec(before_dot(core)), component(r1), component(r2)) {
            (Some(a), Some(b), Some(c)) => Some(VipsVersion { major: a, minor: b, patch: c }),
            _ => None,
        }
    }
}

/// `major.minor.patch`.
pub open spec fn version_text(v: VipsVersion) -> Seq<char> {
    decimal(v.major as nat).push('.') + decimal(v.minor as nat).push('.') + decimal(
        v.patch as nat,
    )
}

proof fn lemma_decimal_parses(n: nat)
    requires
        n <= u32::MAX,
    ensures
        parse_u32_spec(decimal(n)) == Some(n as u32),
{
    lemma_decimal_value(n);
    assert(without_plus(decimal(n)) == decimal(n));
}

/// Text made of digits and dots, starting and ending with a digit.
spec fn dotted_digits(t: Seq<char>) -> bool {
    &&& t.len() >= 1
    &&& forall|i: int| 0 <= i < t.len() ==> is_digit(#[trigger] t[i]) || t[i] == '.'
    &&& is_digit(t[0])
    &&& is_digit(t.last())
}

proof fn lemma_no_dot(d: Seq<char>)
    requires
        all_digits(d),
    ensures
        first_where(d, dot_pred()) == d.len(),
{
    lemma_first_where(d, dot_pred(), d.len() as int);
}

/// `a.b` with a first dot right after the digits of `a`.
proof fn lemma_split_at_dot(a: Seq<char>, rest: Seq<char>)
    requires
        all_digits(a),
    ensures
        before_dot(a.push('.') + rest) == a,
        after_dot(a.push('.') + rest) == Some(rest),
{
    let t = a.push('.') + rest;
    assert forall|k: int| 0 <= k < a.len() implies !(#[trigger] dot_pred()(t[k])) by {
        assert(t[k] == a[k]);
    }
    assert(t[a.len() as int] == '.');
    lemma_first_where(t, dot_pred(), a.len() as int);
    assert(t.subrange(0, a.len() as int) =~= a);
    assert(t.subrange(a.len() as int + 1, t.len() as int) =~= rest);
}

/// The dotted numbers, read from a token that is them, with or without a
/// `vips-` tag in front.
proof fn lemma_core_of_token(tag: Seq<char>, t: Seq<char>)
    requires
        dotted_digits(t),
        tag == Seq::<char>::empty() || tag == "vips-"@,
    ensures
        ({
            let s = without_vips_prefix(tag + t);
            let d = s.subrange(first_where(s, not_dash_or_blank_pred()), s.len() as int);
            d.subrange(0, first_where(d, dash_or_plus_pred()))
        }) == t,
{
    reveal_strlit("vips-");
    reveal_strlit("vips");
    let tok = tag + t;
    if tag.len() == 0 {
        assert(tok =~= t);
        if has_prefix(t, "vips-"@) {
            assert(t.subrange(0, 5)[0] == t[0]);
        }
        if has_prefix(t, "vips"@) {
            assert(t.subrange(0, 4)[0] == t[0]);
        }
        assert(without_vips_prefix(tok) == t);
    } else {
        assert(tok.subrange(0, 5) =~= "vips-"@);
        assert(tok.subrange(5, tok.len() as int) =~= t);
        assert(without_vips_prefix(tok) == t);
    }
    lemma_first_where(t, not_dash_or_blank_pred(), 0);
    assert(t.subrange(0, t.len() as int) =~= t);
    assert forall|k: int| 0 <= k < t.len() implies !(#[trigger] dash_or_plus_pred()(t[k])) by {
        assert(is_digit(t[k]) || t[k] == '.');
    }
    lemma_first_where(t, dash_or_plus_pred(), t.len() as int);
}

/// Output that is, apart from whitespace around it, the dotted numbers
/// with or without a `vips-` tag: its token is the tagged text and its core
/// the numbers.
proof fn lemma_padded_core(pre: Seq<char>, tag: Seq<char>, t: Seq<char>, post: Seq<char>)
    requires
        dotted_digits(t),
        is_blank(pre),
        is_blank(post),
        tag == Seq::<char>::empty() || tag == "vips-"@,
    ensures
        version_token(pre + tag + t + post) == tag + t,
        version_core(pre + tag + t + post) == t,
{
    reveal_strlit("vips-");
    let tok = tag + t;
    let w = pre + tag + t + post;
    assert(w =~= pre + tok + post);
    assert forall|k: int| 0 <= k < tok.len() implies !is_space(#[trigger] tok[k]) by {
        if k < tag.len() {
            assert(tok[k] == tag[k]);
            assert(tag[k] == 'v' || tag[k] == 'i' || tag[k] == 'p' || tag[k] == 's' || tag[k] == '-');
        } else {
            assert(tok[k] == t[k - tag.len()]);
            assert(is_digit(t[k - tag.len()]) || t[k - tag.len()] == '.');
        }
    }
    assert forall|k: int| 0 <= k < pre.len() implies is_space(#[trigger] w[k]) by {
        assert(w[k] == pre[k]);
    }
    assert(w[pre.len() as int] == tok[0]);
    lemma_leading_spaces(w, pre.len() as int);
    let rest = tok + post;
    assert(trim_start(w) =~= rest);
    assert forall|k: int| tok.len() <= k < rest.len() implies is_space(#[trigger] rest[k]) by {
        assert(rest[k] == post[k - tok.len()]);
    }
    assert(rest[tok.len() - 1] == tok[tok.len() - 1]);
    lemma_trailing_spaces(rest, tok.len() as int);
    assert(trim(w) =~= tok);
    assert forall|k: int| 0 <= k < tok.len() implies !(#[trigger] space_pred()(tok[k])) by {
        assert(!is_space(tok[k]));
    }
    lemma_first_where(tok, space_pred(), tok.len() as int);
    assert(tok.subrange(0, tok.len() as int) =~= tok);
    assert(version_token(w) == tok);
    lemma_core_of_token(tag, t);
}

/// `version_text(v)` is digits and dots, starting and ending with a digit.
proof fn lemma_version_text_dotted(v: VipsVersion)
    ensures
        dotted_digits(version_text(v)),
{
    let (a, b, c) = (decimal(v.major as nat), decimal(v.minor as nat), decimal(v.patch as nat));
    lemma_decimal_value(v.major as nat);
    lemma_decimal_value(v.minor as nat);
    lemma_decimal_value(v.patch as nat);
    let u = b.push('.') + c;
    let t = a.push('.') + u;
    assert(version_text(v) =~= t);
    assert forall|i: int| 0 <= i < t.len() implies is_digit(#[trigger] t[i]) || t[i] == '.' by {
        if i < a.len() {
            assert(t[i] == a[i]);
        } else if i > a.len() && i < a.len() + 1 + b.len() {
            assert(t[i] == b[i - a.len() - 1]);
        } else if i > a.len() + b.len() + 1 {
            assert(t[i] == c[i - a.len() - b.len() - 2]);
        }
    }
    assert(t[0] == a[0]);
    assert(t.last() == c.last());
}

/// The numbers of a version's text read back as that version.
proof fn lemma_numbers_parse(v: VipsVersion)
    ensures
        ({
            let core = version_text(v);
            let r1 = after_dot(core);
            let r2 = match r1 {
                Some(r) => after_dot(r),
                None => None,
            };
            parse_u32_spec(before_dot(core)) == Some(v.major) && component(r1) == Some(v.minor)
                && component(r2) == Some(v.patch)
        }),
{
    let (a, b, c) = (decimal(v.major as nat), decimal(v.minor as nat), decimal(v.patch as nat));
    lemma_decimal_value(v.major as nat);
    lemma_decimal_value(v.minor as nat);
    lemma_decimal_value(v.patch as nat);
    let u = b.push('.') + c;
    assert(version_text(v) =~= a.push('.') + u);
    lemma_split_at_dot(a, u);
    lemma_split_at_dot(b, c);
    lemma_no_dot(c);
    assert(before_dot(c) =~= c);
    lemma_decimal_parses(v.major as nat);
    lemma_decimal_parses(v.minor as nat);
    lemma_decimal_parses(v.patch as nat);
}

/// What a version is shown as reads back as the same version.
pub proof fn lemma_version_text_parses(v: VipsVersion)
    ensures
        parse_version(version_text(v)) == Some(v),
{
    lemma_version_output_parses(v, Seq::empty(), Seq::empty(), false);
    assert(Seq::<char>::empty() + Seq::<char>::empty() + version_text(v) + Seq::<char>::empty()
        =~= version_text(v));
}

/// What `vips --version` prints for a version reads back as that version:
/// with or without the `vips-` tag, and with any whitespace before and
/// after it (such as the trailing newline).
pub proof fn lemma_version_output_parses(
    v: VipsVersion,
    before: Seq<char>,
    after: Seq<char>,
    tagged: bool,
)
    requires
        is_blank(before),
        is_blank(after),
    ensures
        parse_version(
            before + (if tagged {
                "vips-"@
            } else {
                Seq::<char>::empty()
            }) + version_text(v) + after,
        ) == Some(v),
{
    let tag = if tagged {
        "vips-"@
    } else {
        Seq::<char>::empty()
    };
    let t = version_text(v);
    lemma_version_text_dotted(v);
    lemma_padded_core(before, tag, t, after);
    lemma_numbers_parse(v);
}

fn first_space(v: &[char]) -> (k: usize)
    ensures
        k as int == first_where(v@, space_pred()),
        k <= v@.len(),
{
    let mut k: usize = 0;
    while k < v.len() && !is_whitespace(v[k])
        invariant
            k <= v@.len(),
            forall|j: int| 0 <= j < k ==> !(space_pred())(#[trigger] v@[j]),
        decreases v@.len() - k,
    {
        k += 1;
    }
    proof {
        lemma_first_where(v@, space_pred(), k as int);
    }
    k
}

fn first_not_dash_or_blank(v: &[char]) -> (k: usize)
    ensures
        k as int == first_where(v@, not_dash_or_blank_pred()),
        k <= v@.len(),
{
    let mut k: usize = 0;
    while k < v.len() && (v[k] == '-' || v[k] == ' ')
        invariant
            k <= v@.len(),
            forall|j: int| 0 <= j < k ==> !(not_dash_or_blank_pred())(#[trigger] v@[j]),
        decreases v@.len() - k,
    {
        k += 1;
    }
    proof {
        lemma_first_where(v@, not_dash_or_blank_pred(), k as int);
    }
    k
}

fn first_dash_or_plus(v: &[char]) -> (k: usize)
    ensures
        k as int == first_where(v@, dash_or_plus_pred()),
        k <= v@.len(),
{
    let mut k: usize = 0;
    while k < v.len() && !(v[k] == '-' || v[k] == '+')
        invariant
            k <= v@.len(),
            forall|j: int| 0 <= j < k ==> !(dash_or_plus_pred())(#[trigger] v@[j]),
        decreases v@.len() - k,
    {
        k += 1;
    }
    proof {
        lemma_first_where(v@, dash_or_plus_pred(), k as int);
    }
    k
}

fn first_dot(v: &[char]) -> (k: usize)
    ensures
        k as int == first_where(v@, dot_pred()),
        k <= v@.len(),
{
    let mut k: usize = 0;
    while k < v.len() && v[k] != '.'
        invariant
            k <= v@.len(),
            forall|j: int| 0 <= j < k ==> !(dot_pred())(#[trigger] v@[j]),
        decreases v@.len() - k,
    {
        k += 1;
    }
    proof {
        lemma_first_where(v@, dot_pred(), k as int);
    }
    k
}

/// Parse one component that starts at the front of `v`.
fn parse_component(v: &[char]) -> (r: Option<u32>)
    ensures
        r == component(Some(v@)),
{
    let k = first_dot(v);
    let part = sub_chars(v, 0, k);
    parse_u32(part.as_slice())
}

/// The text after the first dot of `v`, if any.
fn split_after_dot(v: &[char]) -> (r: Option<Vec<char>>)
    ensures
        match r {
            Some(w) => after_dot(v@) == Some(w@),
            None => after_dot(v@) is None,
        },
{
    let k = first_dot(v);
    if k == v.len() {
        None
    } else {
        Some(sub_chars(v, k + 1, v.len()))
    }
}

impl VipsVersion {
    /// Parse the output of `vips --version`.
    pub fn parse(raw: &str) -> (r: Option<Self>)
        ensures
            r == parse_version(raw@),
    {
        let v = chars_of(raw);
        let (a, b) = trim_bounds(v.as_slice());
        let text = sub_chars(v.as_slice(), a, b);
        let k = first_space(text.as_slice());
        let token = sub_chars(text.as_slice(), 0, k);
        assert(token@ == version_token(raw@));
        if token.len() == 0 {
            return None;
        }
        let long = chars_of("vips-");
        let short = chars_of("vips");
        let stripped = if starts_with_chars(token.as_slice(), long.as_slice()) {
            sub_chars(token.as_slice(), long.len(), token.len())
        } else if starts_with_chars(token.as_slice(), short.as_slice()) {
            sub_chars(token.as_slice(), short.len(), token.len())
        } else {
            sub_chars(token.as_slice(), 0, token.len())
        };
        assert(token@.subrange(0, token@.len() as int) =~= token@);
        assert(stripped@ == without_vips_prefix(token@));
        let s = first_not_dash_or_blank(stripped.as_slice());
        proof {
            lemma_first_where_bounds(stripped@, not_dash_or_blank_pred());
        }
        let d = sub_chars(stripped.as_slice(), s, stripped.len());
        let e = first_dash_or_plus(d.as_slice());
        proof {
            lemma_first_where_bounds(d@, dash_or_plus_pred());
        }
        let core = sub_chars(d.as_slice(), 0, e);
        assert(core@ == version_core(raw@));
        if core.len() == 0 {
            return None;
        }
        let major = parse_component(core.as_slice());
        let r1 = split_after_dot(core.as_slice());
        let (minor, r2) = match r1 {
            Some(rest) => (parse_component(rest.as_slice()), split_after_dot(rest.as_slice())),
            None => (Some(0), None),
        };
        let patch = match r2 {
            Some(rest) => parse_component(rest.as_slice()),
            None => Some(0),
        };
        match (major, minor, patch) {
            (Some(major), Some(minor), Some(patch)) => Some(VipsVersion { major, minor, patch }),
            _ => None,
        }
    }

    /// `self >= other`, numerically by component.
    pub fn at_least(self, other: VipsVersion) -> (r: bool)
        ensures
            r == version_ge(self, other),
    {
        self.major > other.major || (self.major == other.major && (self.minor > other.minor || (
        self.minor == other.minor && self.patch >= other.patch)))
    }

    /// `keep=none` replaced the older `strip` flag in libvips 8.15. Both are
    /// accepted on 8.18, but only `strip` works before 8.15.
    pub fn uses_keep_option(self) -> (r: bool)
        ensures
            r == version_ge(self, VipsVersion { major: 8, minor: 15, patch: 0 }),
    {
        self.at_least(VipsVersion { major: 8, minor: 15, patch: 0 })
    }

    /// The version as `major.minor.patch`.
    pub fn to_text(self) -> (s: String)
        ensures
            s@ == version_text(self),
    {
        let mut s = String::new();
        push_decimal(&mut s, self.major as u64);
        push_char(&mut s, '.');
        push_decimal(&mut s, self.minor as u64);
        push_char(&mut s, '.');
        push_decimal(&mut s, self.patch as u64);
        assert(s@ =~= version_text(self));
        s
    }
}

/// Which savers the discovered build actually has compiled in. A libvips
/// built without libheif has no `heifsave`, so AVIF must be disabled.
#[derive(Debug, Clone, Copy, PartialEq, Eq, Structural, Default)]
pub struct Capabilities {
    pub jpeg: bool,
    pub png: bool,
    pub webp: bool,
    pub avif: bool,
}

/// The savers named in a `vips -l` listing. Lines look like
/// `VipsForeignSavePngFile (pngsave), save image to file as png, ...`, so
/// the parenthesised nickname is what counts; `(heifsave_base)` does not.
pub open spec fn listing_capabilities(listing: Seq<char>) -> Capabilities {
    Capabilities {
        jpeg: contains_seq(listing, "(jpegsave)"@),
        png: contains_seq(listing, "(pngsave)"@),
        webp: contains_seq(listing, "(webpsave)"@),
        avif: contains_seq(listing, "(heifsave)"@),
    }
}

impl Capabilities {
    /// Parse the operation listing from `vips -l`.
    pub fn parse_listing(listing: &str) -> (r: Self)
        ensures
            r == listing_capabilities(listing@),
    {
        let l = chars_of(listing);
        let jpeg = contains_chars(l.as_slice(), chars_of("(jpegsave)").as_slice());
        let png = contains_chars(l.as_slice(), chars_of("(pngsave)").as_slice());
        let webp = contains_chars(l.as_slice(), chars_of("(webpsave)").as_slice());
        let avif = contains_chars(l.as_slice(), chars_of("(heifsave)").as_slice());
        Capabilities { jpeg, png, webp, avif }
    }

    /// True when every format the UI offers is available.
    pub fn all_present(self) -> (r: bool)
        ensures
            r == (self.jpeg && self.png && self.webp && self.avif),
    {
        self.jpeg && self.png && self.webp && self.avif
    }
}

/// Which step of the resolution order produced the executable.
#[derive(Debug, Clone, Copy, PartialEq, Eq, Structural)]
pub enum DiscoverySource {
    /// Explicitly chosen by the user.
    UserOverride,
    /// From `VIPS_GUI_VIPS_EXE`.
    Environment,
    /// Found on `PATH`.
    Path,
    /// Found by scanning common install directories.
    WellKnownDirectory,
}

impl DiscoverySource {
    pub open spec fn describe_text(self) -> Seq<char> {
        match self {
            DiscoverySource::UserOverride => "chosen manually"@,
            DiscoverySource::Environment => "from VIPS_GUI_VIPS_EXE"@,
            DiscoverySource::Path => "found on PATH"@,
            DiscoverySource::WellKnownDirectory => "found in a standard install location"@,
        }
    }

    pub fn describe(self) -> (r: &'static str)
        ensures
            r@ == self.describe_text(),
    {
        match self {
            DiscoverySource::UserOverride => "chosen manually",
            DiscoverySource::Environment => "from VIPS_GUI_VIPS_EXE",
            DiscoverySource::Path => "found on PATH",
            DiscoverySource::WellKnownDirectory => "found in a standard install location",
        }
    }
}

/// A validated `vips` installation, ready to use.
#[derive(Debug, Clone, PartialEq, Eq)]
pub struct VipsInstall {
    /// Path of the executable.
    pub exe: String,
    pub version: VipsVersion,
    pub capabilities: Capabilities,
    /// How it was found, for display in the UI.
    pub source: DiscoverySource,
}

/// Why discovery failed. Each variant maps to specific UI guidance.
#[derive(Debug, Clone, PartialEq, Eq)]
pub enum DiscoveryError {
    NotFound,
    OverrideMissing { path: String },
    NotExecutable { path: String, reason: String },
    UnreadableVersion { path: String, output: String },
    TooOld { path: String, found: VipsVersion, min: VipsVersion },
}

impl DiscoveryError {
    /// The message shown to the user.
    pub open spec fn message_text(self) -> Seq<char> {
        match self {
            DiscoveryError::NotFound =>
                "Could not find vips.exe on your PATH or in the usual install locations."@,
            DiscoveryError::OverrideMissing { path } => path@ + " does not exist."@,
            DiscoveryError::NotExecutable { path, reason } => "Could not run "@ + path@ + ": "@
                + reason@,
            DiscoveryError::UnreadableVersion { path, output } =>
                "Could not read a version number from `"@ + path@ + " --version` (it printed: "@
                + output@ + ")"@,
            DiscoveryError::TooOld { path, found, min } => "Found libvips "@ + version_text(found)
                + " at "@ + path@ + ", but this app needs "@ + version_text(min)
                + " or newer. Please update libvips."@,
        }
    }

    /// The message shown to the user.
    pub fn message(&self) -> (s: String)
        ensures
            s@ == self.message_text(),
    {
        let mut s = String::new();
        match self {
            DiscoveryError::NotFound => {
                s.append(
                    "Could not find vips.exe on your PATH or in the usual install locations.",
                );
            },
            DiscoveryError::OverrideMissing { path } => {
                s.append(path.as_str());
                s.append(" does not exist.");
            },
            DiscoveryError::NotExecutable { path, reason } => {
                s.append("Could not run ");
                s.append(path.as_str());
                s.append(": ");
                s.append(reason.as_str());
            },
            DiscoveryError::UnreadableVersion { path, output } => {
                s.append("Could not read a version number from `");
                s.append(path.as_str());
                s.append(" --version` (it printed: ");
                s.append(output.as_str());
                s.append(")");
            },
            DiscoveryError::TooOld { path, found, min } => {
                s.append("Found libvips ");
                let f = found.to_text();
                s.append(f.as_str());
                s.append(" at ");
                s.append(path.as_str());
                s.append(", but this app needs ");
                let m = min.to_text();
                s.append(m.as_str());
                s.append(" or newer. Please update libvips.");
            },
        }
        assert(s@ =~= self.message_text());
        s
    }
}

/// The output to read: stdout, unless it is blank, then stderr.
pub open spec fn chosen_output(stdout: Seq<char>, stderr: Seq<char>) -> Seq<char> {
    if is_blank(stdout) {
        stderr
    } else {
        stdout
    }
}

/// Longest message text shown before truncation.
pub const DISPLAY_LIMIT: usize = 120;

/// `text` on one line: each line break becomes a space.
pub open spec fn one_line(text: Seq<char>) -> Seq<char> {
    Seq::new(text.len(), |i: int| if text[i] == '\n' || text[i] == '\r' { ' ' } else { text[i] })
}

/// Text short enough for a dialog: `<nothing>` for empty text, otherwise one
/// line of at most 120 characters, cut with `...` when longer.
pub open spec fn display_text(text: Seq<char>) -> Seq<char> {
    if text.len() == 0 {
        "<nothing>"@
    } else if one_line(text).len() <= DISPLAY_LIMIT {
        one_line(text)
    } else {
        one_line(text).take(DISPLAY_LIMIT as int) + "..."@
    }
}

/// Display text always fits a dialog: never more than the limit plus the
/// three dots of the cut, never empty, and never more than one line.
pub proof fn lemma_display_text_fits(text: Seq<char>)
    ensures
        display_text(text).len() <= DISPLAY_LIMIT + 3,
        display_text(text).len() >= 1,
        text.len() > 0 ==> !display_text(text).contains('\n'),
{
    reveal_strlit("<nothing>");
    reveal_strlit("...");
    if text.len() > 0 {
        let d = display_text(text);
        if d.contains('\n') {
            let i = choose|i: int| 0 <= i < d.len() && d[i] == '\n';
            if one_line(text).len() > DISPLAY_LIMIT {
                if i < DISPLAY_LIMIT {
                    assert(d[i] == one_line(text)[i]);
                }
            } else {
                assert(d[i] == one_line(text)[i]);
            }
        }
    }
}

/// Keep error text short enough to fit in a dialog.
pub fn truncate_for_display(text: &str) -> (r: String)
    ensures
        r@ == display_text(text@),
{
    let v = chars_of(text);
    let mut r = String::new();
    if v.len() == 0 {
        r.append("<nothing>");
        assert(r@ =~= display_text(text@));
        return r;
    }
    let limit = if v.len() <= DISPLAY_LIMIT {
        v.len()
    } else {
        DISPLAY_LIMIT
    };
    let mut i: usize = 0;
    while i < limit
        invariant
            limit <= v@.len(),
            v@ == text@,
            i <= limit,
            r@ == one_line(v@).take(i as int),
        decreases limit - i,
    {
        let c = v[i];
        let o = if c == '\n' || c == '\r' {
            ' '
        } else {
            c
        };
        push_char(&mut r, o);
        i += 1;
        assert(r@ =~= one_line(v@).take(i as int));
    }
    if v.len() > DISPLAY_LIMIT {
        r.append("...");
    } else {
        assert(one_line(v@).take(i as int) =~= one_line(v@));
    }
    r
}

/// Which savers a `vips -l` run reports, reading stdout unless it is blank,
/// then stderr. Nothing when both are blank.
pub open spec fn probed_capabilities(stdout: Seq<char>, stderr: Seq<char>) -> Option<
    Capabilities,
> {
    let listing = chosen_output(stdout, stderr);
    if is_blank(listing) {
        None
    } else {
        Some(listing_capabilities(listing))
    }
}

/// What a `vips -l` run says about the savers.
pub fn capabilities_from_output(stdout: &[u8], stderr: &[u8]) -> (r: Option<Capabilities>)
    ensures
        r == probed_capabilities(utf8_lossy(stdout@), utf8_lossy(stderr@)),
{
    let out = lossy_text(stdout);
    let o = chars_of(out.as_str());
    let (a, b) = trim_bounds(o.as_slice());
    let listing = if a == b {
        lossy_text(stderr)
    } else {
        out
    };
    let l = chars_of(listing.as_str());
    let (c, d) = trim_bounds(l.as_slice());
    if c == d {
        return None;
    }
    Some(Capabilities::parse_listing(listing.as_str()))
}

/// Every saver assumed present: what a failed capability probe falls back
/// to, so that individual conversions report their own errors.
pub open spec fn all_capabilities() -> Capabilities {
    Capabilities { jpeg: true, png: true, webp: true, avif: true }
}

/// The verdict on a candidate executable from what `vips --version` printed
/// (`stdout`, `stderr`) and what the `vips -l` probe found (`capabilities`,
/// `None` when the probe failed).
///
/// Unreadable output gives `UnreadableVersion` with the trimmed output cut
/// for display; a version below [`min_version`] gives `TooOld`; otherwise the
/// install, with every saver assumed present when the probe failed.
pub fn validate_output(
    exe: &str,
    source: DiscoverySource,
    stdout: &[u8],
    stderr: &[u8],
    capabilities: Option<Capabilities>,
) -> (r: Result<VipsInstall, DiscoveryError>)
    ensures
        ({
            let out = chosen_output(utf8_lossy(stdout@), utf8_lossy(stderr@));
            match parse_version(out) {
                None => r matches Err(DiscoveryError::UnreadableVersion { path, output }) && path@
                    == exe@ && output@ == display_text(trim(out)),
                Some(v) => if !version_ge(v, min_version_spec()) {
                    r matches Err(DiscoveryError::TooOld { path, found, min }) && path@ == exe@
                        && found == v && min == min_version_spec()
                } else {
                    r matches Ok(install) && install.exe@ == exe@ && install.version == v
                        && install.source == source && install.capabilities == match capabilities {
                        Some(c) => c,
                        None => all_capabilities(),
                    }
                },
            }
        }),
{
    let out = lossy_text(stdout);
    let o = chars_of(out.as_str());
    let (a, b) = trim_bounds(o.as_slice());
    let combined = if a == b {
        lossy_text(stderr)
    } else {
        out
    };
    let c = chars_of(combined.as_str());
    match VipsVersion::parse(combined.as_str()) {
        None => {
            let (x, y) = trim_bounds(c.as_slice());
            let t = sub_chars(c.as_slice(), x, y);
            let mut trimmed = String::new();
            push_chars(&mut trimmed, t.as_slice());
            let output = truncate_for_display(trimmed.as_str());
            Err(DiscoveryError::UnreadableVersion { path: exe.to_owned(), output })
        },
        Some(version) => {
            if !version.at_least(min_version()) {
                return Err(
                    DiscoveryError::TooOld {
                        path: exe.to_owned(),
                        found: version,
                        min: min_version(),
                    },
                );
            }
            let caps = match capabilities {
                Some(c) => c,
                None => Capabilities { jpeg: true, png: true, webp: true, avif: true },
            };
            Ok(VipsInstall { exe: exe.to_owned(), version, capabilities: caps, source })
        },
    }
}

/// Where discovery looks, in order, and what it makes of each place:
/// a user's choice is authoritative (a missing file is reported rather than
/// silently replaced by a different binary), then `VIPS_GUI_VIPS_EXE` in the
/// same way (set but empty means no override, as if it were unset), then
/// `PATH`, then the common install directories.
///
/// `user_override` and `env_override` come with whether the path names a
/// file; `on_path` and `well_known` search `PATH` and the install
/// directories, and are only asked when the steps before them had nothing.
pub fn locate<G: FnOnce() -> Option<String>, H: FnOnce() -> Option<String>>(
    user_override: Option<(String, bool)>,
    env_override: Option<(String, bool)>,
    on_path: G,
    well_known: H,
) -> (r: Result<(String, DiscoverySource), DiscoveryError>)
    requires
        call_requires(on_path, ()),
        call_requires(well_known, ()),
    ensures
        match user_override {
            Some((p, is_file)) => if is_file {
                r == Ok::<(String, DiscoverySource), DiscoveryError>((p, DiscoverySource::UserOverride))
            } else {
                r == Err::<(String, DiscoverySource), DiscoveryError>(DiscoveryError::OverrideMissing { path: p })
            },
            None => if env_override is Some && env_override.unwrap().0@.len() > 0 {
                let (p, is_file) = env_override.unwrap();
                if is_file {
                    r == Ok::<(String, DiscoverySource), DiscoveryError>((p, DiscoverySource::Environment))
                } else {
                    r == Err::<(String, DiscoverySource), DiscoveryError>(DiscoveryError::OverrideMissing { path: p })
                }
            } else {
                    ||| (exists|p: String|
                        call_ensures(on_path, (), Some(p)) && r == Ok::<(String, DiscoverySource), DiscoveryError>((p, DiscoverySource::Path)))
                    ||| call_ensures(on_path, (), None) && exists|p: String|
                        call_ensures(well_known, (), Some(p)) && r == Ok::<(String, DiscoverySource), DiscoveryError>((
                            p,
                            DiscoverySource::WellKnownDirectory,
                        ))
                    ||| call_ensures(on_path, (), None) && call_ensures(well_known, (), None) && r
                        == Err::<(String, DiscoverySource), DiscoveryError>(DiscoveryError::NotFound)
            },
        },
{
    match user_override {
        Some((p, is_file)) => {
            if is_file {
                return Ok((p, DiscoverySource::UserOverride));
            }
            return Err(DiscoveryError::OverrideMissing { path: p });
        },
        None => {},
    }
    match env_override {
        Some((p, is_file)) => {
            if p.as_str().unicode_len() > 0 {
                if is_file {
                    return Ok((p, DiscoverySource::Environment));
                }
                return Err(DiscoveryError::OverrideMissing { path: p });
            }
        },
        None => {},
    }
    match on_path() {
        Some(p) => {
            return Ok((p, DiscoverySource::Path));
        },
        None => {},
    }
    match well_known() {
        Some(p) => Ok((p, DiscoverySource::WellKnownDirectory)),
        None => Err(DiscoveryError::NotFound),
    }
}

/// `base` and `base\Programs`, when the variable is set.
pub open spec fn base_roots(base: Option<Seq<char>>) -> Seq<Seq<char>> {
    match base {
        Some(b) => seq![b, join(b, "Programs"@)],
        None => Seq::empty(),
    }
}

/// The directories scanned for a hand-installed libvips, in order: each of
/// `ProgramFiles`, `ProgramFiles(x86)`, `LOCALAPPDATA` and `USERPROFILE`
/// with its `Programs` folder; Scoop's app and shim folders under the
/// profile; Chocolatey's `bin`; and the roots, `Bin` and `tools` folders of
/// drives C and D.
pub open spec fn well_known_roots_spec(
    program_files: Option<Seq<char>>,
    program_files_x86: Option<Seq<char>>,
    local_app_data: Option<Seq<char>>,
    user_profile: Option<Seq<char>>,
    chocolatey: Option<Seq<char>>,
) -> Seq<Seq<char>> {
    base_roots(program_files) + base_roots(program_files_x86) + base_roots(local_app_data)
        + base_roots(user_profile) + match user_profile {
        Some(h) => seq![
            join(join(join(h, "scoop"@), "apps"@), "libvips"@),
            join(join(h, "scoop"@), "shims"@),
        ],
        None => Seq::empty(),
    } + match chocolatey {
        Some(c) => seq![join(c, "bin"@)],
        None => Seq::empty(),
    } + seq![
        "C:\\"@,
        join("C:\\"@, "Bin"@),
        join("C:\\"@, "tools"@),
        "D:\\"@,
        join("D:\\"@, "Bin"@),
        join("D:\\"@, "tools"@),
    ]
}

fn joined(dir: &str, name: &str) -> (s: String)
    ensures
        s@ == join(dir@, name@),
{
    let d = chars_of(dir);
    let n = chars_of(name);
    let mut s = String::new();
    push_joined(&mut s, d.as_slice(), n.as_slice());
    assert(s@ =~= join(dir@, name@));
    s
}

fn push_base_roots(roots: &mut Vec<String>, base: Option<&str>)
    ensures
        final(roots)@.map_values(|r: String| r@) == old(roots)@.map_values(|r: String| r@)
            + base_roots(
            match base {
                Some(b) => Some(b@),
                None => None,
            },
        ),
{
    match base {
        Some(b) => {
            roots.push(b.to_owned());
            roots.push(joined(b, "Programs"));
        },
        None => {},
    }
    assert(roots@.map_values(|r: String| r@) =~= old(roots)@.map_values(|r: String| r@) + base_roots(
        match base {
            Some(b) => Some(b@),
            None => None,
        },
    ));
}

/// The directories scanned for a hand-installed libvips, from the values of
/// the environment variables that name them.
pub fn well_known_roots(
    program_files: Option<&str>,
    program_files_x86: Option<&str>,
    local_app_data: Option<&str>,
    user_profile: Option<&str>,
    chocolatey: Option<&str>,
) -> (v: Vec<String>)
    ensures
        v@.map_values(|r: String| r@) == well_known_roots_spec(
            match program_files {
                Some(b) => Some(b@),
                None => None,
            },
            match program_files_x86 {
                Some(b) => Some(b@),
                None => None,
            },
            match local_app_data {
                Some(b) => Some(b@),
                None => None,
            },
            match user_profile {
                Some(b) => Some(b@),
                None => None,
            },
            match chocolatey {
                Some(b) => Some(b@),
                None => None,
            },
        ),
{
    let mut v: Vec<String> = Vec::new();
    push_base_roots(&mut v, program_files);
    push_base_roots(&mut v, program_files_x86);
    push_base_roots(&mut v, local_app_data);
    push_base_roots(&mut v, user_profile);
    let ghost bases = v@.map_values(|r: String| r@);
    match user_profile {
        Some(h) => {
            let scoop = joined(h, "scoop");
            let apps = joined(scoop.as_str(), "apps");
            v.push(joined(apps.as_str(), "libvips"));
            v.push(joined(scoop.as_str(), "shims"));
        },
        None => {},
    }
    match chocolatey {
        Some(c) => {
            v.push(joined(c, "bin"));
        },
        None => {},
    }
    let ghost before_drives = v@.map_values(|r: String| r@);
    let c_root = "C:\\";
    let d_root = "D:\\";
    v.push(c_root.to_owned());
    v.push(joined(c_root, "Bin"));
    v.push(joined(c_root, "tools"));
    v.push(d_root.to_owned());
    v.push(joined(d_root, "Bin"));
    v.push(joined(d_root, "tools"));
    assert(v@.map_values(|r: String| r@) =~= before_drives + seq![
        "C:\\"@,
        join("C:\\"@, "Bin"@),
        join("C:\\"@, "tools"@),
        "D:\\"@,
        join("D:\\"@, "Bin"@),
        join("D:\\"@, "tools"@),
    ]);
    v
}

/// A directory inside an install root that may hold libvips: its name,
/// lower-cased, starts with `vips` or `libvips`.
pub open spec fn vips_dir_name(name: Seq<char>) -> bool {
    has_prefix(lower_seq(name), "vips"@) || has_prefix(lower_seq(name), "libvips"@)
}

/// Whether a directory inside an install root may hold libvips.
pub fn is_vips_dir_name(name: &str) -> (b: bool)
    ensures
        b == vips_dir_name(name@),
{
    let v = chars_of(name);
    let mut lower: Vec<char> = Vec::new();
    for i in 0..v.len()
        invariant
            lower@ == lower_seq(v@.take(i as int)),
    {
        lower.push(ascii_lower(v[i]));
        assert(lower_seq(v@.take(i + 1)) =~= lower_seq(v@.take(i as int)).push(
            crate::text::lower(v@[i as int]),
        ));
    }
    assert(v@.take(v.len() as int) =~= v@);
    let a = chars_of("vips");
    let b = chars_of("libvips");
    starts_with_chars(lower.as_slice(), a.as_slice()) || starts_with_chars(
        lower.as_slice(),
        b.as_slice(),
    )
}


/// Where the install folders are looked for: every one of `ProgramFiles`,
/// `ProgramFiles(x86)`, `LOCALAPPDATA` and `USERPROFILE` that is set gives
/// itself and its `Programs` folder, in that order and right after the
/// folders of the variables before it; the drive folders come last, after
/// everything the environment named.
pub proof fn lemma_install_roots_in_order(
    program_files: Option<Seq<char>>,
    program_files_x86: Option<Seq<char>>,
    local_app_data: Option<Seq<char>>,
    user_profile: Option<Seq<char>>,
    chocolatey: Option<Seq<char>>,
)
    ensures
        ({
            let r = well_known_roots_spec(
                program_files,
                program_files_x86,
                local_app_data,
                user_profile,
                chocolatey,
            );
            let k1: int = if program_files is Some { 2 } else { 0 };
            let k2: int = k1 + if program_files_x86 is Some { 2int } else { 0int };
            let k3: int = k2 + if local_app_data is Some { 2int } else { 0int };
            &&& program_files matches Some(b) ==> r[0] == b && r[1] == join(b, "Programs"@)
            &&& program_files_x86 matches Some(b) ==> r[k1] == b && r[k1 + 1] == join(b, "Programs"@)
            &&& local_app_data matches Some(b) ==> r[k2] == b && r[k2 + 1] == join(b, "Programs"@)
            &&& user_profile matches Some(b) ==> r[k3] == b && r[k3 + 1] == join(b, "Programs"@)
            &&& r.len() >= 6
            &&& r[r.len() - 6] == "C:\\"@
            &&& r[r.len() - 3] == "D:\\"@
        }),
{
    let b1 = base_roots(program_files);
    let b2 = base_roots(program_files_x86);
    let b3 = base_roots(local_app_data);
    let b4 = base_roots(user_profile);
    let r = well_known_roots_spec(program_files, program_files_x86, local_app_data, user_profile, chocolatey);
    let head = b1 + b2 + b3 + b4;
    let scoop = match user_profile {
        Some(h) => seq![
            join(join(join(h, "scoop"@), "apps"@), "libvips"@),
            join(join(h, "scoop"@), "shims"@),
        ],
        None => Seq::empty(),
    };
    let choco = match chocolatey {
        Some(c) => seq![join(c, "bin"@)],
        None => Seq::empty(),
    };
    let drives = seq![
        "C:\\"@,
        join("C:\\"@, "Bin"@),
        join("C:\\"@, "tools"@),
        "D:\\"@,
        join("D:\\"@, "Bin"@),
        join("D:\\"@, "tools"@),
    ];
    assert(r =~= head + scoop + choco + drives);
    assert(r[r.len() - 6] == drives[0]);
    assert(r[r.len() - 3] == drives[3]);
    assert(b1.len() == if program_files is Some { 2int } else { 0int });
    assert(b2.len() == if program_files_x86 is Some { 2int } else { 0int });
    assert(b3.len() == if local_app_data is Some { 2int } else { 0int });
    let k1 = b1.len() as int;
    let k2 = k1 + b2.len();
    let k3 = k2 + b3.len();
    if program_files is Some {
        assert(r[0] == b1[0]);
        assert(r[1] == b1[1]);
    }
    if program_files_x86 is Some {
        assert(r[k1] == b2[0]);
        assert(r[k1 + 1] == b2[1]);
    }
    if local_app_data is Some {
        assert(r[k2] == b3[0]);
        assert(r[k2 + 1] == b3[1]);
    }
    if user_profile is Some {
        assert(r[k3] == b4[0]);
        assert(r[k3 + 1] == b4[1]);
    }
}

} // verus!
