//! Release versions: the numeric triple read from a release tag, its
//! ordering, and the coercion that pads a short tag to three components.
use vstd::prelude::*;

verus! {

/// A release version as the three numeric components of a semantic version.
/// Pre-release and build metadata play no part in the update rules.
#[derive(Clone, Copy, PartialEq, Eq, Structural, Debug)]
pub struct Version {
    pub major: u64,
    pub minor: u64,
    pub patch: u64,
}

impl Version {
    /// Strict ordering of versions, component by component.
    pub open spec fn spec_lt(self, other: Version) -> bool {
        ||| self.major < other.major
        ||| (self.major == other.major && self.minor < other.minor)
        ||| (self.major == other.major && self.minor == other.minor && self.patch < other.patch)
    }

    pub fn new(major: u64, minor: u64, patch: u64) -> (v: Version)
        ensures
            v == (Version { major, minor, patch }),
    {
        Version { major, minor, patch }
    }

    /// True when `self` is strictly newer than `other`.
    pub fn newer_than(&self, other: &Version) -> (r: bool)
        ensures
            r == other.spec_lt(*self),
    {
        if self.major != other.major {
            self.major > other.major
        } else if self.minor != other.minor {
            self.minor > other.minor
        } else {
            self.patch > other.patch
        }
    }
}

/// How many dots a tag contains.
pub open spec fn dot_count(s: Seq<char>) -> nat
    decreases s.len(),
{
    if s.len() == 0 {
        0
    } else {
        (if s.first() == '.' {
            1nat
        } else {
            0nat
        }) + dot_count(s.drop_first())
    }
}

/// The padding appended to a short tag, once per missing dot.
pub open spec fn pad_zero() -> Seq<char> {
    seq!['.', '0']
}

/// A tag with fewer than two dot separators is padded with `.0` until it has
/// three components; a full tag is left alone.
pub open spec fn coerced_tag(s: Seq<char>) -> Seq<char> {
    if dot_count(s) >= 2 {
        s
    } else if dot_count(s) == 1 {
        s + pad_zero()
    } else {
        s + pad_zero() + pad_zero()
    }
}

/// Counts the dots of a tag.
pub fn count_dots(s: &str) -> (r: usize)
    ensures
        r == dot_count(s@),
{
    let len = s.unicode_len();
    let mut i: usize = 0;
    let mut count: usize = 0;
    proof {
        assert(s@.skip(0) == s@);
        lemma_dot_count_bound(s@);
    }
    while i < len
        invariant
            len == s@.len(),
            i <= len,
            dot_count(s@) == count + dot_count(s@.skip(i as int)),
            count <= i,
            dot_count(s@) <= usize::MAX,
        decreases len - i,
    {
        proof {
            assert(s@.skip(i as int).drop_first() == s@.skip(i + 1));
            lemma_dot_count_bound(s@.skip(i as int));
        }
        if s.get_char(i) == '.' {
            count += 1;
        }
        i += 1;
    }
    count
}

/// A tag has no more dots than characters.
proof fn lemma_dot_count_bound(s: Seq<char>)
    ensures
        dot_count(s) <= s.len(),
    decreases s.len(),
{
    if s.len() > 0 {
        lemma_dot_count_bound(s.drop_first());
    }
}

/// Pads a release tag to three dotted components, as [`coerced_tag`] says.
pub fn coerce_version_tag(tag: &str) -> (r: String)
    ensures
        r@ == coerced_tag(tag@),
{
    proof {
        reveal_strlit(".0");
        assert(".0"@ =~= pad_zero());
    }
    let dots = count_dots(tag);
    let mut out = tag.to_owned();
    if dots < 2 {
        out.append(".0");
    }
    if dots == 0 {
        out.append(".0");
    }
    out
}

/// The numeric triple that semantic-version parsing reads out of a piece of
/// text, or nothing where the text is not a well-formed version. The triple
/// depends on the text alone.
pub uninterp spec fn semver_triple_of(s: Seq<char>) -> Option<(u64, u64, u64)>;

/// Relies on `semver::Version::parse` for the semantic-version grammar; only
/// the three numeric components are kept.
#[verifier::external_body]
fn parse_semver(s: &str) -> (r: Option<Version>)
    ensures
        match semver_triple_of(s@) {
            Some(t) => r == Some(Version { major: t.0, minor: t.1, patch: t.2 }),
            None => r is None,
        },
{
    match semver::Version::parse(s) {
        Ok(v) => Some(Version { major: v.major, minor: v.minor, patch: v.patch }),
        Err(_) => None,
    }
}

/// Reads a piece of text as a semantic version, with no padding.
pub fn parse_semver_text(s: &str) -> (r: Option<Version>)
    ensures
        match semver_triple_of(s@) {
            Some(t) => r == Some(Version { major: t.0, minor: t.1, patch: t.2 }),
            None => r is None,
        },
{
    parse_semver(s)
}

/// The version a release tag denotes: the tag is padded to three components
/// and then read as a semantic version.
pub open spec fn spec_tag_version(s: Seq<char>) -> Option<Version> {
    match semver_triple_of(coerced_tag(s)) {
        Some(t) => Some(Version { major: t.0, minor: t.1, patch: t.2 }),
        None => None,
    }
}

/// Reads a release tag, padding it first as [`coerced_tag`] says.
pub fn parse_version_tag(tag: &str) -> (r: Option<Version>)
    ensures
        r == spec_tag_version(tag@),
{
    let coerced = coerce_version_tag(tag);
    parse_semver(coerced.as_str())
}

} // verus!
