use crate::error::SetVersionError;
use std::cmp::Ordering;
use vstd::prelude::*;

verus! {

/// A semantic version: three numbers, then pre-release and build texts,
/// each empty when absent.
#[derive(Debug)]
pub struct Version {
    pub major: u64,
    pub minor: u64,
    pub patch: u64,
    pub pre: String,
    pub build: String,
}

/// The mathematical value of a [`Version`].
pub struct VersionView {
    pub major: nat,
    pub minor: nat,
    pub patch: nat,
    pub pre: Seq<char>,
    pub build: Seq<char>,
}

impl View for Version {
    type V = VersionView;

    open spec fn view(&self) -> VersionView {
        VersionView {
            major: self.major as nat,
            minor: self.minor as nat,
            patch: self.patch as nat,
            pre: self.pre@,
            build: self.build@,
        }
    }
}

pub open spec fn digit_char(d: nat) -> char {
    if d == 0 { '0' }
    else if d == 1 { '1' }
    else if d == 2 { '2' }
    else if d == 3 { '3' }
    else if d == 4 { '4' }
    else if d == 5 { '5' }
    else if d == 6 { '6' }
    else if d == 7 { '7' }
    else if d == 8 { '8' }
    else { '9' }
}

/// The decimal digits of `n`, most significant first, with no leading zero.
pub open spec fn decimal(n: nat) -> Seq<char>
    decreases n,
{
    if n < 10 {
        seq![digit_char(n)]
    } else {
        decimal(n / 10).push(digit_char(n % 10))
    }
}

/// `-tag` for a non-empty tag, nothing for an empty one.
pub open spec fn suffix(sep: char, tag: Seq<char>) -> Seq<char> {
    if tag.len() == 0 {
        Seq::empty()
    } else {
        seq![sep] + tag
    }
}

impl VersionView {
    /// The usual written form: `major.minor.patch[-pre][+build]`.
    pub open spec fn text(self) -> Seq<char> {
        decimal(self.major) + seq!['.'] + decimal(self.minor) + seq!['.'] + decimal(self.patch)
            + suffix('-', self.pre) + suffix('+', self.build)
    }
}

/// Whether pre-release tag `a` ranks above tag `b`. Equal tags rank alike; a
/// release (empty tag) ranks above any pre-release; two pre-release tags are
/// ranked by semver.
pub open spec fn pre_above(a: Seq<char>, b: Seq<char>) -> bool {
    if a == b {
        false
    } else if a.len() == 0 {
        true
    } else if b.len() == 0 {
        false
    } else {
        prerelease_precedence(a, b) == Some(Ordering::Greater)
    }
}

/// Semantic-version precedence: `a` is strictly above `b`. Major, then minor,
/// then patch, then the pre-release tag decide; build metadata does not count.
pub open spec fn above(a: VersionView, b: VersionView) -> bool {
    ||| a.major > b.major
    ||| a.major == b.major && a.minor > b.minor
    ||| a.major == b.major && a.minor == b.minor && a.patch > b.patch
    ||| a.major == b.major && a.minor == b.minor && a.patch == b.patch && pre_above(a.pre, b.pre)
}

/// What semver makes of a text: the version it reads, or `None` where it
/// refuses the text.
pub uninterp spec fn semver_parsed(s: Seq<char>) -> Option<VersionView>;

/// How semver ranks two pre-release tags, or `None` where it refuses one.
pub uninterp spec fn prerelease_precedence(a: Seq<char>, b: Seq<char>) -> Option<Ordering>;

/// Relies on semver::Version::parse. Its grammar refuses leading zeros in the
/// three numbers and keeps the pre-release and build texts as written, so the
/// text it accepts is the written form of the version it returns. The error
/// is semver's own message.
#[verifier::external_body]
fn semver_parse(text: &str) -> (r: Result<Version, String>)
    ensures
        match r {
            Ok(v) => semver_parsed(text@) == Some(v@) && v@.text() == text@,
            Err(_) => semver_parsed(text@) is None,
        },
{
    match semver::Version::parse(text) {
        Ok(v) => Ok(Version {
            major: v.major,
            minor: v.minor,
            patch: v.patch,
            pre: v.pre.as_str().to_string(),
            build: v.build.as_str().to_string(),
        }),
        Err(e) => Err(e.to_string()),
    }
}

/// Relies on semver::Prerelease::new, which checks a pre-release tag, and on
/// semver's `Ord` for `Prerelease`, which ranks two tags.
#[verifier::external_body]
fn compare_prerelease(a: &str, b: &str) -> (r: Option<Ordering>)
    ensures
        r == prerelease_precedence(a@, b@),
{
    match (semver::Prerelease::new(a), semver::Prerelease::new(b)) {
        (Ok(x), Ok(y)) => Some(x.cmp(&y)),
        _ => None,
    }
}

fn digit_text(d: u64) -> (r: &'static str)
    requires
        d < 10,
    ensures
        r@ == seq![digit_char(d as nat)],
{
    if d == 0 {
        proof { reveal_strlit("0"); }
        "0"
    } else if d == 1 {
        proof { reveal_strlit("1"); }
        "1"
    } else if d == 2 {
        proof { reveal_strlit("2"); }
        "2"
    } else if d == 3 {
        proof { reveal_strlit("3"); }
        "3"
    } else if d == 4 {
        proof { reveal_strlit("4"); }
        "4"
    } else if d == 5 {
        proof { reveal_strlit("5"); }
        "5"
    } else if d == 6 {
        proof { reveal_strlit("6"); }
        "6"
    } else if d == 7 {
        proof { reveal_strlit("7"); }
        "7"
    } else if d == 8 {
        proof { reveal_strlit("8"); }
        "8"
    } else {
        proof { reveal_strlit("9"); }
        "9"
    }
}

fn push_decimal(s: &mut String, n: u64)
    ensures
        final(s)@ == old(s)@ + decimal(n as nat),
    decreases n,
{
    if n >= 10 {
        push_decimal(s, n / 10);
    }
    s.append(digit_text(n % 10));
    proof {
        if n >= 10 {
            assert(decimal(n as nat) == decimal((n / 10) as nat).push(digit_char((n % 10) as nat)));
        }
        assert(final(s)@ =~= old(s)@ + decimal(n as nat));
    }
}

fn push_suffix(s: &mut String, sep: &str, tag: &str)
    requires
        sep@.len() == 1,
    ensures
        final(s)@ == old(s)@ + suffix(sep@[0], tag@),
{
    if !tag.is_empty() {
        s.append(sep);
        s.append(tag);
        assert(final(s)@ =~= old(s)@ + suffix(sep@[0], tag@));
    } else {
        assert(final(s)@ =~= old(s)@ + suffix(sep@[0], tag@));
    }
}

impl Version {
    /// The release `major.minor.patch`, with no pre-release or build text.
    pub fn new(major: u64, minor: u64, patch: u64) -> (r: Version)
        ensures
            r@ == (VersionView { major: major as nat, minor: minor as nat, patch: patch as nat, pre: Seq::empty(), build: Seq::empty() }),
    {
        Version { major, minor, patch, pre: String::new(), build: String::new() }
    }

    /// The written form, as semver displays it.
    pub fn to_text(&self) -> (r: String)
        ensures
            r@ == self@.text(),
    {
        let mut s = String::new();
        push_decimal(&mut s, self.major);
        proof { reveal_strlit("."); reveal_strlit("-"); reveal_strlit("+"); }
        s.append(".");
        push_decimal(&mut s, self.minor);
        s.append(".");
        push_decimal(&mut s, self.patch);
        push_suffix(&mut s, "-", self.pre.as_str());
        push_suffix(&mut s, "+", self.build.as_str());
        assert(s@ =~= self@.text());
        s
    }

    /// Whether this version ranks strictly above `other`.
    pub fn is_above(&self, other: &Version) -> (r: bool)
        ensures
            r == above(self@, other@),
    {
        if self.major != other.major {
            return self.major > other.major;
        }
        if self.minor != other.minor {
            return self.minor > other.minor;
        }
        if self.patch != other.patch {
            return self.patch > other.patch;
        }
        if self.pre == other.pre {
            false
        } else if self.pre.as_str().is_empty() {
            true
        } else if other.pre.as_str().is_empty() {
            false
        } else {
            match compare_prerelease(self.pre.as_str(), other.pre.as_str()) {
                Some(Ordering::Greater) => true,
                _ => false,
            }
        }
    }
}

/// Reads the version the user asked for.
pub fn parse_new_version(input: &str) -> (r: Result<Version, SetVersionError>)
    ensures
        match r {
            Ok(v) => semver_parsed(input@) == Some(v@) && v@.text() == input@,
            Err(e) => semver_parsed(input@) is None && (e matches SetVersionError::InvalidVersion {
                input: i,
                ..
            } && i@ == input@),
        },
{
    match semver_parse(input) {
        Ok(v) => Ok(v),
        Err(reason) => Err(SetVersionError::InvalidVersion { input: input.to_string(), reason }),
    }
}

/// Succeeds exactly when `new` ranks strictly above `current`; otherwise the
/// error names both versions and the package.
pub fn ensure_version_increase(new: &Version, current: &Version, package_name: &str) -> (r: Result<(), SetVersionError>)
    ensures
        r is Ok <==> above(new@, current@),
        r matches Err(e) ==> (e matches SetVersionError::NotIncreasing { new: n, current: c, package: p }
            && n@ == new@.text() && c@ == current@.text() && p@ == package_name@),
{
    if new.is_above(current) {
        Ok(())
    } else {
        Err(SetVersionError::NotIncreasing {
            new: new.to_text(),
            current: current.to_text(),
            package: package_name.to_string(),
        })
    }
}

/// Reading a version back from its written form gives the same version:
/// where semver reads `v` from `s` and `s` is the written form of `v` (both
/// of which [`parse_new_version`] promises of what it returns), semver reads
/// `v` again from the written form of `v`.
pub proof fn lemma_parse_round_trip(s: Seq<char>, v: VersionView)
    requires
        semver_parsed(s) == Some(v),
        v.text() == s,
    ensures
        semver_parsed(v.text()) == Some(v),
{
}

/// No version ranks above itself, so asking again for the version that a
/// run has just set is refused.
pub proof fn lemma_not_above_itself(v: VersionView)
    ensures
        !above(v, v),
{
}

} // verus!
