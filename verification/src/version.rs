//! Versions of the sidecar: reading and comparing them, and finding the newest
//! release in the release list.

use crate::installer::VersionMetadata;
use crate::text::{
    all_digits, decimal, decimal_value, digit_of, first_index_of, is_digit,
    lemma_decimal_round_trip, lemma_decimal_value_prefix, lemma_decimal_value_step,
    lemma_first_index_of, optional_text, starts_with, u64_to_string,
};
use vstd::prelude::*;
use vstd::string::*;

verus! {

/// A release version: three numbers, compared from the left.
#[derive(Clone, Copy, Debug, PartialEq, Eq)]
pub struct Version {
    pub major: u64,
    pub minor: u64,
    pub patch: u64,
}

/// How a candidate version stands to the installed one.
#[derive(Clone, Copy, Debug, PartialEq, Eq)]
pub enum Comparison {
    /// Both are well formed and the candidate is strictly later.
    Newer,
    /// Both are well formed and the candidate is the same or earlier.
    NotNewer,
    /// One of the two is not a version.
    Unknown,
}

/// What a look at the release list found.
#[derive(Clone, Debug, PartialEq, Eq)]
pub struct UpdateCheck {
    /// The version text of the first release in the namespace, if there is one.
    pub remote_version: Option<String>,
    /// Whether that release should replace what is installed.
    pub update_available: bool,
}

impl Version {
    /// `self` is strictly later than `other`: the first number that differs is larger.
    pub open spec fn later_than(self, other: Version) -> bool {
        self.major > other.major || (self.major == other.major && self.minor > other.minor) || (
        self.major == other.major && self.minor == other.minor && self.patch > other.patch)
    }

    /// The usual writing: the three numbers in base ten, with dots between.
    pub open spec fn text(self) -> Seq<char> {
        decimal(self.major as nat) + seq!['.'] + decimal(self.minor as nat) + seq!['.'] + decimal(
            self.patch as nat,
        )
    }

    /// Whether this version is strictly later than `other`.
    pub fn is_later_than(&self, other: &Version) -> (r: bool)
        ensures
            r == self.later_than(*other),
    {
        if self.major != other.major {
            self.major > other.major
        } else if self.minor != other.minor {
            self.minor > other.minor
        } else {
            self.patch > other.patch
        }
    }

    /// Writes the version as text.
    pub fn render(&self) -> (s: String)
        ensures
            s@ == self.text(),
    {
        proof {
            reveal_strlit(".");
        }
        let mut s = u64_to_string(self.major);
        s.append(".");
        s.append(u64_to_string(self.minor).as_str());
        s.append(".");
        s.append(u64_to_string(self.patch).as_str());
        s
    }
}

/// The number that `s` writes: `s` is one or more digits, and the number fits 64 bits.
pub open spec fn number_of(s: Seq<char>) -> Option<u64> {
    if s.len() > 0 && all_digits(s) && decimal_value(s) <= u64::MAX {
        Some(decimal_value(s) as u64)
    } else {
        None
    }
}

/// The version that `s` writes. The text before the first dot is the major number, the
/// text between the first and the second dot the minor number, and all that follows
/// the second dot the patch number; each must be a number by `number_of`.
pub open spec fn version_of(s: Seq<char>) -> Option<Version> {
    let i = first_index_of(s, '.');
    let rest = s.skip(i + 1);
    let j = first_index_of(rest, '.');
    if i < s.len() && j < rest.len() {
        match (number_of(s.take(i)), number_of(rest.take(j)), number_of(rest.skip(j + 1))) {
            (Some(major), Some(minor), Some(patch)) => Some(Version { major, minor, patch }),
            _ => None,
        }
    } else {
        None
    }
}

/// How `candidate` stands to `installed`, both given as text.
pub open spec fn comparison_of(candidate: Seq<char>, installed: Seq<char>) -> Comparison {
    match (version_of(candidate), version_of(installed)) {
        (Some(c), Some(i)) => if c.later_than(i) {
            Comparison::Newer
        } else {
            Comparison::NotNewer
        },
        _ => Comparison::Unknown,
    }
}

/// Whether the remote version should replace the local one: the remote version is
/// well formed, and either nothing is installed or the remote one is newer.
pub open spec fn update_due(remote: Option<Seq<char>>, local: Option<Seq<char>>) -> bool {
    match remote {
        None => false,
        Some(r) => version_of(r) is Some && match local {
            None => true,
            Some(l) => comparison_of(r, l) == Comparison::Newer,
        },
    }
}

/// The position of the first `c` in `s`, or the length of `s` where there is none.
pub fn find_char(s: &str, c: char) -> (k: usize)
    ensures
        k == first_index_of(s@, c),
        k <= s@.len(),
{
    let n: usize = s.unicode_len();
    let mut i: usize = 0;
    while i < n
        invariant
            i <= n,
            n == s@.len(),
            forall|j: int| 0 <= j < i ==> s@[j] != c,
        decreases n - i,
    {
        if s.get_char(i) == c {
            proof {
                lemma_first_index_of(s@, c, i as int);
            }
            return i;
        }
        i += 1;
    }
    proof {
        lemma_first_index_of(s@, c, n as int);
    }
    n
}

/// Reads a number written in decimal digits.
pub fn parse_number(s: &str) -> (r: Option<u64>)
    ensures
        r == number_of(s@),
{
    let n: usize = s.unicode_len();
    if n == 0 {
        return None;
    }
    let mut value: u64 = 0;
    let mut i: usize = 0;
    while i < n
        invariant
            i <= n,
            n == s@.len(),
            forall|j: int| 0 <= j < i ==> is_digit(#[trigger] s@[j]),
            value == decimal_value(s@.take(i as int)),
        decreases n - i,
    {
        let c = s.get_char(i);
        match digit_of(c) {
            None => {
                return None;
            },
            Some(d) => {
                proof {
                    lemma_decimal_value_step(s@, i as int);
                    lemma_decimal_value_prefix(s@, i + 1);
                }
                if value > (u64::MAX - d) / 10 {
                    return None;
                }
                value = value * 10 + d;
            },
        }
        i += 1;
    }
    assert(s@.take(n as int) =~= s@);
    Some(value)
}

/// Reads a version of the form `major.minor.patch`.
pub fn parse_version(s: &str) -> (r: Option<Version>)
    ensures
        r == version_of(s@),
{
    let n: usize = s.unicode_len();
    let i: usize = find_char(s, '.');
    if i >= n {
        return None;
    }
    let head = s.substring_char(0, i);
    let rest = s.substring_char(i + 1, n);
    let m: usize = rest.unicode_len();
    let j: usize = find_char(rest, '.');
    if j >= m {
        return None;
    }
    let middle = rest.substring_char(0, j);
    let tail = rest.substring_char(j + 1, m);
    let major = parse_number(head);
    let minor = parse_number(middle);
    let patch = parse_number(tail);
    match (major, minor, patch) {
        (Some(major), Some(minor), Some(patch)) => Some(Version { major, minor, patch }),
        _ => None,
    }
}

/// Compares two version texts: whether `candidate` is newer than `installed`, or
/// `Unknown` where either is malformed.
pub fn compare(candidate: &str, installed: &str) -> (r: Comparison)
    ensures
        r == comparison_of(candidate@, installed@),
{
    match (parse_version(candidate), parse_version(installed)) {
        (Some(c), Some(i)) => {
            if c.is_later_than(&i) {
                Comparison::Newer
            } else {
                Comparison::NotNewer
            }
        },
        _ => Comparison::Unknown,
    }
}


/// The prefix by which a release tag is told to be one of the sidecar's.
pub open spec fn release_namespace() -> Seq<char> {
    "llm-v"@
}

/// The version text of the first tag that lies in the sidecar's namespace: what
/// follows the namespace's prefix in that tag.
pub open spec fn first_release(tags: Seq<String>) -> Option<Seq<char>>
    decreases tags.len(),
{
    if tags.len() == 0 {
        None
    } else if release_namespace().is_prefix_of(tags[0]@) {
        Some(tags[0]@.skip(release_namespace().len() as int))
    } else {
        first_release(tags.drop_first())
    }
}

/// Whether the remote version should replace the local one.
pub fn update_available(remote: Option<&str>, local: Option<&str>) -> (due: bool)
    ensures
        due == update_due(
            match remote {
                Some(r) => Some(r@),
                None => None,
            },
            match local {
                Some(l) => Some(l@),
                None => None,
            },
        ),
{
    match remote {
        None => false,
        Some(r) => match parse_version(r) {
            None => false,
            Some(candidate) => match local {
                None => true,
                Some(l) => match parse_version(l) {
                    None => false,
                    Some(installed) => candidate.is_later_than(&installed),
                },
            },
        },
    }
}

/// Finds the version text of the first release in the sidecar's namespace. `tags`
/// are the tags of the release list, in the list's order.
pub fn latest_release(tags: &Vec<String>) -> (version: Option<String>)
    ensures
        optional_text(version) == first_release(tags@),
{
    let mut k: usize = 0;
    assert(tags@.skip(0) =~= tags@);
    while k < tags.len()
        invariant
            k <= tags@.len(),
            first_release(tags@) == first_release(tags@.skip(k as int)),
        decreases tags@.len() - k,
    {
        let tag = tags[k].as_str();
        proof {
            reveal_strlit("llm-v");
            assert(tags@.skip(k as int).drop_first() =~= tags@.skip(k + 1));
        }
        if starts_with(tag, "llm-v") {
            let n: usize = tag.unicode_len();
            let text = tag.substring_char(5, n);
            return Some(String::from_str(text));
        }
        k += 1;
    }
    None
}

/// The version that is recorded as installed, if any is.
pub open spec fn installed_version(installed: Option<VersionMetadata>) -> Option<Seq<char>> {
    match installed {
        Some(metadata) => Some(metadata.version@),
        None => None,
    }
}

/// Looks for an update in the release list: finds the first release of the
/// sidecar and holds its version against the one that is recorded as installed.
pub fn check_for_update(tags: &Vec<String>, installed: &Option<VersionMetadata>) -> (check:
    UpdateCheck)
    ensures
        optional_text(check.remote_version) == first_release(tags@),
        check.update_available == update_due(first_release(tags@), installed_version(*installed)),
{
    let remote_version = latest_release(tags);
    let local = match installed {
        Some(metadata) => Some(metadata.version.as_str()),
        None => None,
    };
    let due = match &remote_version {
        Some(r) => update_available(Some(r.as_str()), local),
        None => update_available(None, local),
    };
    UpdateCheck { remote_version, update_available: due }
}

/// A malformed version never leads to an update: where either text is no
/// version, the comparison is unknown and no update is due.
pub proof fn lemma_malformed_is_no_update(candidate: Seq<char>, installed: Seq<char>)
    requires
        version_of(candidate) is None || version_of(installed) is None,
    ensures
        comparison_of(candidate, installed) == Comparison::Unknown,
        !update_due(Some(candidate), Some(installed)),
        version_of(candidate) is None ==> !update_due(Some(candidate), None),
{
}

/// Between two well-formed versions an update is due exactly when the candidate is
/// later, and a version is never later than itself nor both later and earlier
/// than another.
pub proof fn lemma_later_than_is_strict(a: Version, b: Version, c: Version)
    ensures
        !a.later_than(a),
        a.later_than(b) ==> !b.later_than(a),
        a.later_than(b) && b.later_than(c) ==> a.later_than(c),
        a.later_than(b) || b.later_than(a) || a == b,
{
}


/// In a text that begins with digits and then has a dot, the first dot is the one
/// after the digits.
proof fn lemma_dot_after_digits(digits: Seq<char>, rest: Seq<char>)
    requires
        all_digits(digits),
    ensures
        first_index_of(digits + seq!['.'] + rest, '.') == digits.len(),
        (digits + seq!['.'] + rest).take(digits.len() as int) == digits,
        (digits + seq!['.'] + rest).skip(digits.len() as int + 1) == rest,
{
    let text = digits + seq!['.'] + rest;
    lemma_first_index_of(text, '.', digits.len() as int);
}

/// What `render` writes, `parse_version` reads back: the text of a version is the
/// text of that version and of no other.
pub proof fn lemma_text_reads_back(version: Version)
    ensures
        version_of(version.text()) == Some(version),
{
    let major = decimal(version.major as nat);
    let minor = decimal(version.minor as nat);
    let patch = decimal(version.patch as nat);
    lemma_decimal_round_trip(version.major as nat);
    lemma_decimal_round_trip(version.minor as nat);
    lemma_decimal_round_trip(version.patch as nat);
    let rest = minor + seq!['.'] + patch;
    assert(version.text() =~= major + seq!['.'] + rest);
    lemma_dot_after_digits(major, rest);
    lemma_dot_after_digits(minor, patch);
}

/// A version is later than another exactly when its text compares as newer.
pub proof fn lemma_compare_agrees_with_order(candidate: Version, installed: Version)
    ensures
        comparison_of(candidate.text(), installed.text()) == if candidate.later_than(installed) {
            Comparison::Newer
        } else {
            Comparison::NotNewer
        },
{
    lemma_text_reads_back(candidate);
    lemma_text_reads_back(installed);
}

} // verus!
