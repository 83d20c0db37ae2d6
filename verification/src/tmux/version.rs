//! Tmux version checks.
use crate::text::{parse_usize, parse_usize_spec};
use std::cmp::Ordering;
use vstd::prelude::*;
use vstd::std_specs::cmp::PartialOrdSpec;

verus! {

/// The pattern that finds `major.minor` in what tmux reports as its version.
pub const VERSION_PATTERN: &'static str = r"(?P<major>\d+)\.(?P<minor>\d+)";

/// Represents the tmux version.
///
/// When tmux does not report a version, or the report holds no `major.minor`,
/// the version is [`TmuxVersion::Max`], which is above every numbered version.
#[derive(Debug, Clone, Copy, PartialEq, Eq, Structural)]
pub enum TmuxVersion {
    Max,
    Version(usize, usize),
}

/// What the `regex` crate captures when it searches `text` for `pattern`: nothing when
/// the pattern does not compile or matches nowhere, else the text of each group of the
/// leftmost match, the whole match first, with `None` for a group that took no part.
pub uninterp spec fn regex_captures(pattern: Seq<char>, text: Seq<char>) -> Option<
    Seq<Option<Seq<char>>>,
>;

/// Calls `regex::Regex::new` on `pattern` and `Regex::captures` on `text`.
/// Trusted: the result is what [`regex_captures`] names; nothing more is claimed of it.
#[verifier::external_body]
fn captures(pattern: &str, text: &str) -> (groups: Option<Vec<Option<String>>>)
    ensures
        groups.deep_view() == regex_captures(pattern@, text@),
{
    let re = regex::Regex::new(pattern).ok()?;
    let found = re.captures(text)?;
    Some(found.iter().map(|g| g.map(|m| m.as_str().to_owned())).collect())
}

/// The number in capture group `i`: 0 when the group is missing, took no part,
/// or does not read as a `usize`.
pub open spec fn group_number(groups: Seq<Option<Seq<char>>>, i: int) -> usize {
    if 0 <= i < groups.len() {
        match groups[i] {
            Some(digits) => match parse_usize_spec(digits) {
                Some(n) => n,
                None => 0,
            },
            None => 0,
        }
    } else {
        0
    }
}

/// The version that a search for [`VERSION_PATTERN`] stands for: `Max` when nothing
/// was found, else the numbers of the first and the second group.
pub open spec fn version_of_captures(groups: Option<Seq<Option<Seq<char>>>>) -> TmuxVersion {
    match groups {
        None => TmuxVersion::Max,
        Some(found) => TmuxVersion::Version(group_number(found, 1), group_number(found, 2)),
    }
}

/// The version that tmux's report stands for; `None` is a tmux that reports none.
pub open spec fn version_of_report(report: Option<Seq<char>>) -> TmuxVersion {
    match report {
        None => TmuxVersion::Max,
        Some(text) => version_of_captures(regex_captures(VERSION_PATTERN@, text)),
    }
}

fn number_of_group(groups: &Vec<Option<String>>, i: usize) -> (n: usize)
    ensures
        n == group_number(groups.deep_view(), i as int),
{
    if i < groups.len() {
        match &groups[i] {
            Some(digits) => match parse_usize(digits.as_str()) {
                Some(n) => n,
                None => 0,
            },
            None => 0,
        }
    } else {
        0
    }
}

impl TmuxVersion {
    /// The version for the groups that a search for [`VERSION_PATTERN`] captured.
    pub fn from_captures(groups: &Option<Vec<Option<String>>>) -> (version: TmuxVersion)
        ensures
            version == version_of_captures(groups.deep_view()),
    {
        match groups {
            None => TmuxVersion::Max,
            Some(found) => TmuxVersion::Version(
                number_of_group(found, 1),
                number_of_group(found, 2),
            ),
        }
    }

    /// True when `self` is strictly older than `other`.
    pub open spec fn older_than(self, other: TmuxVersion) -> bool {
        match (self, other) {
            (TmuxVersion::Version(x1, x2), TmuxVersion::Version(y1, y2)) => x1 < y1 || (x1 == y1
                && x2 < y2),
            (TmuxVersion::Version(_, _), TmuxVersion::Max) => true,
            (TmuxVersion::Max, _) => false,
        }
    }

    /// True when `self` is `other` or newer.
    pub fn at_least(&self, other: &TmuxVersion) -> (result: bool)
        ensures
            result == !self.older_than(*other),
    {
        match (self, other) {
            (TmuxVersion::Version(x1, x2), TmuxVersion::Version(y1, y2)) => !(*x1 < *y1 || (*x1
                == *y1 && *x2 < *y2)),
            (TmuxVersion::Version(_, _), TmuxVersion::Max) => false,
            (TmuxVersion::Max, _) => true,
        }
    }
}

impl<'a> From<Option<&'a str>> for TmuxVersion {
    /// Reads the version out of tmux's report.
    fn from(value: Option<&'a str>) -> (version: Self) {
        match value {
            None => TmuxVersion::Max,
            Some(text) => {
                let groups = captures(VERSION_PATTERN, text);
                TmuxVersion::from_captures(&groups)
            },
        }
    }
}

impl<'a> vstd::std_specs::convert::FromSpecImpl<Option<&'a str>> for TmuxVersion {
    open spec fn obeys_from_spec() -> bool {
        true
    }

    open spec fn from_spec(value: Option<&'a str>) -> Self {
        version_of_report(value.deep_view())
    }
}

impl PartialOrd for TmuxVersion {
    fn partial_cmp(&self, other: &Self) -> (result: Option<Ordering>) {
        match (self, other) {
            (TmuxVersion::Max, TmuxVersion::Max) => Some(Ordering::Equal),
            (TmuxVersion::Max, TmuxVersion::Version(_, _)) => Some(Ordering::Greater),
            (TmuxVersion::Version(_, _), TmuxVersion::Max) => Some(Ordering::Less),
            (TmuxVersion::Version(x1, x2), TmuxVersion::Version(y1, y2)) => {
                if *x1 < *y1 {
                    Some(Ordering::Less)
                } else if *x1 > *y1 {
                    Some(Ordering::Greater)
                } else if *x2 < *y2 {
                    Some(Ordering::Less)
                } else if *x2 > *y2 {
                    Some(Ordering::Greater)
                } else {
                    Some(Ordering::Equal)
                }
            },
        }
    }
}

impl vstd::std_specs::cmp::PartialOrdSpecImpl for TmuxVersion {
    open spec fn obeys_partial_cmp_spec() -> bool {
        true
    }

    open spec fn partial_cmp_spec(&self, other: &Self) -> Option<Ordering> {
        if self.older_than(*other) {
            Some(Ordering::Less)
        } else if other.older_than(*self) {
            Some(Ordering::Greater)
        } else {
            Some(Ordering::Equal)
        }
    }
}

/// Numbered versions are ordered as dotted pairs, first by the major and then by the
/// minor number; `Max` is above every numbered version and equal to itself.
pub proof fn lemma_version_order(a: usize, b: usize, c: usize, d: usize)
    ensures
        TmuxVersion::Version(a, b).partial_cmp_spec(&TmuxVersion::Version(c, d)) == Some(
            if a < c || (a == c && b < d) {
                Ordering::Less
            } else if a == c && b == d {
                Ordering::Equal
            } else {
                Ordering::Greater
            },
        ),
        TmuxVersion::Max.partial_cmp_spec(&TmuxVersion::Version(a, b)) == Some(Ordering::Greater),
        TmuxVersion::Version(a, b).partial_cmp_spec(&TmuxVersion::Max) == Some(Ordering::Less),
        TmuxVersion::Max.partial_cmp_spec(&TmuxVersion::Max) == Some(Ordering::Equal),
{
}

} // verus!
