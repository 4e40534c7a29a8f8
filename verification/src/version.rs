//! Version resolution: filters a remote index listing down to version
//! candidates and selects the maximum under a semantic-version-style
//! ordering. Entries that do not parse as `major.minor.patch` are
//! ordered as the lowest possible version rather than rejected.
//!
//! Fetching and parsing the index listing itself is the embedding
//! program's concern; resolution here is a pure function of the listed
//! entries.

use vstd::prelude::*;

verus! {

use crate::VersionSelection;
use crate::text::{contains_seq, str_contains, str_eq};

/// Resolution failure: the index listing held no usable candidate.
#[derive(Clone, Copy, PartialEq, Eq, Structural, Debug)]
pub enum ResolutionError {
    NoVersionsFound,
}

/// A decimal digit character.
pub open spec fn spec_is_digit(c: char) -> bool {
    c == '0' || c == '1' || c == '2' || c == '3' || c == '4' || c == '5' || c == '6' || c == '7'
        || c == '8' || c == '9'
}

/// The numeric value of a digit character (zero on any other character).
pub open spec fn spec_digit_val(c: char) -> nat {
    if c == '1' {
        1
    } else if c == '2' {
        2
    } else if c == '3' {
        3
    } else if c == '4' {
        4
    } else if c == '5' {
        5
    } else if c == '6' {
        6
    } else if c == '7' {
        7
    } else if c == '8' {
        8
    } else if c == '9' {
        9
    } else {
        0
    }
}

/// Length of the run of digit characters starting at position `i`.
pub open spec fn run_len(s: Seq<char>, i: int) -> int
    decreases s.len() - i
        when 0 <= i <= s.len()
{
    if i < s.len() && spec_is_digit(s[i]) {
        1 + run_len(s, i + 1)
    } else {
        0
    }
}

/// One decimal step, saturating at the largest `u64` value.
pub open spec fn spec_sat_push(v: nat, d: nat) -> nat {
    if v * 10 + d > u64::MAX {
        u64::MAX as nat
    } else {
        v * 10 + d
    }
}

/// The saturating decimal value of the digit characters `s[i..j]`.
pub open spec fn sat_num_val(s: Seq<char>, i: int, j: int) -> nat
    decreases j - i
        when i <= j
{
    if i < j {
        spec_sat_push(sat_num_val(s, i, j - 1), spec_digit_val(s[j - 1]))
    } else {
        0
    }
}

/// The digit run starting at `i` never runs past the end of `s`.
proof fn lemma_run_len_bounds(s: Seq<char>, i: int)
    requires
        0 <= i <= s.len(),
    ensures
        0 <= run_len(s, i) <= s.len() - i,
    decreases s.len() - i,
{
    if i < s.len() && spec_is_digit(s[i]) {
        lemma_run_len_bounds(s, i + 1);
    }
}

/// A maximal digit interval `[start, end)` is exactly the digit run at
/// `start`.
proof fn lemma_run_len_interval(s: Seq<char>, start: int, end: int)
    requires
        0 <= start <= end <= s.len(),
        forall|k: int| start <= k < end ==> spec_is_digit(s[k]),
        end == s.len() || !spec_is_digit(s[end]),
    ensures
        run_len(s, start) == end - start,
    decreases end - start,
{
    if start < end {
        lemma_run_len_interval(s, start + 1, end);
    }
}

/// The value of a digit (zero for any other character), as a machine
/// integer.
fn digit_of(c: char) -> (r: Option<u64>)
    ensures
        r matches Some(d) ==> spec_is_digit(c) && d as nat == spec_digit_val(c),
        r is None ==> !spec_is_digit(c),
{
    match c {
        '0' => Some(0),
        '1' => Some(1),
        '2' => Some(2),
        '3' => Some(3),
        '4' => Some(4),
        '5' => Some(5),
        '6' => Some(6),
        '7' => Some(7),
        '8' => Some(8),
        '9' => Some(9),
        _ => None,
    }
}

/// One decimal step, saturating at the largest `u64` value.
fn sat_push(v: u64, d: u64) -> (r: u64)
    requires
        d <= 9,
    ensures
        r as nat == spec_sat_push(v as nat, d as nat),
{
    match v.checked_mul(10) {
        Some(x) => match x.checked_add(d) {
            Some(y) => y,
            None => u64::MAX,
        },
        None => u64::MAX,
    }
}

/// Reads the digit run beginning at `start`, returning its saturating
/// decimal value and the position just past the run.
fn parse_component(s: &str, start: usize) -> (r: (u64, usize))
    requires
        start <= s@.len(),
    ensures
        r.1 == start + run_len(s@, start as int),
        r.0 as nat == sat_num_val(s@, start as int, r.1 as int),
        start <= r.1 <= s@.len(),
{
    let n: usize = s.unicode_len();
    let mut i: usize = start;
    let mut v: u64 = 0;
    loop
        invariant_except_break
            n == s@.len(),
            start <= i <= n,
            forall|k: int| start <= k < i ==> spec_is_digit(s@[k]),
            v as nat == sat_num_val(s@, start as int, i as int),
        ensures
            n == s@.len(),
            start <= i <= n,
            forall|k: int| start <= k < i ==> spec_is_digit(s@[k]),
            v as nat == sat_num_val(s@, start as int, i as int),
            i == n || !spec_is_digit(s@[i as int]),
        decreases n - i,
    {
        if i >= n {
            break;
        }
        let c = s.get_char(i);
        match digit_of(c) {
            None => {
                break;
            },
            Some(d) => {
                v = sat_push(v, d);
                i = i + 1;
            },
        }
    }
    proof {
        lemma_run_len_interval(s@, start as int, i as int);
    }
    (v, i)
}

/// The ordering key of a version string: its `major.minor.patch`
/// numeric triple when the string starts with that shape (an arbitrary
/// non-digit suffix, such as a pre-release tag, is ignored), and the
/// lowest key `(0, 0, 0)` when it does not.
pub open spec fn spec_version_key(s: Seq<char>) -> (nat, nat, nat) {
    let e1 = run_len(s, 0);
    if e1 == 0 || !(e1 < s.len() && s[e1] == '.') {
        (0, 0, 0)
    } else {
        let b2 = e1 + 1;
        let e2 = b2 + run_len(s, b2);
        if e2 == b2 || !(e2 < s.len() && s[e2] == '.') {
            (0, 0, 0)
        } else {
            let b3 = e2 + 1;
            let e3 = b3 + run_len(s, b3);
            if e3 == b3 {
                (0, 0, 0)
            } else {
                (sat_num_val(s, 0, e1), sat_num_val(s, b2, e2), sat_num_val(s, b3, e3))
            }
        }
    }
}

/// The key triple of a machine-integer key.
pub open spec fn keyn(k: (u64, u64, u64)) -> (nat, nat, nat) {
    (k.0 as nat, k.1 as nat, k.2 as nat)
}

/// Computes the ordering key of a version string.
pub fn version_key(s: &str) -> (r: (u64, u64, u64))
    ensures
        keyn(r) == spec_version_key(s@),
{
    let n: usize = s.unicode_len();
    proof {
        lemma_run_len_bounds(s@, 0);
    }
    let (major, e1) = parse_component(s, 0);
    if e1 == 0 || !(e1 < n && s.get_char(e1) == '.') {
        return (0, 0, 0);
    }
    proof {
        lemma_run_len_bounds(s@, e1 + 1);
    }
    let (minor, e2) = parse_component(s, e1 + 1);
    if e2 == e1 + 1 || !(e2 < n && s.get_char(e2) == '.') {
        return (0, 0, 0);
    }
    proof {
        lemma_run_len_bounds(s@, e2 + 1);
    }
    let (patch, e3) = parse_component(s, e2 + 1);
    if e3 == e2 + 1 {
        return (0, 0, 0);
    }
    (major, minor, patch)
}

/// Strict lexicographic order on key triples.
pub open spec fn spec_key_lt(a: (nat, nat, nat), b: (nat, nat, nat)) -> bool {
    a.0 < b.0 || (a.0 == b.0 && (a.1 < b.1 || (a.1 == b.1 && a.2 < b.2)))
}

/// Decides the strict lexicographic order on key triples.
fn key_lt(a: (u64, u64, u64), b: (u64, u64, u64)) -> (r: bool)
    ensures
        r == spec_key_lt(keyn(a), keyn(b)),
{
    a.0 < b.0 || (a.0 == b.0 && (a.1 < b.1 || (a.1 == b.1 && a.2 < b.2)))
}

/// An index entry that names a version folder: it ends in a slash and
/// is not the parent-directory marker.
pub open spec fn spec_is_candidate(entry: Seq<char>) -> bool {
    entry.len() > 0 && entry[entry.len() - 1] == '/' && entry != "../"@
}

/// The candidate version name of an entry: the entry without its
/// trailing slash.
pub open spec fn spec_trimmed(entry: Seq<char>) -> Seq<char> {
    entry.subrange(0, entry.len() - 1)
}

/// A version name carrying a pre-release marker substring.
pub open spec fn spec_prerelease(name: Seq<char>) -> bool {
    contains_seq(name, "alpha"@) || contains_seq(name, "beta"@) || contains_seq(name, "rc"@)
}

/// An entry admitted by the selection policy: a version folder, and
/// when only stable versions are wanted, one without a pre-release
/// marker.
pub open spec fn spec_admitted(entry: Seq<char>, stable_only: bool) -> bool {
    spec_is_candidate(entry) && (stable_only ==> !spec_prerelease(spec_trimmed(entry)))
}

/// The ordering key of an entry's version name.
pub open spec fn entry_key(entry: Seq<char>) -> (nat, nat, nat) {
    spec_version_key(spec_trimmed(entry))
}

/// No entry of the listing is admitted by the policy.
pub open spec fn spec_no_admitted(entries: Seq<String>, stable_only: bool) -> bool {
    forall|j: int| 0 <= j < entries.len() ==> !spec_admitted(#[trigger] entries[j]@, stable_only)
}

/// `s` is the version name of the earliest admitted entry that carries
/// the maximum ordering key of the listing.
pub open spec fn spec_selected(entries: Seq<String>, stable_only: bool, s: Seq<char>) -> bool {
    exists|i: int|
        {
            &&& 0 <= i < entries.len()
            &&& spec_admitted(#[trigger] entries[i]@, stable_only)
            &&& s == spec_trimmed(entries[i]@)
            &&& forall|j: int|
                0 <= j < entries.len() && spec_admitted(#[trigger] entries[j]@, stable_only)
                    ==> !spec_key_lt(entry_key(entries[i]@), entry_key(entries[j]@))
            &&& forall|j: int|
                0 <= j < i && spec_admitted(#[trigger] entries[j]@, stable_only) ==> spec_key_lt(
                    entry_key(entries[j]@),
                    entry_key(entries[i]@),
                )
        }
}

/// Selects the maximum admitted version of an index listing: entries
/// that end in a slash and are not the parent-directory marker are
/// candidates, pre-release names are excluded when `stable_only` holds,
/// and the earliest entry with the maximum ordering key wins. Fails
/// exactly when no entry is admitted.
pub fn select_max_version(entries: &Vec<String>, stable_only: bool) -> (r: Result<
    String,
    ResolutionError,
>)
    ensures
        r matches Ok(s) ==> spec_selected(entries@, stable_only, s@),
        r matches Err(e) ==> e == ResolutionError::NoVersionsFound && spec_no_admitted(
            entries@,
            stable_only,
        ),
{
    let mut best: Option<String> = None;
    let mut best_key: (u64, u64, u64) = (0, 0, 0);
    let ghost mut best_idx: int = 0;
    let mut idx: usize = 0;
    while idx < entries.len()
        invariant
            0 <= idx <= entries@.len(),
            best is None ==> forall|j: int|
                0 <= j < idx ==> !spec_admitted(#[trigger] entries@[j]@, stable_only),
            best matches Some(b) ==> {
                &&& 0 <= best_idx < idx
                &&& spec_admitted(entries@[best_idx]@, stable_only)
                &&& b@ == spec_trimmed(entries@[best_idx]@)
                &&& keyn(best_key) == entry_key(entries@[best_idx]@)
                &&& forall|j: int|
                    0 <= j < idx && spec_admitted(#[trigger] entries@[j]@, stable_only)
                        ==> !spec_key_lt(entry_key(entries@[best_idx]@), entry_key(entries@[j]@))
                &&& forall|j: int|
                    0 <= j < best_idx && spec_admitted(#[trigger] entries@[j]@, stable_only)
                        ==> spec_key_lt(entry_key(entries@[j]@), entry_key(entries@[best_idx]@))
            },
        decreases entries@.len() - idx,
    {
        let e: &String = &entries[idx];
        let en: usize = e.as_str().unicode_len();
        if en > 0 && e.as_str().get_char(en - 1) == '/' {
            let name: &str = e.as_str().substring_char(0, en - 1);
            if str_eq(name, "..") {
                proof {
                    reveal_strlit("..");
                    reveal_strlit("../");
                    assert(name@.len() == 2);
                    assert(en == 3);
                    assert(e@.subrange(0, en - 1)[0] == e@[0]);
                    assert(e@.subrange(0, en - 1)[1] == e@[1]);
                    assert(e@ =~= "../"@);
                }
            } else {
                proof {
                    reveal_strlit("..");
                    reveal_strlit("../");
                    if e@ == "../"@ {
                        assert(en == 3);
                        assert(e@.subrange(0, en - 1)[0] == e@[0]);
                        assert(e@.subrange(0, en - 1)[1] == e@[1]);
                        assert(name@ =~= ".."@);
                    }
                }
                let stable_block = stable_only && (str_contains(name, "alpha") || str_contains(
                    name,
                    "beta",
                ) || str_contains(name, "rc"));
                if !stable_block {
                    let k = version_key(name);
                    let take = match &best {
                        None => true,
                        Some(_) => key_lt(best_key, k),
                    };
                    if take {
                        best = Some(name.to_owned());
                        best_key = k;
                        proof {
                            best_idx = idx as int;
                        }
                    }
                }
            }
        }
        idx = idx + 1;
    }
    match best {
        Some(s) => Ok(s),
        None => Err(ResolutionError::NoVersionsFound),
    }
}

/// Resolves a selection policy against an index listing. A pinned
/// version is returned unchanged without consulting the listing (the
/// embedding program need not fetch one); `Latest` takes the maximum
/// admitted entry and `Stable` the maximum without a pre-release
/// marker, failing exactly when no entry is admitted.
pub fn resolve(selection: &VersionSelection, index_entries: &Vec<String>) -> (r: Result<
    String,
    ResolutionError,
>)
    ensures
        selection matches VersionSelection::Version(v) ==> r matches Ok(s) && s@ == v@,
        selection is Latest ==> {
            &&& (r matches Ok(s) ==> spec_selected(index_entries@, false, s@))
            &&& (r matches Err(e) ==> e == ResolutionError::NoVersionsFound && spec_no_admitted(
                index_entries@,
                false,
            ))
        },
        selection is Stable ==> {
            &&& (r matches Ok(s) ==> spec_selected(index_entries@, true, s@))
            &&& (r matches Err(e) ==> e == ResolutionError::NoVersionsFound && spec_no_admitted(
                index_entries@,
                true,
            ))
        },
{
    match selection {
        VersionSelection::Version(v) => Ok(v.clone()),
        VersionSelection::Latest => select_max_version(index_entries, false),
        VersionSelection::Stable => select_max_version(index_entries, true),
    }
}

} // verus!
