//! Case-insensitive name matching over directory listings: the package
//! resource scanner. Given the file names of a bundled-resources directory,
//! it picks the first installer artifact whose name matches a wanted
//! dependency, the way the offline bootstrap selects packages and wheels.

use vstd::prelude::*;
use vstd::string::StrSliceExecFns;

verus! {

/// ASCII lowering of one character; anything outside `A`..`Z` is unchanged.
pub open spec fn lower_char(c: char) -> char {
    if 65 <= c as u32 && c as u32 <= 90 {
        (((c as u32) + 32) as u8) as char
    } else {
        c
    }
}

/// A character sequence lowered character by character.
pub open spec fn lower_seq(s: Seq<char>) -> Seq<char> {
    s.map_values(|c: char| lower_char(c))
}

/// Executable ASCII lowering, matching `lower_char`.
pub fn ascii_lower(c: char) -> (r: char)
    ensures
        r == lower_char(c),
{
    let u = c as u32;
    if 65 <= u && u <= 90 {
        ((u + 32) as u8) as char
    } else {
        c
    }
}

/// `n` occurs in `s` starting at position `i`.
pub open spec fn matches_at(s: Seq<char>, n: Seq<char>, i: int) -> bool {
    0 <= i && i + n.len() <= s.len() && s.subrange(i, i + n.len()) == n
}

/// `n` occurs somewhere in `s`.
pub open spec fn contains_seq(s: Seq<char>, n: Seq<char>) -> bool {
    exists|i: int| matches_at(s, n, i)
}

/// `s` begins with `n`.
pub open spec fn starts_with_seq(s: Seq<char>, n: Seq<char>) -> bool {
    n.len() <= s.len() && s.subrange(0, n.len() as int) == n
}

/// The name ends in a dot followed by `ext`, with at least one character
/// before the dot — the shape of a file name whose extension is `ext`.
pub open spec fn has_ext_seq(name: Seq<char>, ext: Seq<char>) -> bool {
    &&& name.len() > ext.len() + 1
    &&& name[name.len() - ext.len() - 1] == '.'
    &&& name.subrange(name.len() - ext.len(), name.len() as int) == ext
}

/// Whether `needle` occurs in `name` when both are compared with ASCII case
/// folded away.
pub fn contains_ci(name: &str, needle: &str) -> (r: bool)
    ensures
        r == contains_seq(lower_seq(name@), lower_seq(needle@)),
{
    let slen = name.unicode_len();
    let nlen = needle.unicode_len();
    if nlen > slen {
        assert(forall|i: int| !matches_at(lower_seq(name@), lower_seq(needle@), i));
        return false;
    }
    let mut i: usize = 0;
    while i <= slen - nlen
        invariant
            nlen <= slen,
            slen == name@.len(),
            nlen == needle@.len(),
            i <= slen - nlen + 1,
            forall|k: int| 0 <= k < i ==> !matches_at(lower_seq(name@), lower_seq(needle@), k),
        decreases slen - nlen - i + 1,
    {
        let mut j: usize = 0;
        let mut all_eq: bool = true;
        while j < nlen
            invariant
                nlen <= slen,
                slen == name@.len(),
                nlen == needle@.len(),
                i <= slen - nlen,
                j <= nlen,
                all_eq ==> forall|t: int|
                    0 <= t < j ==> lower_char(name@[i + t]) == lower_char(needle@[t]),
                !all_eq ==> !matches_at(lower_seq(name@), lower_seq(needle@), i as int),
                !all_eq ==> nlen >= 1,
            decreases nlen - j,
        {
            if all_eq {
                let a = ascii_lower(name.get_char(i + j));
                let b = ascii_lower(needle.get_char(j));
                if a != b {
                    assert(!matches_at(lower_seq(name@), lower_seq(needle@), i as int)) by {
                        if matches_at(lower_seq(name@), lower_seq(needle@), i as int) {
                            assert(lower_seq(name@).subrange(
                                i as int,
                                i + needle@.len(),
                            )[j as int] == lower_seq(needle@)[j as int]);
                        }
                    }
                    all_eq = false;
                }
            }
            j = j + 1;
        }
        if all_eq {
            assert(matches_at(lower_seq(name@), lower_seq(needle@), i as int)) by {
                assert(lower_seq(name@).subrange(i as int, i + needle@.len()) =~= lower_seq(
                    needle@,
                ));
            }
            return true;
        }
        i = i + 1;
    }
    assert(forall|k: int| !matches_at(lower_seq(name@), lower_seq(needle@), k));
    false
}

/// Whether `name` begins with `prefix`, compared with ASCII case folded away.
pub fn starts_with_ci(name: &str, prefix: &str) -> (r: bool)
    ensures
        r == starts_with_seq(lower_seq(name@), lower_seq(prefix@)),
{
    let slen = name.unicode_len();
    let nlen = prefix.unicode_len();
    if nlen > slen {
        return false;
    }
    let mut j: usize = 0;
    while j < nlen
        invariant
            nlen <= slen,
            slen == name@.len(),
            nlen == prefix@.len(),
            j <= nlen,
            forall|t: int| 0 <= t < j ==> lower_char(name@[t]) == lower_char(prefix@[t]),
        decreases nlen - j,
    {
        let a = ascii_lower(name.get_char(j));
        let b = ascii_lower(prefix.get_char(j));
        if a != b {
            assert(!starts_with_seq(lower_seq(name@), lower_seq(prefix@))) by {
                if starts_with_seq(lower_seq(name@), lower_seq(prefix@)) {
                    assert(lower_seq(name@).subrange(0, prefix@.len() as int)[j as int]
                        == lower_seq(prefix@)[j as int]);
                }
            }
            return false;
        }
        j = j + 1;
    }
    assert(lower_seq(name@).subrange(0, prefix@.len() as int) =~= lower_seq(prefix@));
    true
}

/// Whether `name` has extension `ext`, compared exactly — case matters
/// here, unlike in the name match.
pub fn has_ext(name: &str, ext: &str) -> (r: bool)
    ensures
        r == has_ext_seq(name@, ext@),
{
    let slen = name.unicode_len();
    let elen = ext.unicode_len();
    if slen < elen || slen - elen < 2 {
        return false;
    }
    if name.get_char(slen - elen - 1) != '.' {
        return false;
    }
    let mut j: usize = 0;
    while j < elen
        invariant
            slen >= elen + 2,
            slen == name@.len(),
            elen == ext@.len(),
            j <= elen,
            forall|t: int| 0 <= t < j ==> name@[slen - elen + t] == ext@[t],
        decreases elen - j,
    {
        if name.get_char(slen - elen + j) != ext.get_char(j) {
            assert(!has_ext_seq(name@, ext@)) by {
                if has_ext_seq(name@, ext@) {
                    assert(name@.subrange(
                        name@.len() - ext@.len(),
                        name@.len() as int,
                    )[j as int] == ext@[j as int]);
                }
            }
            return false;
        }
        j = j + 1;
    }
    assert(name@.subrange(name@.len() - ext@.len(), name@.len() as int) =~= ext@);
    true
}

/// A bundled installer package for `prefix`: a `.pkg` file whose name
/// contains `prefix` with case folded away.
pub open spec fn pkg_matches(name: Seq<char>, prefix: Seq<char>) -> bool {
    has_ext_seq(name, "pkg"@) && contains_seq(lower_seq(name), lower_seq(prefix))
}

/// A bundled wheel for `prefix`: a `.whl` file whose name starts with
/// `prefix` with case folded away.
pub open spec fn wheel_matches(name: Seq<char>, prefix: Seq<char>) -> bool {
    has_ext_seq(name, "whl"@) && starts_with_seq(lower_seq(name), lower_seq(prefix))
}

/// Scans a directory listing for the first installer package matching
/// `prefix`: first match in listing order wins, and absence is an ordinary
/// answer, not an error.
pub fn find_pkg_in(entries: &Vec<String>, prefix: &str) -> (r: Option<usize>)
    ensures
        match r {
            Some(i) => {
                &&& i < entries@.len()
                &&& pkg_matches(entries@[i as int]@, prefix@)
                &&& forall|j: int| 0 <= j < i ==> !pkg_matches(entries@[j]@, prefix@)
            },
            None => forall|j: int| 0 <= j < entries@.len() ==> !pkg_matches(entries@[j]@, prefix@),
        },
{
    let n = entries.len();
    let mut i: usize = 0;
    while i < n
        invariant
            n == entries@.len(),
            i <= n,
            forall|j: int| 0 <= j < i ==> !pkg_matches(entries@[j]@, prefix@),
        decreases n - i,
    {
        let name = &entries[i];
        if has_ext(name.as_str(), "pkg") && contains_ci(name.as_str(), prefix) {
            return Some(i);
        }
        i = i + 1;
    }
    None
}

/// Scans a directory listing for the first wheel whose name starts with
/// `prefix`, the way the offline bootstrap picks the bundled messaging
/// binding.
pub fn find_wheel_in(entries: &Vec<String>, prefix: &str) -> (r: Option<usize>)
    ensures
        match r {
            Some(i) => {
                &&& i < entries@.len()
                &&& wheel_matches(entries@[i as int]@, prefix@)
                &&& forall|j: int| 0 <= j < i ==> !wheel_matches(entries@[j]@, prefix@)
            },
            None => forall|j: int|
                0 <= j < entries@.len() ==> !wheel_matches(entries@[j]@, prefix@),
        },
{
    let n = entries.len();
    let mut i: usize = 0;
    while i < n
        invariant
            n == entries@.len(),
            i <= n,
            forall|j: int| 0 <= j < i ==> !wheel_matches(entries@[j]@, prefix@),
        decreases n - i,
    {
        let name = &entries[i];
        if has_ext(name.as_str(), "whl") && starts_with_ci(name.as_str(), prefix) {
            return Some(i);
        }
        i = i + 1;
    }
    None
}

} // verus!
