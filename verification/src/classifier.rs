//! Format classifier: decides from the path alone whether a file carries a
//! camera RAW extension. Pure string logic, no I/O.

use vstd::prelude::*;

verus! {

/// Case-insensitive match of a single path character against a character of a
/// lowercase extension: equal outright, or the path character is the ASCII
/// uppercase form of it.
pub open spec fn char_matches_ci(a: char, b: char) -> bool {
    a == b || (65 <= a as u32 <= 90 && a as u32 + 32 == b as u32)
}

/// Case-insensitive match of a candidate extension (already lowercase) against
/// the characters of the path after its last dot.
pub open spec fn ext_matches_ci(ext: Seq<char>, lower: Seq<char>) -> bool {
    ext.len() == lower.len() && forall|i: int|
        0 <= i < ext.len() ==> char_matches_ci(ext[i], #[trigger] lower[i])
}

/// Index of the last `.` in the path, or -1 when the path has none.
pub open spec fn last_dot(path: Seq<char>) -> int
    decreases path.len(),
{
    if path.len() == 0 {
        -1
    } else if path[path.len() - 1] == '.' {
        path.len() - 1
    } else {
        last_dot(path.drop_last())
    }
}

/// The recognized RAW extensions, spanning the major camera manufacturers
/// (Canon, Nikon, Sony, Fuji, Olympus, Panasonic, Pentax, Leica, Adobe DNG)
/// and a tail of professional vendor formats.
pub open spec fn is_raw_ext(ext: Seq<char>) -> bool {
    ||| ext_matches_ci(ext, "cr2"@)
    ||| ext_matches_ci(ext, "cr3"@)
    ||| ext_matches_ci(ext, "crw"@)
    ||| ext_matches_ci(ext, "nef"@)
    ||| ext_matches_ci(ext, "nrw"@)
    ||| ext_matches_ci(ext, "arw"@)
    ||| ext_matches_ci(ext, "srf"@)
    ||| ext_matches_ci(ext, "sr2"@)
    ||| ext_matches_ci(ext, "raf"@)
    ||| ext_matches_ci(ext, "orf"@)
    ||| ext_matches_ci(ext, "rw2"@)
    ||| ext_matches_ci(ext, "pef"@)
    ||| ext_matches_ci(ext, "ptx"@)
    ||| ext_matches_ci(ext, "rwl"@)
    ||| ext_matches_ci(ext, "rwz"@)
    ||| ext_matches_ci(ext, "dng"@)
    ||| ext_matches_ci(ext, "raw"@)
    ||| ext_matches_ci(ext, "3fr"@)
    ||| ext_matches_ci(ext, "ari"@)
    ||| ext_matches_ci(ext, "bay"@)
    ||| ext_matches_ci(ext, "cap"@)
    ||| ext_matches_ci(ext, "iiq"@)
    ||| ext_matches_ci(ext, "eip"@)
    ||| ext_matches_ci(ext, "erf"@)
    ||| ext_matches_ci(ext, "fff"@)
    ||| ext_matches_ci(ext, "mef"@)
    ||| ext_matches_ci(ext, "mdc"@)
    ||| ext_matches_ci(ext, "mos"@)
    ||| ext_matches_ci(ext, "mrw"@)
    ||| ext_matches_ci(ext, "pxn"@)
    ||| ext_matches_ci(ext, "r3d"@)
    ||| ext_matches_ci(ext, "x3f"@)
}

/// A path names a RAW file when it has an extension (a last `.`) and the
/// characters after that dot match a recognized RAW extension,
/// case-insensitively. An extensionless path is never RAW.
pub open spec fn is_raw_path(path: Seq<char>) -> bool {
    last_dot(path) >= 0 && is_raw_ext(path.skip(last_dot(path) + 1))
}

/// `last_dot` names the last dot: a `.` stands there and none after it; when
/// it is -1 the path holds no `.` at all.
proof fn lemma_last_dot_bounds(path: Seq<char>)
    ensures
        -1 <= last_dot(path) < path.len(),
        last_dot(path) >= 0 ==> path[last_dot(path)] == '.',
        forall|j: int| last_dot(path) < j < path.len() ==> path[j] != '.',
    decreases path.len(),
{
    if path.len() != 0 && path[path.len() - 1] != '.' {
        lemma_last_dot_bounds(path.drop_last());
        assert forall|j: int| last_dot(path) < j < path.len() implies path[j] != '.' by {
            if j < path.len() - 1 {
                assert(path.drop_last()[j] != '.');
            }
        }
    }
}

/// Converse direction: a dot with no dot after it is the last dot.
proof fn lemma_last_dot_at(path: Seq<char>, i: int)
    requires
        0 <= i < path.len(),
        path[i] == '.',
        forall|j: int| i < j < path.len() ==> path[j] != '.',
    ensures
        last_dot(path) == i,
    decreases path.len(),
{
    if i < path.len() - 1 {
        assert(path.drop_last()[i] == '.');
        lemma_last_dot_at(path.drop_last(), i);
    }
}

/// Compares the path characters from `start` to the end against a lowercase
/// candidate extension, case-insensitively.
fn tail_matches(path: &str, start: usize, lower: &str) -> (r: bool)
    requires
        start <= path@.len(),
    ensures
        r == ext_matches_ci(path@.skip(start as int), lower@),
{
    let n = path.unicode_len();
    let m = lower.unicode_len();
    if n - start != m {
        return false;
    }
    let mut i: usize = 0;
    while i < m
        invariant
            start + m == n,
            n == path@.len(),
            m == lower@.len(),
            0 <= i <= m,
            forall|j: int|
                0 <= j < i ==> char_matches_ci(
                    path@.skip(start as int)[j],
                    #[trigger] lower@[j],
                ),
        decreases m - i,
    {
        let a = path.get_char(start + i);
        let b = lower.get_char(i);
        let ca: u32 = a as u32;
        let cb: u32 = b as u32;
        if !(ca == cb || (65 <= ca && ca <= 90 && ca + 32 == cb)) {
            assert(!char_matches_ci(path@.skip(start as int)[i as int], lower@[i as int]));
            return false;
        }
        i += 1;
    }
    true
}

/// Index just past the last `.` of the path, or `None` when it has no dot.
fn find_ext_start(path: &str) -> (r: Option<usize>)
    ensures
        match r {
            Some(s) => last_dot(path@) >= 0 && s == last_dot(path@) + 1,
            None => last_dot(path@) == -1,
        },
{
    let n = path.unicode_len();
    let mut i: usize = n;
    while i > 0
        invariant
            n == path@.len(),
            0 <= i <= n,
            forall|j: int| i <= j < n ==> path@[j] != '.',
        decreases i,
    {
        i -= 1;
        if path.get_char(i) == '.' {
            proof {
                lemma_last_dot_at(path@, i as int);
            }
            return Some(i + 1);
        }
    }
    proof {
        lemma_last_dot_bounds(path@);
    }
    None
}

/// Decides whether the path carries a recognized RAW camera extension: the
/// substring after the last `.`, compared case-insensitively against the
/// fixed extension set. A path without a `.` is classified as non-RAW.
/// No I/O is performed; the classification is total and deterministic.
pub fn is_raw_extension(path: &str) -> (r: bool)
    ensures
        r == is_raw_path(path@),
{
    let start = match find_ext_start(path) {
        Some(s) => s,
        None => {
            return false;
        },
    };
    proof {
        lemma_last_dot_bounds(path@);
    }
    tail_matches(path, start, "cr2") || tail_matches(path, start, "cr3")
        || tail_matches(path, start, "crw") || tail_matches(path, start, "nef")
        || tail_matches(path, start, "nrw") || tail_matches(path, start, "arw")
        || tail_matches(path, start, "srf") || tail_matches(path, start, "sr2")
        || tail_matches(path, start, "raf") || tail_matches(path, start, "orf")
        || tail_matches(path, start, "rw2") || tail_matches(path, start, "pef")
        || tail_matches(path, start, "ptx") || tail_matches(path, start, "rwl")
        || tail_matches(path, start, "rwz") || tail_matches(path, start, "dng")
        || tail_matches(path, start, "raw") || tail_matches(path, start, "3fr")
        || tail_matches(path, start, "ari") || tail_matches(path, start, "bay")
        || tail_matches(path, start, "cap") || tail_matches(path, start, "iiq")
        || tail_matches(path, start, "eip") || tail_matches(path, start, "erf")
        || tail_matches(path, start, "fff") || tail_matches(path, start, "mef")
        || tail_matches(path, start, "mdc") || tail_matches(path, start, "mos")
        || tail_matches(path, start, "mrw") || tail_matches(path, start, "pxn")
        || tail_matches(path, start, "r3d") || tail_matches(path, start, "x3f")
}

} // verus!
