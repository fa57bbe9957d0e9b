//! Small verified string utilities shared by the other modules: character
//! comparison, concatenation of path segments, and whitespace trimming for
//! marker-file contents.

use vstd::prelude::*;
use vstd::string::StrSliceExecFns;
use vstd::string::StringExecFns;

verus! {

/// Relies on `String::push`: appends exactly one character to the end of
/// the string.
#[verifier::external_body]
pub(crate) fn push_char(s: &mut String, c: char)
    ensures
        final(s)@ == old(s)@.push(c),
{
    s.push(c);
}

/// Character-wise equality of two string slices.
pub fn str_eq(a: &str, b: &str) -> (r: bool)
    ensures
        r == (a@ == b@),
{
    let alen = a.unicode_len();
    let blen = b.unicode_len();
    if alen != blen {
        return false;
    }
    let mut i: usize = 0;
    while i < alen
        invariant
            i <= alen,
            alen == a@.len(),
            alen == b@.len(),
            forall|j: int| 0 <= j < i ==> a@[j] == b@[j],
        decreases alen - i,
    {
        if a.get_char(i) != b.get_char(i) {
            return false;
        }
        i = i + 1;
    }
    proof {
        assert(a@ =~= b@);
    }
    true
}

/// The whitespace characters that the marker-file convention allows around
/// the recorded path: blanks, tabs and line ends.
pub open spec fn is_marker_space(c: char) -> bool {
    c == ' ' || c == '\t' || c == '\n' || c == '\r'
}

/// The sequence with its leading whitespace removed.
pub open spec fn trim_start_spec(s: Seq<char>) -> Seq<char>
    decreases s.len(),
{
    if s.len() > 0 && is_marker_space(s[0]) {
        trim_start_spec(s.drop_first())
    } else {
        s
    }
}

/// The sequence with its trailing whitespace removed.
pub open spec fn trim_end_spec(s: Seq<char>) -> Seq<char>
    decreases s.len(),
{
    if s.len() > 0 && is_marker_space(s[s.len() - 1]) {
        trim_end_spec(s.drop_last())
    } else {
        s
    }
}

/// The sequence with whitespace removed from both ends.
pub open spec fn trimmed(s: Seq<char>) -> Seq<char> {
    trim_end_spec(trim_start_spec(s))
}

proof fn lemma_trim_start_at(s: Seq<char>, lo: int)
    requires
        0 <= lo <= s.len(),
        forall|j: int| 0 <= j < lo ==> is_marker_space(s[j]),
        lo == s.len() || !is_marker_space(s[lo]),
    ensures
        trim_start_spec(s) == s.subrange(lo, s.len() as int),
    decreases lo,
{
    if lo == 0 {
        assert(trim_start_spec(s) =~= s.subrange(0, s.len() as int));
    } else {
        let t = s.drop_first();
        assert(is_marker_space(s[0]));
        assert forall|j: int| 0 <= j < lo - 1 implies is_marker_space(t[j]) by {
            assert(t[j] == s[j + 1]);
        }
        lemma_trim_start_at(t, lo - 1);
        assert(t.subrange(lo - 1, t.len() as int) =~= s.subrange(lo, s.len() as int));
    }
}

proof fn lemma_trim_end_at(s: Seq<char>, hi: int)
    requires
        0 <= hi <= s.len(),
        forall|j: int| hi <= j < s.len() ==> is_marker_space(s[j]),
        hi == 0 || !is_marker_space(s[hi - 1]),
    ensures
        trim_end_spec(s) == s.subrange(0, hi),
    decreases s.len() - hi,
{
    if hi == s.len() {
        assert(trim_end_spec(s) =~= s.subrange(0, hi));
    } else {
        let t = s.drop_last();
        assert(is_marker_space(s[s.len() - 1]));
        lemma_trim_end_at(t, hi);
        assert(t.subrange(0, hi) =~= s.subrange(0, hi));
    }
}

/// Whether `c` is one of the whitespace characters trimmed from marker
/// contents.
pub fn is_space_char(c: char) -> (r: bool)
    ensures
        r == is_marker_space(c),
{
    c == ' ' || c == '\t' || c == '\n' || c == '\r'
}

/// Removes leading and trailing whitespace, as the marker-file convention
/// requires before the recorded path is used.
pub fn trim_marker_content(s: &str) -> (r: String)
    ensures
        r@ == trimmed(s@),
{
    let n = s.unicode_len();
    let mut lo: usize = 0;
    while lo < n && is_space_char(s.get_char(lo))
        invariant
            lo <= n,
            n == s@.len(),
            forall|j: int| 0 <= j < lo ==> is_marker_space(s@[j]),
        decreases n - lo,
    {
        lo = lo + 1;
    }
    if lo == n {
        proof {
            lemma_trim_start_at(s@, lo as int);
            assert(trim_start_spec(s@) =~= Seq::<char>::empty());
            assert(trimmed(s@) =~= Seq::<char>::empty());
        }
        return String::new();
    }
    let mut hi: usize = n;
    while hi > lo && is_space_char(s.get_char(hi - 1))
        invariant
            lo <= hi <= n,
            n == s@.len(),
            lo < n,
            !is_marker_space(s@[lo as int]),
            forall|j: int| hi <= j < n ==> is_marker_space(s@[j]),
        decreases hi,
    {
        hi = hi - 1;
    }
    proof {
        if hi == lo {
            assert(is_marker_space(s@[lo as int]));
        }
    }
    let out = s.substring_char(lo, hi);
    proof {
        lemma_trim_start_at(s@, lo as int);
        let t = s@.subrange(lo as int, n as int);
        assert forall|j: int| hi - lo <= j < t.len() implies is_marker_space(t[j]) by {
            assert(t[j] == s@[j + lo]);
        }
        assert(!is_marker_space(t[hi - lo - 1]));
        lemma_trim_end_at(t, hi - lo);
        assert(t.subrange(0, hi - lo) =~= s@.subrange(lo as int, hi as int));
    }
    out.to_owned()
}

/// What joining a relative segment onto a base path yields: the segment
/// itself when the base is empty, otherwise the two joined with a single
/// separator (none is added when the base already ends in one).
pub open spec fn join_path_spec(base: Seq<char>, rel: Seq<char>) -> Seq<char> {
    if base.len() == 0 {
        rel
    } else if base[base.len() - 1] == '/' {
        base + rel
    } else {
        base + "/"@ + rel
    }
}

/// Joins a relative path segment onto a base path.
pub fn join_path(base: &str, rel: &str) -> (r: String)
    ensures
        r@ == join_path_spec(base@, rel@),
{
    let n = base.unicode_len();
    if n == 0 {
        rel.to_owned()
    } else if base.get_char(n - 1) == '/' {
        let mut out = base.to_owned();
        out.append(rel);
        out
    } else {
        let mut out = base.to_owned();
        out.append("/");
        out.append(rel);
        out
    }
}

/// Joining two different relative paths onto one base never makes them
/// collide: the destination keeps the full relative structure, so a nested
/// path cannot be confused with a flattened one.
pub proof fn lemma_join_path_keeps_distinct(base: Seq<char>, r1: Seq<char>, r2: Seq<char>)
    requires
        join_path_spec(base, r1) == join_path_spec(base, r2),
    ensures
        r1 == r2,
{
    if base.len() == 0 {
    } else if base[base.len() - 1] == '/' {
        let j1 = base + r1;
        let j2 = base + r2;
        assert(j1.len() == base.len() + r1.len());
        assert(j2.len() == base.len() + r2.len());
        assert(r1.len() == r2.len());
        assert forall|i: int| 0 <= i < r1.len() implies r1[i] == r2[i] by {
            assert(r1[i] == j1[base.len() + i]);
            assert(r2[i] == j2[base.len() + i]);
        }
        assert(r1 =~= r2);
    } else {
        let p = base + "/"@;
        let j1 = p + r1;
        let j2 = p + r2;
        assert(base + "/"@ + r1 == p + r1);
        assert(base + "/"@ + r2 == p + r2);
        assert(j1.len() == p.len() + r1.len());
        assert(j2.len() == p.len() + r2.len());
        assert(r1.len() == r2.len());
        assert forall|i: int| 0 <= i < r1.len() implies r1[i] == r2[i] by {
            assert(r1[i] == j1[p.len() + i]);
            assert(r2[i] == j2[p.len() + i]);
        }
        assert(r1 =~= r2);
    }
}

} // verus!
