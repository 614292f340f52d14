//! Small verified string helpers: equality, prefix matching, trimming.
//!
//! These work at the character level (`Seq<char>` views), which matches
//! how the rest of the library states its contracts.

use vstd::prelude::*;
use vstd::string::StrSliceExecFns;

verus! {

/// ASCII whitespace, as stripped by `trim_str`.
pub open spec fn spec_is_ws(c: char) -> bool {
    c == ' ' || c == '\t' || c == '\n' || c == '\r'
}

/// The view of a string after stripping leading and trailing ASCII
/// whitespace.
pub open spec fn spec_trim(s: Seq<char>) -> Seq<char>
    decreases s.len(),
{
    if s.len() == 0 {
        s
    } else if spec_is_ws(s[0]) {
        spec_trim(s.skip(1))
    } else if spec_is_ws(s.last()) {
        spec_trim(s.take(s.len() - 1))
    } else {
        s
    }
}

/// Character-for-character string equality.
pub fn str_eq(a: &str, b: &str) -> (r: bool)
    ensures
        r == (a@ == b@),
{
    let la = a.unicode_len();
    let lb = b.unicode_len();
    if la != lb {
        return false;
    }
    let mut i: usize = 0;
    while i < la
        invariant
            la == a@.len(),
            lb == b@.len(),
            la == lb,
            i <= la,
            forall|j: int| 0 <= j < i ==> a@[j] == b@[j],
        decreases la - i,
    {
        if a.get_char(i) != b.get_char(i) {
            return false;
        }
        i = i + 1;
    }
    proof {
        assert(a@ =~= b@);
    }
    true
}

/// Whether `pat` occurs in `s` starting at character position `i`.
pub open spec fn spec_matches_at(s: Seq<char>, i: int, pat: Seq<char>) -> bool {
    &&& 0 <= i
    &&& i + pat.len() <= s.len()
    &&& s.subrange(i, i + pat.len()) == pat
}

/// Check whether `pat` occurs in `s` at character position `i`.
pub fn matches_at(s: &str, i: usize, pat: &str) -> (r: bool)
    requires
        i <= s@.len(),
    ensures
        r == spec_matches_at(s@, i as int, pat@),
{
    let sl = s.unicode_len();
    let pl = pat.unicode_len();
    if pl > sl - i {
        return false;
    }
    let mut j: usize = 0;
    while j < pl
        invariant
            sl == s@.len(),
            pl == pat@.len(),
            i + pl <= sl,
            j <= pl,
            forall|k: int| 0 <= k < j ==> s@[i + k] == pat@[k],
        decreases pl - j,
    {
        if s.get_char(i + j) != pat.get_char(j) {
            proof {
                assert(s@.subrange(i as int, i + pat@.len())[j as int] == s@[i + j]);
            }
            return false;
        }
        j = j + 1;
    }
    proof {
        assert(s@.subrange(i as int, i + pat@.len()) =~= pat@);
    }
    true
}

proof fn lemma_trim_skips_front(s: Seq<char>, k: int)
    requires
        0 <= k <= s.len(),
        forall|j: int| 0 <= j < k ==> spec_is_ws(s[j]),
    ensures
        spec_trim(s) == spec_trim(s.skip(k)),
    decreases k,
{
    if k > 0 {
        assert(spec_is_ws(s[0]));
        assert(spec_trim(s) == spec_trim(s.skip(1)));
        lemma_trim_skips_front(s.skip(1), k - 1);
        assert(s.skip(1).skip(k - 1) =~= s.skip(k));
    } else {
        assert(s.skip(0) =~= s);
    }
}

proof fn lemma_trim_drops_back(s: Seq<char>, e: int)
    requires
        0 <= e <= s.len(),
        s.len() > 0 ==> !spec_is_ws(s[0]),
        forall|j: int| e <= j < s.len() ==> spec_is_ws(s[j]),
        e > 0 ==> !spec_is_ws(s[e - 1]),
    ensures
        spec_trim(s) == s.subrange(0, e),
    decreases s.len() - e,
{
    if s.len() == 0 {
        assert(s.subrange(0, 0) =~= s);
    } else if e == 0 {
        // the first character is not whitespace, yet every character from
        // position e on is: only possible for the empty remainder
        assert(spec_is_ws(s[0]));
        assert(false);
    } else if e == s.len() {
        assert(!spec_is_ws(s.last()));
        assert(spec_trim(s) == s);
        assert(s.subrange(0, s.len() as int) =~= s);
    } else {
        assert(spec_is_ws(s.last()));
        assert(spec_trim(s) == spec_trim(s.take(s.len() - 1)));
        lemma_trim_drops_back(s.take(s.len() - 1), e);
        assert(s.take(s.len() - 1).subrange(0, e) =~= s.subrange(0, e));
    }
}

/// Strip leading and trailing ASCII whitespace.
pub fn trim_str<'a>(s: &'a str) -> (r: &'a str)
    ensures
        r@ == spec_trim(s@),
{
    let len = s.unicode_len();
    let mut start: usize = 0;
    loop
        invariant
            len == s@.len(),
            start <= len,
            forall|j: int| 0 <= j < start ==> spec_is_ws(s@[j]),
        ensures
            start <= len,
            forall|j: int| 0 <= j < start ==> spec_is_ws(s@[j]),
            start < len ==> !spec_is_ws(s@[start as int]),
        decreases len - start,
    {
        if start >= len {
            break;
        }
        let c = s.get_char(start);
        if !(c == ' ' || c == '\t' || c == '\n' || c == '\r') {
            break;
        }
        start = start + 1;
    }
    proof {
        lemma_trim_skips_front(s@, start as int);
    }
    if start == len {
        proof {
            assert(s@.skip(start as int) =~= s@.subrange(start as int, start as int));
        }
        return s.substring_char(start, start);
    }
    let mut end: usize = len;
    loop
        invariant
            len == s@.len(),
            start < len,
            start <= end <= len,
            !spec_is_ws(s@[start as int]),
            forall|j: int| end <= j < len ==> spec_is_ws(s@[j]),
        ensures
            start <= end <= len,
            forall|j: int| end <= j < len ==> spec_is_ws(s@[j]),
            end > start ==> !spec_is_ws(s@[end - 1]),
        decreases end,
    {
        if end <= start {
            break;
        }
        let c = s.get_char(end - 1);
        if !(c == ' ' || c == '\t' || c == '\n' || c == '\r') {
            break;
        }
        end = end - 1;
    }
    proof {
        let tail = s@.skip(start as int);
        assert(forall|j: int| end - start <= j < tail.len() ==> spec_is_ws(#[trigger] tail[j]));
        lemma_trim_drops_back(tail, end - start);
        assert(tail.subrange(0, end - start) =~= s@.subrange(start as int, end as int));
    }
    s.substring_char(start, end)
}

} // verus!
