//! Source-fragment scanning.
//!
//! Decides whether a fragment of source text is complete enough to
//! hand to a compiler: brackets balanced, strings and comments closed,
//! no attribute left waiting for its item.  The scanner is specified by
//! `spec_validate`, a step-per-character state machine over the text.

use vstd::prelude::*;
use vstd::string::StrSliceExecFns;

verus! {

/// Outcome of scanning a source fragment.
#[derive(Copy, Clone, PartialEq, Eq, Debug, Structural)]
pub enum FragmentValidity {
    Valid,
    Invalid,
    Incomplete,
}

/// What each outcome reads as.
pub open spec fn spec_validity_str(v: FragmentValidity) -> Seq<char> {
    match v {
        FragmentValidity::Valid => "valid"@,
        FragmentValidity::Invalid => "invalid"@,
        FragmentValidity::Incomplete => "incomplete"@,
    }
}

impl FragmentValidity {
    pub fn as_str(&self) -> (r: &'static str)
        ensures
            r@ == spec_validity_str(*self),
    {
        match self {
            FragmentValidity::Valid => "valid",
            FragmentValidity::Invalid => "invalid",
            FragmentValidity::Incomplete => "incomplete",
        }
    }
}

/// A bracket kind on the nesting stack.
#[derive(Copy, Clone, PartialEq, Eq, Debug, Structural)]
pub enum Bracket {
    Round,
    Square,
    Curly,
}

/// The kind of string literal opened at a quote.
#[derive(Copy, Clone, PartialEq, Eq, Debug)]
pub enum StrKind {
    Normal,
    RawStr { hashes: usize },
}

/// The mathematical model of a string-literal kind.
pub enum StrKindSpec {
    Normal,
    RawStr { hashes: int },
}

impl View for StrKind {
    type V = StrKindSpec;

    open spec fn view(&self) -> StrKindSpec {
        match self {
            StrKind::Normal => StrKindSpec::Normal,
            StrKind::RawStr { hashes } => StrKindSpec::RawStr { hashes: *hashes as int },
        }
    }
}

/// Result of trying to consume a character literal.
#[derive(Clone, Copy, Debug, PartialEq, Eq, Structural)]
pub enum EatCharRes {
    AteChar,
    SawLifetime,
    SawInvalid,
}

/// Whether `c` counts as alphabetic; the model of the standard
/// library's Unicode tables.
pub uninterp spec fn spec_alphabetic(c: char) -> bool;

/// Relies on char::is_alphabetic: whether a character is alphabetic
/// depends on the character alone.
#[verifier::external_body]
fn char_is_alphabetic(c: char) -> (r: bool)
    ensures
        r == spec_alphabetic(c),
{
    c.is_alphabetic()
}

/// Whether `c` counts as whitespace; the model of the standard
/// library's Unicode tables.
pub uninterp spec fn spec_whitespace(c: char) -> bool;

/// Relies on char::is_whitespace: whether a character is whitespace
/// depends on the character alone.
#[verifier::external_body]
fn char_is_whitespace(c: char) -> (r: bool)
    ensures
        r == spec_whitespace(c),
{
    c.is_whitespace()
}

/// The position just past the end of a line comment started before `i`:
/// everything up to and including the next newline is consumed.
pub open spec fn spec_after_line_comment(s: Seq<char>, i: int) -> int
    decreases s.len() - i,
{
    if i < 0 || i >= s.len() {
        s.len() as int
    } else if s[i] == '\n' {
        i + 1
    } else {
        spec_after_line_comment(s, i + 1)
    }
}

/// The position just past a (nested) block comment entered with `depth`
/// levels open at position `i`, or nothing if it never closes.
pub open spec fn spec_after_block_comment(s: Seq<char>, i: int, depth: int) -> Option<int>
    decreases s.len() - i,
{
    if depth <= 0 {
        Some(i)
    } else if i < 0 || i >= s.len() {
        None
    } else if s[i] == '/' && i + 1 < s.len() && s[i + 1] == '*' {
        spec_after_block_comment(s, i + 2, depth + 1)
    } else if s[i] == '*' && i + 1 < s.len() && s[i + 1] == '/' {
        spec_after_block_comment(s, i + 2, depth - 1)
    } else {
        spec_after_block_comment(s, i + 1, depth)
    }
}

/// The number of consecutive `#` characters at `i` and after.
pub open spec fn spec_hash_run(s: Seq<char>, i: int) -> int
    decreases s.len() - i,
{
    if i < 0 || i >= s.len() || s[i] != '#' {
        0
    } else {
        1 + spec_hash_run(s, i + 1)
    }
}

/// The number of consecutive `#` characters at `j` and before.
pub open spec fn spec_hash_run_back(s: Seq<char>, j: int) -> int
    decreases j + 1,
{
    if j < 0 || j >= s.len() || s[j] != '#' {
        0
    } else {
        1 + spec_hash_run_back(s, j - 1)
    }
}

/// The position just past the body of a string literal entered at `i`
/// (after its opening quote), or nothing if it never closes: a quote
/// closes it when followed by `hashes` hash marks; backslash escapes
/// are honored when `escapes` is set.
pub open spec fn spec_after_string(s: Seq<char>, i: int, hashes: int, escapes: bool) -> Option<
    int,
>
    decreases s.len() - i,
{
    if i < 0 || i >= s.len() {
        None
    } else if s[i] == '"' {
        if hashes <= 0 {
            Some(i + 1)
        } else if spec_hash_run(s, i + 1) >= hashes {
            Some(i + 1 + hashes)
        } else {
            spec_after_string(s, i + 1, hashes, escapes)
        }
    } else if s[i] == '\\' && escapes {
        if i + 1 >= s.len() {
            None
        } else {
            spec_after_string(s, i + 2, hashes, escapes)
        }
    } else {
        spec_after_string(s, i + 1, hashes, escapes)
    }
}

/// The kind of string literal whose opening quote sits at `qi`,
/// judged from what precedes it: `r` or `r##...#` make it raw; a hash
/// run not introduced by `r` is malformed.
pub open spec fn spec_check_raw_str(s: Seq<char>, qi: int) -> Option<StrKindSpec> {
    if qi - 1 >= 0 && qi - 1 < s.len() && s[qi - 1] == 'r' {
        Some(StrKindSpec::RawStr { hashes: 0 })
    } else if qi - 1 >= 0 && qi - 1 < s.len() && s[qi - 1] == '#' {
        let k = spec_hash_run_back(s, qi - 1);
        if qi - 1 - k >= 0 && s[qi - 1 - k] == 'r' {
            Some(StrKindSpec::RawStr { hashes: k })
        } else {
            None
        }
    } else {
        Some(StrKindSpec::Normal)
    }
}

/// The position reached while skipping the rest of an escaped character
/// literal, and what that yields: a closing quote completes it, a
/// newline is invalid, the end of input leaves it unclosed.
pub open spec fn spec_scan_escape_end(s: Seq<char>, i: int) -> (Option<EatCharRes>, int)
    decreases s.len() - i,
{
    if i < 0 || i >= s.len() {
        (None, s.len() as int)
    } else if s[i] == '\'' {
        (Some(EatCharRes::AteChar), i + 1)
    } else if s[i] == '\n' {
        (Some(EatCharRes::SawInvalid), i + 1)
    } else {
        spec_scan_escape_end(s, i + 1)
    }
}

/// What consuming a character literal starting at `i` (just after its
/// opening quote) yields, with the position reached.
pub open spec fn spec_do_eat_char(s: Seq<char>, i: int) -> (Option<EatCharRes>, int) {
    if i < 0 || i >= s.len() {
        (None, s.len() as int)
    } else {
        let c = s[i];
        if c == '\n' || c == '\r' || c == '\t' {
            (Some(EatCharRes::SawInvalid), i + 1)
        } else if c == '\\' {
            if i + 1 >= s.len() {
                (None, s.len() as int)
            } else {
                let c2 = s[i + 1];
                if c2 == '\\' || c2 == '\'' || c2 == '"' || c2 == 'x' || c2 == 'u' || c2 == 'n'
                    || c2 == 't' || c2 == 'r' || c2 == '0' {
                    spec_scan_escape_end(s, i + 2)
                } else {
                    (Some(EatCharRes::SawInvalid), i + 2)
                }
            }
        } else {
            if i + 1 >= s.len() {
                (None, s.len() as int)
            } else if s[i + 1] == '\'' {
                (Some(EatCharRes::AteChar), i + 2)
            } else if spec_alphabetic(c) || c == '_' {
                (Some(EatCharRes::SawLifetime), i + 2)
            } else {
                (Some(EatCharRes::SawInvalid), i + 2)
            }
        }
    }
}

/// What `eat_char` leaves behind: the position advances only when a
/// character literal was consumed or the input ran out.
pub open spec fn spec_eat_char(s: Seq<char>, i: int) -> (Option<EatCharRes>, int) {
    let (res, j) = spec_do_eat_char(s, i);
    match res {
        Some(EatCharRes::AteChar) => (res, j),
        None => (res, j),
        _ => (res, i),
    }
}

/// The attribute-tracking depth as a mathematical value.
pub open spec fn spec_attr_model(a: Option<usize>) -> Option<int> {
    match a {
        Some(d) => Some(d as int),
        None => None,
    }
}

/// One scanning pass over the fragment from position `i` with
/// the given bracket stack, pending-attribute depth and
/// expects-attribute-item flag.  The fuel budget covers one step per
/// remaining character and never runs out when the scan starts with a
/// full budget.
pub open spec fn spec_scan(
    s: Seq<char>,
    i: int,
    stack: Seq<Bracket>,
    attr_end: Option<int>,
    expects: bool,
    fuel: nat,
) -> FragmentValidity
    decreases fuel,
{
    if i < 0 || i >= s.len() || fuel == 0 {
        if stack.len() == 0 && !expects {
            FragmentValidity::Valid
        } else {
            FragmentValidity::Incomplete
        }
    } else {
        let c = s[i];
        if c == '/' && i + 1 < s.len() && s[i + 1] == '/' {
            spec_scan(s, spec_after_line_comment(s, i + 1), stack, attr_end, expects, (fuel
                - 1) as nat)
        } else if c == '/' && i + 1 < s.len() && s[i + 1] == '*' {
            match spec_after_block_comment(s, i + 2, 1) {
                None => FragmentValidity::Incomplete,
                Some(p) => spec_scan(s, p, stack, attr_end, expects, (fuel - 1) as nat),
            }
        } else if c == '(' {
            spec_scan(s, i + 1, stack.push(Bracket::Round), attr_end, false, (fuel - 1) as nat)
        } else if c == '[' {
            spec_scan(s, i + 1, stack.push(Bracket::Square), attr_end, false, (fuel - 1) as nat)
        } else if c == '{' {
            spec_scan(s, i + 1, stack.push(Bracket::Curly), attr_end, false, (fuel - 1) as nat)
        } else if c == ')' || c == ']' || c == '}' {
            if stack.len() == 0 {
                FragmentValidity::Invalid
            } else {
                let top = stack.last();
                let rest = stack.drop_last();
                if (top == Bracket::Round && c == ')') || (top == Bracket::Curly && c == '}') {
                    spec_scan(s, i + 1, rest, attr_end, false, (fuel - 1) as nat)
                } else if top == Bracket::Square && c == ']' {
                    match attr_end {
                        Some(d) => if rest.len() == d {
                            spec_scan(s, i + 1, rest, None, true, (fuel - 1) as nat)
                        } else {
                            spec_scan(s, i + 1, rest, attr_end, false, (fuel - 1) as nat)
                        },
                        None => spec_scan(s, i + 1, rest, attr_end, false, (fuel - 1) as nat),
                    }
                } else {
                    FragmentValidity::Invalid
                }
            }
        } else if c == '\'' {
            let (res, j) = spec_eat_char(s, i + 1);
            match res {
                Some(EatCharRes::SawInvalid) => FragmentValidity::Invalid,
                Some(EatCharRes::AteChar) => spec_scan(s, j, stack, attr_end, false, (fuel
                    - 1) as nat),
                Some(EatCharRes::SawLifetime) => spec_scan(s, i + 1, stack, attr_end, false, (fuel
                    - 1) as nat),
                None => FragmentValidity::Incomplete,
            }
        } else if c == '"' {
            match spec_check_raw_str(s, i) {
                None => FragmentValidity::Invalid,
                Some(kind) => {
                    let hashes = match kind {
                        StrKindSpec::Normal => 0,
                        StrKindSpec::RawStr { hashes } => hashes,
                    };
                    let escapes = kind is Normal;
                    match spec_after_string(s, i + 1, hashes, escapes) {
                        None => FragmentValidity::Incomplete,
                        Some(j) => spec_scan(s, j, stack, attr_end, false, (fuel - 1) as nat),
                    }
                },
            }
        } else if c == '#' {
            if i + 1 < s.len() && s[i + 1] == '[' {
                spec_scan(s, i + 1, stack, Some(stack.len() as int), false, (fuel - 1) as nat)
            } else {
                spec_scan(s, i + 1, stack, attr_end, false, (fuel - 1) as nat)
            }
        } else if spec_whitespace(c) {
            spec_scan(s, i + 1, stack, attr_end, expects, (fuel - 1) as nat)
        } else {
            spec_scan(s, i + 1, stack, attr_end, false, (fuel - 1) as nat)
        }
    }
}

/// The outcome for a whole fragment.
pub open spec fn spec_validate(s: Seq<char>) -> FragmentValidity {
    spec_scan(s, 0, Seq::empty(), None, false, (s.len() + 1) as nat)
}

proof fn lemma_after_line_comment_bounds(s: Seq<char>, i: int)
    requires
        0 <= i <= s.len(),
    ensures
        i <= spec_after_line_comment(s, i) <= s.len(),
    decreases s.len() - i,
{
    if i < s.len() && s[i] != '\n' {
        lemma_after_line_comment_bounds(s, i + 1);
    }
}

proof fn lemma_after_block_comment_bounds(s: Seq<char>, i: int, depth: int)
    requires
        0 <= i <= s.len(),
        spec_after_block_comment(s, i, depth) is Some,
    ensures
        i <= spec_after_block_comment(s, i, depth)->0 <= s.len(),
    decreases s.len() - i,
{
    if depth <= 0 {
    } else if i >= s.len() {
    } else if s[i] == '/' && i + 1 < s.len() && s[i + 1] == '*' {
        lemma_after_block_comment_bounds(s, i + 2, depth + 1);
    } else if s[i] == '*' && i + 1 < s.len() && s[i + 1] == '/' {
        lemma_after_block_comment_bounds(s, i + 2, depth - 1);
    } else {
        lemma_after_block_comment_bounds(s, i + 1, depth);
    }
}

proof fn lemma_hash_run_bounds(s: Seq<char>, i: int)
    requires
        0 <= i <= s.len(),
    ensures
        0 <= spec_hash_run(s, i) <= s.len() - i,
    decreases s.len() - i,
{
    if i < s.len() && s[i] == '#' {
        lemma_hash_run_bounds(s, i + 1);
    }
}

proof fn lemma_after_string_bounds(s: Seq<char>, i: int, hashes: int, escapes: bool)
    requires
        0 <= i <= s.len(),
        0 <= hashes,
        spec_after_string(s, i, hashes, escapes) is Some,
    ensures
        i < spec_after_string(s, i, hashes, escapes)->0 <= s.len(),
    decreases s.len() - i,
{
    if i >= s.len() {
    } else if s[i] == '"' {
        if hashes <= 0 {
        } else if spec_hash_run(s, i + 1) >= hashes {
            lemma_hash_run_bounds(s, i + 1);
        } else {
            lemma_after_string_bounds(s, i + 1, hashes, escapes);
        }
    } else if s[i] == '\\' && escapes {
        if i + 1 < s.len() {
            lemma_after_string_bounds(s, i + 2, hashes, escapes);
        }
    } else {
        lemma_after_string_bounds(s, i + 1, hashes, escapes);
    }
}

proof fn lemma_scan_escape_end_bounds(s: Seq<char>, i: int)
    requires
        0 <= i <= s.len(),
    ensures
        i <= spec_scan_escape_end(s, i).1 <= s.len(),
    decreases s.len() - i,
{
    if i < s.len() && s[i] != '\'' && s[i] != '\n' {
        lemma_scan_escape_end_bounds(s, i + 1);
    }
}

proof fn lemma_do_eat_char_bounds(s: Seq<char>, i: int)
    requires
        0 <= i <= s.len(),
    ensures
        i <= spec_do_eat_char(s, i).1 <= s.len(),
{
    if i < s.len() {
        let c = s[i];
        if c == '\\' && i + 1 < s.len() {
            lemma_scan_escape_end_bounds(s, i + 2);
        }
    }
}

/// Consume the rest of a line comment: everything up to and including
/// the next newline.
#[verifier::loop_isolation(false)]
pub fn eat_comment_line(s: &str, pos: &mut usize)
    requires
        *old(pos) <= s@.len(),
    ensures
        *final(pos) == spec_after_line_comment(s@, *old(pos) as int),
        *old(pos) <= *final(pos) <= s@.len(),
{
    let len = s.unicode_len();
    proof {
        lemma_after_line_comment_bounds(s@, *pos as int);
    }
    while *pos < len
        invariant
            len == s@.len(),
            *pos <= len,
            spec_after_line_comment(s@, *old(pos) as int) == spec_after_line_comment(
                s@,
                *pos as int,
            ),
            *old(pos) <= *pos,
        decreases len - *pos,
    {
        let c = s.get_char(*pos);
        *pos = *pos + 1;
        if c == '\n' {
            return;
        }
    }
}

/// Consume the rest of a (possibly nested) block comment; reports
/// whether it was closed before the input ran out.
#[verifier::loop_isolation(false)]
pub fn eat_comment_block(s: &str, pos: &mut usize) -> (r: bool)
    requires
        *old(pos) <= s@.len(),
    ensures
        *old(pos) <= *final(pos) <= s@.len(),
        match spec_after_block_comment(s@, *old(pos) as int, 1) {
            Some(p) => r == true && *final(pos) == p,
            None => r == false && *final(pos) == s@.len(),
        },
{
    let len = s.unicode_len();
    let mut depth: usize = 1;
    while depth != 0
        invariant
            len == s@.len(),
            *pos <= len,
            *old(pos) <= *pos,
            2 * depth <= 2 + *pos - *old(pos),
            spec_after_block_comment(s@, *old(pos) as int, 1) == spec_after_block_comment(
                s@,
                *pos as int,
                depth as int,
            ),
        decreases len - *pos, depth,
    {
        if *pos >= len {
            return false;
        }
        let c = s.get_char(*pos);
        if c == '/' && *pos + 1 < len && s.get_char(*pos + 1) == '*' {
            *pos = *pos + 2;
            depth = depth + 1;
        } else if c == '*' && *pos + 1 < len && s.get_char(*pos + 1) == '/' {
            *pos = *pos + 2;
            depth = depth - 1;
        } else {
            *pos = *pos + 1;
        }
    }
    true
}

/// Judge the kind of string literal whose opening quote sits at
/// `quote_idx`, from the characters before it.
#[verifier::loop_isolation(false)]
pub fn check_raw_str(s: &str, quote_idx: usize) -> (r: Option<StrKind>)
    requires
        quote_idx <= s@.len(),
    ensures
        match r {
            Some(k) => spec_check_raw_str(s@, quote_idx as int) == Some(k@),
            None => spec_check_raw_str(s@, quote_idx as int) is None,
        },
{
    if quote_idx == 0 {
        return Some(StrKind::Normal);
    }
    let prev = s.get_char(quote_idx - 1);
    if prev == 'r' {
        return Some(StrKind::RawStr { hashes: 0 });
    }
    if prev != '#' {
        return Some(StrKind::Normal);
    }
    // count the hash run backward from the quote
    let mut count: usize = 0;
    while count < quote_idx && s.get_char(quote_idx - 1 - count) == '#'
        invariant
            quote_idx <= s@.len(),
            count <= quote_idx,
            spec_hash_run_back(s@, quote_idx - 1) == count + spec_hash_run_back(
                s@,
                quote_idx - 1 - count,
            ),
            forall|j: int|
                quote_idx - count <= j < quote_idx ==> s@[j] == '#',
        decreases quote_idx - count,
    {
        count = count + 1;
    }
    proof {
        assert(spec_hash_run_back(s@, quote_idx - 1 - count) == 0);
        assert(spec_hash_run_back(s@, quote_idx - 1) == count);
    }
    if count < quote_idx && s.get_char(quote_idx - 1 - count) == 'r' {
        Some(StrKind::RawStr { hashes: count })
    } else {
        None
    }
}

proof fn lemma_after_string_steps_hashes(s: Seq<char>, i: int, k: int, hashes: int, escapes: bool)
    requires
        0 <= i,
        0 <= k,
        i + k <= s.len(),
        forall|j: int| i <= j < i + k ==> s[j] == '#',
        hashes > 0,
    ensures
        spec_after_string(s, i, hashes, escapes) == spec_after_string(s, i + k, hashes, escapes),
    decreases k,
{
    if k > 0 {
        assert(s[i] == '#');
        lemma_after_string_steps_hashes(s, i + 1, k - 1, hashes, escapes);
    }
}

/// Consume the rest of a string literal of the given kind; reports
/// whether it was closed before the input ran out.
#[verifier::loop_isolation(false)]
pub fn eat_string(s: &str, pos: &mut usize, kind: StrKind) -> (r: bool)
    requires
        *old(pos) <= s@.len(),
    ensures
        *old(pos) <= *final(pos) <= s@.len(),
        ({
            let hashes = match kind@ {
                StrKindSpec::Normal => 0int,
                StrKindSpec::RawStr { hashes } => hashes,
            };
            let escapes = kind@ is Normal;
            match spec_after_string(s@, *old(pos) as int, hashes, escapes) {
                Some(p) => r == true && *final(pos) == p,
                None => r == false && *final(pos) == s@.len(),
            }
        }),
{
    let len = s.unicode_len();
    let (hashes, escapes): (usize, bool) = match kind {
        StrKind::Normal => (0, true),
        StrKind::RawStr { hashes } => (hashes, false),
    };
    while *pos < len
        invariant
            len == s@.len(),
            *pos <= len,
            *old(pos) <= *pos,
            hashes as int == (match kind@ {
                StrKindSpec::Normal => 0int,
                StrKindSpec::RawStr { hashes: h } => h,
            }),
            escapes == (kind@ is Normal),
            spec_after_string(s@, *old(pos) as int, hashes as int, escapes) == spec_after_string(
                s@,
                *pos as int,
                hashes as int,
                escapes,
            ),
        decreases len - *pos,
    {
        let c = s.get_char(*pos);
        *pos = *pos + 1;
        if c == '"' {
            if hashes == 0 {
                return true;
            }
            let ghost pq = *pos as int;
            let ghost run = spec_hash_run(s@, pq);
            let mut seen: usize = 0;
            while seen < hashes && *pos < len && s.get_char(*pos) == '#'
                invariant
                    *pos == pq + seen,
                    *pos <= len,
                    seen <= hashes,
                    run == seen + spec_hash_run(s@, *pos as int),
                    forall|j: int| pq <= j < *pos ==> s@[j] == '#',
                decreases len - *pos,
            {
                *pos = *pos + 1;
                seen = seen + 1;
            }
            proof {
                lemma_hash_run_bounds(s@, *pos as int);
            }
            if seen == hashes {
                proof {
                    assert(run >= hashes);
                }
                return true;
            }
            proof {
                assert(spec_hash_run(s@, *pos as int) == 0);
                assert(run == seen);
                assert(run < hashes);
                lemma_after_string_steps_hashes(s@, pq, seen as int, hashes as int, escapes);
            }
        } else if c == '\\' && escapes {
            if *pos < len {
                *pos = *pos + 1;
            }
        }
    }
    false
}

/// Skip the rest of a character literal after its opening quote; see
/// `spec_do_eat_char`.
#[verifier::loop_isolation(false)]
pub fn do_eat_char(s: &str, pos: &mut usize) -> (r: Option<EatCharRes>)
    requires
        *old(pos) <= s@.len(),
    ensures
        r == spec_do_eat_char(s@, *old(pos) as int).0,
        *final(pos) == spec_do_eat_char(s@, *old(pos) as int).1,
        *old(pos) <= *final(pos) <= s@.len(),
{
    let len = s.unicode_len();
    proof {
        lemma_do_eat_char_bounds(s@, *pos as int);
    }
    if *pos >= len {
        *pos = len;
        return None;
    }
    let next_c = s.get_char(*pos);
    *pos = *pos + 1;
    if next_c == '\n' || next_c == '\r' || next_c == '\t' {
        return Some(EatCharRes::SawInvalid);
    }
    if next_c == '\\' {
        if *pos >= len {
            *pos = len;
            return None;
        }
        let c = s.get_char(*pos);
        *pos = *pos + 1;
        if !(c == '\\' || c == '\'' || c == '"' || c == 'x' || c == 'u' || c == 'n' || c == 't'
            || c == 'r' || c == '0') {
            return Some(EatCharRes::SawInvalid);
        }
        let ghost start = *pos as int;
        while *pos < len
            invariant
                len == s@.len(),
                start <= *pos <= len,
                spec_scan_escape_end(s@, start) == spec_scan_escape_end(s@, *pos as int),
            decreases len - *pos,
        {
            let c2 = s.get_char(*pos);
            *pos = *pos + 1;
            if c2 == '\'' {
                return Some(EatCharRes::AteChar);
            }
            if c2 == '\n' {
                return Some(EatCharRes::SawInvalid);
            }
        }
        None
    } else {
        let could_be_lifetime = char_is_alphabetic(next_c) || next_c == '_';
        if *pos >= len {
            *pos = len;
            return None;
        }
        let maybe_end = s.get_char(*pos);
        *pos = *pos + 1;
        if maybe_end == '\'' {
            Some(EatCharRes::AteChar)
        } else if could_be_lifetime {
            Some(EatCharRes::SawLifetime)
        } else {
            Some(EatCharRes::SawInvalid)
        }
    }
}

/// Try to consume a character literal after its opening quote,
/// committing the position only when one was consumed or the input ran
/// out; see `spec_eat_char`.
pub fn eat_char(s: &str, pos: &mut usize) -> (r: Option<EatCharRes>)
    requires
        *old(pos) <= s@.len(),
    ensures
        r == spec_eat_char(s@, *old(pos) as int).0,
        *final(pos) == spec_eat_char(s@, *old(pos) as int).1,
        *old(pos) <= *final(pos) <= s@.len(),
{
    let mut scratch: usize = *pos;
    let res = do_eat_char(s, &mut scratch);
    match res {
        Some(EatCharRes::AteChar) => {
            *pos = scratch;
        },
        None => {
            *pos = scratch;
        },
        _ => {},
    }
    res
}

/// Judge whether a source fragment is complete, incomplete, or
/// malformed; see `spec_validate`.
#[verifier::loop_isolation(false)]
pub fn validate_source_fragment(source: &str) -> (r: FragmentValidity)
    ensures
        r == spec_validate(source@),
{
    let len = source.unicode_len();
    let mut stack: Vec<Bracket> = Vec::new();
    let mut attr_end: Option<usize> = None;
    let mut expects: bool = false;
    let mut i: usize = 0;
    let ghost mut fuel: nat = (source@.len() + 1) as nat;
    while i < len
        invariant
            len == source@.len(),
            i <= len,
            fuel >= len - i + 1,
            spec_validate(source@) == spec_scan(
                source@,
                i as int,
                stack@,
                spec_attr_model(attr_end),
                expects,
                fuel,
            ),
        decreases len - i,
    {
        let ghost fuel0 = fuel;
        proof {
            fuel = (fuel - 1) as nat;
        }
        let c = source.get_char(i);
        if c == '/' && i + 1 < len && source.get_char(i + 1) == '/' {
            let mut p = i + 1;
            eat_comment_line(source, &mut p);
            i = p;
        } else if c == '/' && i + 1 < len && source.get_char(i + 1) == '*' {
            let mut p = i + 2;
            if !eat_comment_block(source, &mut p) {
                return FragmentValidity::Incomplete;
            }
            proof {
                lemma_after_block_comment_bounds(source@, i + 2, 1);
            }
            i = p;
        } else if c == '(' {
            stack.push(Bracket::Round);
            expects = false;
            i = i + 1;
        } else if c == '[' {
            stack.push(Bracket::Square);
            expects = false;
            i = i + 1;
        } else if c == '{' {
            stack.push(Bracket::Curly);
            expects = false;
            i = i + 1;
        } else if c == ')' || c == ']' || c == '}' {
            if stack.len() == 0 {
                return FragmentValidity::Invalid;
            }
            let top = stack.pop().unwrap();
            if (top == Bracket::Round && c == ')') || (top == Bracket::Curly && c == '}') {
                expects = false;
                i = i + 1;
            } else if top == Bracket::Square && c == ']' {
                let mut attr_closed = false;
                match attr_end {
                    Some(d) => {
                        if stack.len() == d {
                            attr_closed = true;
                        }
                    },
                    None => {},
                }
                if attr_closed {
                    attr_end = None;
                    expects = true;
                } else {
                    expects = false;
                }
                i = i + 1;
            } else {
                return FragmentValidity::Invalid;
            }
        } else if c == '\'' {
            let mut p = i + 1;
            let res = eat_char(source, &mut p);
            match res {
                Some(EatCharRes::SawInvalid) => {
                    return FragmentValidity::Invalid;
                },
                Some(EatCharRes::AteChar) => {
                    expects = false;
                    i = p;
                },
                Some(EatCharRes::SawLifetime) => {
                    expects = false;
                    i = i + 1;
                },
                None => {
                    return FragmentValidity::Incomplete;
                },
            }
        } else if c == '"' {
            let kind = match check_raw_str(source, i) {
                Some(k) => k,
                None => {
                    return FragmentValidity::Invalid;
                },
            };
            let mut p = i + 1;
            if !eat_string(source, &mut p, kind) {
                return FragmentValidity::Incomplete;
            }
            expects = false;
            i = p;
        } else if c == '#' {
            if i + 1 < len && source.get_char(i + 1) == '[' {
                attr_end = Some(stack.len());
            }
            expects = false;
            i = i + 1;
        } else if char_is_whitespace(c) {
            i = i + 1;
        } else {
            expects = false;
            i = i + 1;
        }
    }
    if stack.len() == 0 && !expects {
        FragmentValidity::Valid
    } else {
        FragmentValidity::Incomplete
    }
}

} // verus!
