//! Debug-info type names.
//!
//! Converts fully qualified type names from debug information into plain
//! Rust surface syntax by stripping well-known standard-library path
//! prefixes and trailing symbol-hash suffixes.

use vstd::prelude::*;
use vstd::string::StrSliceExecFns;
use vstd::string::StringExecFns;

use crate::text::matches_at;

verus! {

/// Errors of debug-info type-name processing.
#[derive(Debug)]
pub enum DwarfError {
    ParseError(String),
}

/// `s` with every occurrence of `pat` removed, scanning left to right
/// without overlap.
pub open spec fn spec_remove_all(s: Seq<char>, pat: Seq<char>) -> Seq<char>
    recommends
        pat.len() > 0,
    decreases s.len(),
{
    if s.len() < pat.len() || pat.len() == 0 {
        s
    } else if s.subrange(0, pat.len() as int) == pat {
        spec_remove_all(s.skip(pat.len() as int), pat)
    } else {
        seq![s[0]] + spec_remove_all(s.skip(1), pat)
    }
}

/// The least position at or after `i` where `pat` occurs in `s`.
pub open spec fn spec_find_from(s: Seq<char>, pat: Seq<char>, i: int) -> Option<int>
    decreases s.len() + 1 - i,
{
    if i < 0 || i + pat.len() > s.len() {
        None
    } else if s.subrange(i, i + pat.len()) == pat {
        Some(i)
    } else {
        spec_find_from(s, pat, i + 1)
    }
}

/// ASCII hexadecimal digits.
pub open spec fn spec_is_hex_digit(c: char) -> bool {
    ('0' <= c && c <= '9') || ('a' <= c && c <= 'f') || ('A' <= c && c <= 'F')
}

/// Remove every occurrence of `pat` from `s`.
fn remove_all(s: &str, pat: &str) -> (r: String)
    requires
        pat@.len() > 0,
    ensures
        r@ == spec_remove_all(s@, pat@),
{
    let len = s.unicode_len();
    let plen = pat.unicode_len();
    let mut out = String::new();
    let mut i: usize = 0;
    proof {
        assert(s@.skip(0) =~= s@);
        assert(out@ + spec_remove_all(s@, pat@) =~= spec_remove_all(s@, pat@));
    }
    while i < len
        invariant
            len == s@.len(),
            plen == pat@.len(),
            plen > 0,
            i <= len,
            spec_remove_all(s@, pat@) == out@ + spec_remove_all(s@.skip(i as int), pat@),
        decreases len - i,
    {
        let ghost rest = s@.skip(i as int);
        if matches_at(s, i, pat) {
            proof {
                assert(rest.subrange(0, plen as int) =~= s@.subrange(i as int, i + plen));
                assert(rest.skip(plen as int) =~= s@.skip(i + plen));
            }
            i = i + plen;
        } else {
            let piece = s.substring_char(i, i + 1);
            proof {
                if rest.len() >= plen {
                    assert(rest.subrange(0, plen as int) =~= s@.subrange(i as int, i + plen));
                }
                assert(rest.skip(1) =~= s@.skip(i + 1));
                assert(piece@ =~= seq![rest[0]]);
                assert(out@ + spec_remove_all(rest, pat@) =~= (out@ + piece@)
                    + spec_remove_all(s@.skip(i + 1), pat@));
            }
            out.append(piece);
            i = i + 1;
        }
    }
    proof {
        assert(s@.skip(len as int) =~= Seq::<char>::empty());
        assert(out@ + Seq::<char>::empty() =~= out@);
    }
    out
}

/// Find the first occurrence of `pat` in `s`.
fn find_first(s: &str, pat: &str) -> (r: Option<usize>)
    requires
        pat@.len() > 0,
    ensures
        match r {
            Some(p) => spec_find_from(s@, pat@, 0) == Some(p as int) && p + pat@.len()
                <= s@.len(),
            None => spec_find_from(s@, pat@, 0) is None,
        },
{
    let len = s.unicode_len();
    let plen = pat.unicode_len();
    if plen > len {
        return None;
    }
    let mut i: usize = 0;
    while i <= len - plen
        invariant
            len == s@.len(),
            plen == pat@.len(),
            plen >= 1,
            plen <= len,
            i <= len - plen + 1,
            spec_find_from(s@, pat@, 0) == spec_find_from(s@, pat@, i as int),
        decreases len - i,
    {
        if matches_at(s, i, pat) {
            return Some(i);
        }
        i = i + 1;
    }
    None
}

/// Whether every character of `s` from position `from` on is an ASCII
/// hex digit.
fn all_hex_from(s: &str, from: usize) -> (r: bool)
    requires
        from <= s@.len(),
    ensures
        r == forall|j: int| from <= j < s@.len() ==> spec_is_hex_digit(#[trigger] s@[j]),
{
    let len = s.unicode_len();
    let mut i: usize = from;
    while i < len
        invariant
            len == s@.len(),
            from <= i <= len,
            forall|j: int| from <= j < i ==> spec_is_hex_digit(#[trigger] s@[j]),
        decreases len - i,
    {
        let c = s.get_char(i);
        if !(('0' <= c && c <= '9') || ('a' <= c && c <= 'f') || ('A' <= c && c <= 'F')) {
            return false;
        }
        i = i + 1;
    }
    true
}

/// The standard-library path prefixes stripped from debug-info names,
/// applied in this order.
pub open spec fn spec_strip_std_paths(s: Seq<char>) -> Seq<char> {
    let r1 = spec_remove_all(s, "alloc::string::"@);
    let r2 = spec_remove_all(r1, "alloc::vec::"@);
    let r3 = spec_remove_all(r2, "alloc::boxed::"@);
    let r4 = spec_remove_all(r3, "alloc::sync::"@);
    let r5 = spec_remove_all(r4, "alloc::rc::"@);
    let r6 = spec_remove_all(r5, "alloc::borrow::"@);
    let r7 = spec_remove_all(r6, "alloc::collections::"@);
    let r8 = spec_remove_all(r7, "core::option::"@);
    let r9 = spec_remove_all(r8, "core::result::"@);
    let r10 = spec_remove_all(r9, "core::cell::"@);
    let r11 = spec_remove_all(r10, "std::collections::"@);
    spec_remove_all(r11, "std::sync::"@)
}

/// What `dwarf_type_to_rust` returns: the name with standard-library
/// prefixes removed and, if the first `::h` is followed only by hex
/// digits, the hash suffix cut off.
pub open spec fn spec_dwarf_rust_name(s: Seq<char>) -> Seq<char> {
    let r = spec_strip_std_paths(s);
    match spec_find_from(r, "::h"@, 0) {
        Some(p) => if forall|j: int| p + 3 <= j < r.len() ==> spec_is_hex_digit(#[trigger] r[j]) {
            r.subrange(0, p)
        } else {
            r
        },
        None => r,
    }
}

/// Convert a debug-info type name to Rust surface syntax; this never
/// fails, the `Result` mirrors the boundary it sits on.
pub fn dwarf_type_to_rust(dwarf_name: &str) -> (r: Result<String, DwarfError>)
    ensures
        r matches Ok(s) && s@ == spec_dwarf_rust_name(dwarf_name@),
{
    proof {
        reveal_strlit("alloc::string::");
        reveal_strlit("alloc::vec::");
        reveal_strlit("alloc::boxed::");
        reveal_strlit("alloc::sync::");
        reveal_strlit("alloc::rc::");
        reveal_strlit("alloc::borrow::");
        reveal_strlit("alloc::collections::");
        reveal_strlit("core::option::");
        reveal_strlit("core::result::");
        reveal_strlit("core::cell::");
        reveal_strlit("std::collections::");
        reveal_strlit("std::sync::");
        reveal_strlit("::h");
    }
    let r1 = remove_all(dwarf_name, "alloc::string::");
    let r2 = remove_all(r1.as_str(), "alloc::vec::");
    let r3 = remove_all(r2.as_str(), "alloc::boxed::");
    let r4 = remove_all(r3.as_str(), "alloc::sync::");
    let r5 = remove_all(r4.as_str(), "alloc::rc::");
    let r6 = remove_all(r5.as_str(), "alloc::borrow::");
    let r7 = remove_all(r6.as_str(), "alloc::collections::");
    let r8 = remove_all(r7.as_str(), "core::option::");
    let r9 = remove_all(r8.as_str(), "core::result::");
    let r10 = remove_all(r9.as_str(), "core::cell::");
    let r11 = remove_all(r10.as_str(), "std::collections::");
    let result = remove_all(r11.as_str(), "std::sync::");
    let found = find_first(result.as_str(), "::h");
    match found {
        Some(pos) => {
            let rlen = result.as_str().unicode_len();
            proof {
                reveal_strlit("::h");
                assert(("::h"@).len() == 3);
                assert(pos + 3 <= rlen);
            }
            if all_hex_from(result.as_str(), pos + 3) {
                let cut = result.as_str().substring_char(0, pos);
                Ok(cut.to_owned())
            } else {
                Ok(result)
            }
        },
        None => Ok(result),
    }
}

/// Information about a local variable extracted from debug info.
#[derive(Debug, Clone)]
pub struct VariableInfo {
    pub name: String,
    pub type_label: String,
    pub rust_type: String,
    /// String representation of the value (for primitive types).
    pub value: String,
}

impl VariableInfo {
    pub fn new(name: String, type_label: String) -> (r: Result<Self, DwarfError>)
        ensures
            r matches Ok(vi) && vi.name == name && vi.type_label == type_label && vi.rust_type@
                == spec_dwarf_rust_name(type_label@) && vi.value@.len() == 0,
    {
        let rust_type = dwarf_type_to_rust(type_label.as_str()).unwrap();
        Ok(VariableInfo { name, type_label, rust_type, value: String::new() })
    }

    pub fn with_value(name: String, type_label: String, value: String) -> (r: Result<
        Self,
        DwarfError,
    >)
        ensures
            r matches Ok(vi) && vi.name == name && vi.type_label == type_label && vi.rust_type@
                == spec_dwarf_rust_name(type_label@) && vi.value == value,
    {
        let rust_type = dwarf_type_to_rust(type_label.as_str()).unwrap();
        Ok(VariableInfo { name, type_label, rust_type, value })
    }
}

} // verus!
