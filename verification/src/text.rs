//! Verified helpers over string slices: equality, prefix and suffix tests,
//! and the file-name arithmetic used when discovering description documents.

use vstd::prelude::*;
use vstd::string::StringExecFns;

verus! {

/// Concatenation of two string slices into an owned string.
pub fn str_concat(a: &str, b: &str) -> (r: String)
    ensures
        r@ == a@ + b@,
{
    let mut s = a.to_owned();
    s.append(b);
    s
}

/// Equality of two string slices, settled character by character.
pub fn str_eq(a: &str, b: &str) -> (r: bool)
    ensures
        r == (a@ == b@),
{
    let alen = a.unicode_len();
    let blen = b.unicode_len();
    if alen != blen {
        assert(a@ != b@) by {
            assert(a@.len() != b@.len());
        }
        return false;
    }
    let mut i: usize = 0;
    while i < alen
        invariant
            i <= alen,
            alen == a@.len(),
            alen == b@.len(),
            forall|j: int| 0 <= j < i ==> a@[j] == b@[j],
        decreases alen - i,
    {
        if a.get_char(i) != b.get_char(i) {
            return false;
        }
        i += 1;
    }
    proof {
        assert(a@ =~= b@);
    }
    true
}

/// Prefix test: does `s` start with `prefix`, codepoint by codepoint?
pub fn str_starts_with(s: &str, prefix: &str) -> (r: bool)
    ensures
        r == prefix@.is_prefix_of(s@),
{
    let plen = prefix.unicode_len();
    let slen = s.unicode_len();
    if plen > slen {
        return false;
    }
    let mut i: usize = 0;
    while i < plen
        invariant
            i <= plen,
            plen == prefix@.len(),
            slen == s@.len(),
            plen <= slen,
            forall|j: int| 0 <= j < i ==> prefix@[j] == s@[j],
        decreases plen - i,
    {
        if prefix.get_char(i) != s.get_char(i) {
            assert(!prefix@.is_prefix_of(s@)) by {
                assert(s@.subrange(0, prefix@.len() as int)[i as int] == s@[i as int]);
            }
            return false;
        }
        i += 1;
    }
    proof {
        assert(prefix@ =~= s@.subrange(0, prefix@.len() as int));
    }
    true
}

/// The file stem of a name: everything before the last dot, except that a
/// name without a dot, or with its only dot in front, is its own stem.
pub open spec fn stem_of(name: Seq<char>) -> Seq<char> {
    match name.index_of_last('.') {
        Some(i) => if i > 0 {
            name.subrange(0, i)
        } else {
            name
        },
        None => name,
    }
}

/// The extension of a name: everything after the last dot, when that dot is
/// neither the first character nor absent.
pub open spec fn extension_of(name: Seq<char>) -> Option<Seq<char>> {
    match name.index_of_last('.') {
        Some(i) => if i > 0 {
            Some(name.subrange(i + 1, name.len() as int))
        } else {
            None
        },
        None => None,
    }
}

/// The position of the last dot of `name`, or its length when it has none.
fn scan_last_dot(name: &str) -> (r: usize)
    ensures
        name@.index_of_last('.') == (if r == name@.len() {
            Option::<int>::None
        } else {
            Option::<int>::Some(r as int)
        }),
        r <= name@.len(),
{
    let n = name.unicode_len();
    let mut i: usize = 0;
    let mut last: usize = n;
    while i < n
        invariant
            i <= n,
            n == name@.len(),
            last == n || (last < i && name@[last as int] == '.'),
            forall|j: int| 0 <= j < i && name@[j] == '.' ==> last != n && j <= last,
        decreases n - i,
    {
        if name.get_char(i) == '.' {
            last = i;
        }
        i += 1;
    }
    proof {
        name@.index_of_last_ensures('.');
    }
    last
}

/// The file stem of a name, as `stem_of` gives it.
pub fn service_key_of(name: &str) -> (r: String)
    ensures
        r@ == stem_of(name@),
{
    let n = name.unicode_len();
    let last = scan_last_dot(name);
    if last == n || last == 0 {
        name.to_owned()
    } else {
        name.substring_char(0, last).to_owned()
    }
}

/// Whether a file name carries one of the two description-document
/// extensions.
pub open spec fn is_spec_file_name(name: Seq<char>) -> bool {
    extension_of(name) == Some("yaml"@) || extension_of(name) == Some("yml"@)
}

/// Does this file name name a description document (extension `yaml` or
/// `yml`)?
pub fn is_spec_file(name: &str) -> (r: bool)
    ensures
        r == is_spec_file_name(name@),
{
    let n = name.unicode_len();
    let last = scan_last_dot(name);
    if last == n || last == 0 {
        return false;
    }
    let ext = name.substring_char(last + 1, n);
    str_eq(ext, "yaml") || str_eq(ext, "yml")
}

} // verus!
