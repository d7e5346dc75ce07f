//! Route exemption policy: decides from the request path alone whether a
//! request may bypass authentication.
//!
//! Matching is substring based: a path that merely contains an exempt
//! fragment is exempt. The one exception is the login route, which must
//! match exactly. The fragment list mirrors the deployed endpoint set
//! (self-registration, static assets, profile upload, guest access,
//! student login, facility image upload, user management).

use vstd::prelude::*;

verus! {

/// `needle` occurs in `hay` starting at position `i`.
pub open spec fn matches_at(hay: Seq<char>, needle: Seq<char>, i: int) -> bool {
    &&& 0 <= i
    &&& i + needle.len() <= hay.len()
    &&& hay.subrange(i, i + needle.len() as int) == needle
}

/// `needle` occurs somewhere in `hay`.
pub open spec fn contains_seq(hay: Seq<char>, needle: Seq<char>) -> bool {
    exists|i: int| matches_at(hay, needle, i)
}

/// A path is exempt when it contains one of the exempt fragments or is
/// exactly the login route.
pub open spec fn is_exempt(path: Seq<char>) -> bool {
    ||| contains_seq(path, "add-student"@)
    ||| contains_seq(path, "/static"@)
    ||| contains_seq(path, "/student/upload-profile"@)
    ||| path == "/api/login"@
    ||| contains_seq(path, "/guest-access"@)
    ||| contains_seq(path, "student/login"@)
    ||| contains_seq(path, "uploade_facility_image"@)
    ||| contains_seq(path, "user"@)
}

/// Whether `needle` occurs in `hay` starting at position `i`.
fn matches_at_exec(hay: &str, needle: &str, i: usize, hay_len: usize, needle_len: usize) -> (r:
    bool)
    requires
        hay_len == hay@.len(),
        needle_len == needle@.len(),
        i + needle_len <= hay_len,
    ensures
        r == matches_at(hay@, needle@, i as int),
{
    let mut j: usize = 0;
    while j < needle_len
        invariant
            hay_len == hay@.len(),
            needle_len == needle@.len(),
            i + needle_len <= hay_len,
            0 <= j <= needle_len,
            forall|k: int| 0 <= k < j ==> hay@[i + k] == needle@[k],
        decreases needle_len - j,
    {
        if hay.get_char(i + j) != needle.get_char(j) {
            assert(hay@.subrange(i as int, i + needle@.len() as int)[j as int] != needle@[j as int]);
            return false;
        }
        j = j + 1;
    }
    assert(hay@.subrange(i as int, i + needle@.len() as int) =~= needle@);
    true
}

/// Whether `needle` occurs anywhere in `hay`.
fn contains_str(hay: &str, needle: &str) -> (r: bool)
    ensures
        r == contains_seq(hay@, needle@),
{
    let hay_len: usize = hay.unicode_len();
    let needle_len: usize = needle.unicode_len();
    if needle_len > hay_len {
        assert(forall|i: int| !matches_at(hay@, needle@, i));
        return false;
    }
    if needle_len == 0 {
        assert(matches_at(hay@, needle@, 0)) by {
            assert(hay@.subrange(0, 0) =~= needle@);
        }
        return true;
    }
    let mut i: usize = 0;
    while i <= hay_len - needle_len
        invariant
            hay_len == hay@.len(),
            needle_len == needle@.len(),
            1 <= needle_len <= hay_len,
            0 <= i <= hay_len - needle_len + 1,
            forall|k: int| 0 <= k < i ==> !matches_at(hay@, needle@, k),
        decreases hay_len - needle_len + 1 - i,
    {
        if matches_at_exec(hay, needle, i, hay_len, needle_len) {
            return true;
        }
        i = i + 1;
    }
    assert(forall|k: int| matches_at(hay@, needle@, k) ==> 0 <= k <= hay@.len() - needle@.len());
    false
}

/// Whether two strings hold the same characters.
pub fn str_equal(a: &str, b: &str) -> (r: bool)
    ensures
        r == (a@ == b@),
{
    let a_len: usize = a.unicode_len();
    let b_len: usize = b.unicode_len();
    if a_len != b_len {
        return false;
    }
    let mut i: usize = 0;
    while i < a_len
        invariant
            a_len == a@.len(),
            b_len == b@.len(),
            a_len == b_len,
            0 <= i <= a_len,
            forall|k: int| 0 <= k < i ==> a@[k] == b@[k],
        decreases a_len - i,
    {
        if a.get_char(i) != b.get_char(i) {
            return false;
        }
        i = i + 1;
    }
    assert(a@ =~= b@);
    true
}

/// Classifies a request path: true means the path bypasses the
/// authentication gate entirely.
#[allow(non_snake_case)]
pub fn isStatic(path: String) -> (r: bool)
    ensures
        r == is_exempt(path@),
{
    let p = path.as_str();
    contains_str(p, "add-student") || contains_str(p, "/static") || contains_str(
        p,
        "/student/upload-profile",
    ) || str_equal(p, "/api/login") || contains_str(p, "/guest-access") || contains_str(
        p,
        "student/login",
    ) || contains_str(p, "uploade_facility_image") || contains_str(p, "user")
}

} // verus!
