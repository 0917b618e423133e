//! Fresh identifiers.

use vstd::prelude::*;
use vstd::string::*;

use crate::text::to_chars;

verus! {

/// A lower-case hexadecimal digit.
pub open spec fn is_hex(c: char) -> bool {
    '0' <= c <= '9' || 'a' <= c <= 'f'
}

/// The places of the hyphens in a UUID.
pub open spec fn is_hyphen_place(i: int) -> bool {
    i == 8 || i == 13 || i == 18 || i == 23
}

/// A random UUID in its usual form: 32 lower-case hexadecimal digits in groups of
/// 8, 4, 4, 4 and 12, with the version digit 4 and a variant digit of 8, 9, a or b.
pub open spec fn is_uuid(s: Seq<char>) -> bool {
    &&& s.len() == 36
    &&& forall|i: int|
        0 <= i < 36 ==> if is_hyphen_place(i) {
            #[trigger] s[i] == '-'
        } else {
            is_hex(s[i])
        }
    &&& s[14] == '4'
    &&& s[19] == '8' || s[19] == '9' || s[19] == 'a' || s[19] == 'b'
}

/// `Uuid::new_v4` and its `to_string`: a random UUID, hyphenated and in lower case.
/// Nothing is said of which one; that it differs from all others is left to chance.
#[verifier::external_body]
pub(crate) fn new_uuid() -> (id: String)
    ensures
        is_uuid(id@),
{
    uuid::Uuid::new_v4().to_string()
}

/// `s` without its hyphens.
pub open spec fn without_hyphens(s: Seq<char>) -> Seq<char>
    decreases s.len(),
{
    if s.len() == 0 {
        s
    } else if s.last() == '-' {
        without_hyphens(s.drop_last())
    } else {
        without_hyphens(s.drop_last()).push(s.last())
    }
}

/// `s` without its hyphens.
pub fn remove_hyphens(s: &str) -> (r: String)
    ensures
        r@ == without_hyphens(s@),
{
    let chars = to_chars(s);
    let mut r = String::new();
    for i in 0..chars.len()
        invariant
            chars@ == s@,
            r@ == without_hyphens(s@.take(i as int)),
    {
        assert(s@.take(i + 1).drop_last() == s@.take(i as int));
        if chars[i] != '-' {
            r.append(s.substring_char(i, i + 1));
        }
    }
    assert(s@.take(s@.len() as int) == s@);
    r
}

/// How many of the hyphens of a UUID stand before place `k`.
spec fn hyphens_before(k: int) -> int {
    (if k > 8 { 1int } else { 0 }) + (if k > 13 { 1int } else { 0 }) + (if k > 18 { 1int } else {
        0
    }) + (if k > 23 { 1int } else { 0 })
}

/// The first `k` places of a UUID, without hyphens.
proof fn uuid_prefix_digits(id: Seq<char>, k: nat)
    requires
        is_uuid(id),
        k <= 36,
    ensures
        without_hyphens(id.take(k as int)).len() == k - hyphens_before(k as int),
        forall|i: int|
            0 <= i < without_hyphens(id.take(k as int)).len() ==> is_hex(
                #[trigger] without_hyphens(id.take(k as int))[i],
            ),
    decreases k,
{
    if k > 0 {
        uuid_prefix_digits(id, (k - 1) as nat);
        assert(id.take(k as int).drop_last() == id.take(k - 1));
        assert(id.take(k as int).last() == id[k - 1]);
    }
}

/// A UUID without its hyphens is 32 hexadecimal digits.
pub proof fn uuid_digits(id: Seq<char>)
    requires
        is_uuid(id),
    ensures
        without_hyphens(id).len() == 32,
        forall|i: int| 0 <= i < 32 ==> is_hex(#[trigger] without_hyphens(id)[i]),
{
    uuid_prefix_digits(id, 36);
    assert(id.take(36) == id);
}

} // verus!
