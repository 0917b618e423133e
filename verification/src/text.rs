//! Strings: byte lengths, trimming, upper case, searching, the modhex
//! alphabet, and a comparison that always looks at every byte.

use vstd::prelude::*;
use vstd::string::*;
use vstd::utf8::*;

verus! {

/// What a list of strings holds.
pub open spec fn texts(list: Seq<String>) -> Seq<Seq<char>> {
    list.map_values(|s: String| s@)
}

/// What an optional string holds.
pub open spec fn opt_text(o: Option<String>) -> Option<Seq<char>> {
    match o {
        Some(s) => Some(s@),
        None => None,
    }
}

/// The length of a string in bytes.
pub open spec fn byte_len(s: Seq<char>) -> nat {
    encode_utf8(s).len()
}

/// The characters with Unicode's White_Space property.
pub open spec fn is_white_space(c: char) -> bool {
    let u = c as u32;
    ||| 0x9 <= u <= 0xd
    ||| u == 0x20
    ||| u == 0x85
    ||| u == 0xa0
    ||| u == 0x1680
    ||| 0x2000 <= u <= 0x200a
    ||| u == 0x2028
    ||| u == 0x2029
    ||| u == 0x202f
    ||| u == 0x205f
    ||| u == 0x3000
}

/// `s` without its leading white space.
pub open spec fn trimmed_start(s: Seq<char>) -> Seq<char>
    decreases s.len(),
{
    if s.len() > 0 && is_white_space(s.first()) {
        trimmed_start(s.drop_first())
    } else {
        s
    }
}

/// `s` without its trailing white space.
pub open spec fn trimmed_end(s: Seq<char>) -> Seq<char>
    decreases s.len(),
{
    if s.len() > 0 && is_white_space(s.last()) {
        trimmed_end(s.drop_last())
    } else {
        s
    }
}

/// `s` without white space at either end.
pub open spec fn trimmed(s: Seq<char>) -> Seq<char> {
    trimmed_end(trimmed_start(s))
}

/// The upper-case form of an ASCII character; any other character unchanged.
pub open spec fn ascii_upper(c: char) -> char {
    if 'a' <= c <= 'z' {
        ((c as u32) - 32) as char
    } else {
        c
    }
}

/// What `str::to_uppercase` makes of a string that is not all ASCII.
pub uninterp spec fn unicode_uppercase(s: Seq<char>) -> Seq<char>;

/// `s` in upper case.
pub open spec fn uppercase(s: Seq<char>) -> Seq<char> {
    if is_ascii_chars(s) {
        s.map_values(|c: char| ascii_upper(c))
    } else {
        unicode_uppercase(s)
    }
}

/// Whether `needle` stands somewhere in `hay`.
pub open spec fn occurs(needle: Seq<char>, hay: Seq<char>) -> bool {
    exists|i: int|
        0 <= i && i + needle.len() <= hay.len() && #[trigger] hay.subrange(
            i,
            i + needle.len(),
        ) == needle
}

/// The sixteen characters of the modhex alphabet.
pub open spec fn is_modhex(c: char) -> bool {
    "cbdefghijklnrtuv"@.contains(c)
}

/// Whether every character of `s` is modhex.
pub open spec fn all_modhex(s: Seq<char>) -> bool {
    forall|i: int| 0 <= i < s.len() ==> is_modhex(#[trigger] s[i])
}

/// Calls `str::trim`: the string without White_Space characters at its ends.
#[verifier::external_body]
pub(crate) fn trim(s: &str) -> (r: String)
    ensures
        r@ == trimmed(s@),
{
    s.trim().to_string()
}

/// Calls `str::to_uppercase`: on an ASCII string each of `a` to `z` is replaced by
/// its capital; on any other string the result is named, not described.
#[verifier::external_body]
pub(crate) fn to_uppercase(s: &str) -> (r: String)
    ensures
        is_ascii_chars(s@) ==> r@ == s@.map_values(|c: char| ascii_upper(c)),
        !is_ascii_chars(s@) ==> r@ == unicode_uppercase(s@),
{
    s.to_uppercase()
}

/// Calls `str::contains` with a string as the pattern: whether it is found anywhere.
#[verifier::external_body]
pub(crate) fn contains(hay: &str, needle: &str) -> (r: bool)
    ensures
        r == occurs(needle@, hay@),
{
    hay.contains(needle)
}

/// An ASCII string in upper case stays as it is when it is put in upper case again.
pub proof fn uppercase_twice(s: Seq<char>)
    requires
        is_ascii_chars(s),
    ensures
        is_ascii_chars(uppercase(s)),
        uppercase(uppercase(s)) == uppercase(s),
{
    let upper = uppercase(s);
    assert forall|i: int| 0 <= i < upper.len() implies '\0' <= #[trigger] upper[i] <= '\u{7f}'
        && ascii_upper(upper[i]) == upper[i] by {
        assert('\0' <= s[i] <= '\u{7f}');
        assert(upper[i] == ascii_upper(s[i]));
    }
    assert(uppercase(upper) =~= upper);
}

/// A modhex character is ASCII, and is one of sixteen letters.
pub proof fn modhex_letters(c: char)
    ensures
        is_modhex(c) == (c == 'c' || c == 'b' || ('d' <= c && c <= 'l') || c == 'n' || c == 'r'
            || ('t' <= c && c <= 'v')),
        is_modhex(c) ==> (c as u32) < 128,
{
    reveal_strlit("cbdefghijklnrtuv");
    let m = "cbdefghijklnrtuv"@;
    assert(m.len() == 16);
    if c == 'c' || c == 'b' || ('d' <= c && c <= 'l') || c == 'n' || c == 'r' || ('t' <= c && c
        <= 'v') {
        assert(m[0] == 'c' && m[1] == 'b' && m[2] == 'd' && m[3] == 'e' && m[4] == 'f' && m[5]
            == 'g' && m[6] == 'h' && m[7] == 'i' && m[8] == 'j' && m[9] == 'k' && m[10] == 'l'
            && m[11] == 'n' && m[12] == 'r' && m[13] == 't' && m[14] == 'u' && m[15] == 'v');
        assert(exists|i: int| 0 <= i < m.len() && m[i] == c);
    }
}

/// A modhex string has as many bytes as characters.
pub proof fn modhex_is_ascii(s: Seq<char>)
    requires
        all_modhex(s),
    ensures
        is_ascii_chars(s),
        byte_len(s) == s.len(),
{
    assert forall|i: int| 0 <= i < s.len() implies '\0' <= #[trigger] s[i] <= '\u{7f}' by {
        assert(is_modhex(s[i]));
        modhex_letters(s[i]);
    }
    is_ascii_chars_encode_utf8(s);
}

/// The length of `s` in bytes.
pub(crate) fn len_in_bytes(s: &str) -> (n: usize)
    ensures
        n == byte_len(s@),
{
    s.as_bytes().len()
}

/// The characters of `s`.
pub(crate) fn to_chars(s: &str) -> (v: Vec<char>)
    ensures
        v@ == s@,
{
    let mut v: Vec<char> = Vec::new();
    for c in iter: s.chars()
        invariant
            v@ == iter.seq().take(iter.index()),
            iter.seq() == s@,
    {
        v.push(c);
    }
    v
}

/// Whether every character of `s` is modhex.
pub(crate) fn is_all_modhex(s: &str) -> (r: bool)
    ensures
        r == all_modhex(s@),
{
    let chars = to_chars(s);
    for i in 0..chars.len()
        invariant
            chars@ == s@,
            forall|j: int| 0 <= j < i ==> is_modhex(#[trigger] s@[j]),
    {
        let c = chars[i];
        proof {
            modhex_letters(c);
        }
        let ok = c == 'c' || c == 'b' || ('d' <= c && c <= 'l') || c == 'n' || c == 'r' || ('t'
            <= c && c <= 'v');
        if !ok {
            assert(!is_modhex(s@[i as int]));
            return false;
        }
    }
    true
}

/// Whether two strings are equal. Strings of one length are compared byte by
/// byte to the end, wherever they differ first.
pub fn ct_eq(a: &str, b: &str) -> (r: bool)
    ensures
        r == (a@ == b@),
{
    let x = a.as_bytes();
    let y = b.as_bytes();
    proof {
        encode_utf8_decode_utf8(a@);
        encode_utf8_decode_utf8(b@);
    }
    if x.len() != y.len() {
        return false;
    }
    let mut difference: u8 = 0;
    assert(x@.take(0) == y@.take(0));
    for i in 0..x.len()
        invariant
            x@.len() == y@.len(),
            difference == 0 <==> x@.take(i as int) == y@.take(i as int),
    {
        let p = x[i];
        let q = y[i];
        assert(difference | (p ^ q) == 0 <==> difference == 0 && p == q) by (bit_vector);
        difference = difference | (p ^ q);
        proof {
            assert(x@.take(i + 1) == x@.take(i as int).push(p));
            assert(y@.take(i + 1) == y@.take(i as int).push(q));
            if x@.take(i + 1) == y@.take(i + 1) {
                assert(x@.take(i + 1)[i as int] == y@.take(i + 1)[i as int]);
                assert(x@.take(i + 1).take(i as int) == x@.take(i as int));
                assert(y@.take(i + 1).take(i as int) == y@.take(i as int));
            }
        }
    }
    assert(x@.take(x@.len() as int) == x@);
    assert(y@.take(y@.len() as int) == y@);
    difference == 0
}

} // verus!
