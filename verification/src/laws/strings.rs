//! Trimming, upper case, searching, and fields of JSON objects.

use vstd::prelude::*;
use vstd::utf8::*;

use crate::json::{text_field, Json};
use crate::text::{
    byte_len, is_white_space, occurs, trimmed, trimmed_end, trimmed_start, unicode_uppercase,
    uppercase,
};

verus! {

/// What is left of a text without its leading white space, from place `i` on.
proof fn start_is_cut(s: Seq<char>) -> (i: int)
    ensures
        0 <= i <= s.len(),
        trimmed_start(s) == s.skip(i),
        forall|j: int| 0 <= j < i ==> is_white_space(#[trigger] s[j]),
        i < s.len() ==> !is_white_space(s[i]),
    decreases s.len(),
{
    if s.len() > 0 && is_white_space(s.first()) {
        let rest = s.drop_first();
        let i = start_is_cut(rest);
        assert(rest.skip(i) =~= s.skip(i + 1));
        assert forall|j: int| 0 <= j < i + 1 implies is_white_space(#[trigger] s[j]) by {
            if j > 0 {
                assert(s[j] == rest[j - 1]);
            }
        }
        i + 1
    } else {
        assert(s.skip(0) =~= s);
        0
    }
}

/// What is left of a text without its trailing white space, up to place `j`.
proof fn end_is_cut(s: Seq<char>) -> (j: int)
    ensures
        0 <= j <= s.len(),
        trimmed_end(s) == s.take(j),
        forall|k: int| j <= k < s.len() ==> is_white_space(#[trigger] s[k]),
        j > 0 ==> !is_white_space(s[j - 1]),
    decreases s.len(),
{
    if s.len() > 0 && is_white_space(s.last()) {
        let rest = s.drop_last();
        let j = end_is_cut(rest);
        assert(rest.take(j) =~= s.take(j));
        assert forall|k: int| j <= k < s.len() implies is_white_space(#[trigger] s[k]) by {
            if k < rest.len() {
                assert(s[k] == rest[k]);
            }
        }
        j
    } else {
        assert(s.take(s.len() as int) =~= s);
        s.len() as int
    }
}

/// A trimmed text is the text between white space: nothing but white space stands before
/// and after it, and it neither starts nor ends with any.
pub proof fn trimming_cuts_white_space(s: Seq<char>)
    ensures
        exists|before: Seq<char>, after: Seq<char>|
            {
                &&& s == #[trigger] (before + trimmed(s) + after)
                &&& forall|i: int| 0 <= i < before.len() ==> is_white_space(#[trigger] before[i])
                &&& forall|i: int| 0 <= i < after.len() ==> is_white_space(#[trigger] after[i])
            },
        trimmed(s).len() > 0 ==> !is_white_space(trimmed(s).first()) && !is_white_space(
            trimmed(s).last(),
        ),
        trimmed(s).len() == 0 <==> forall|i: int| 0 <= i < s.len() ==> is_white_space(#[trigger] s[i]),
{
    let i = start_is_cut(s);
    let rest = s.skip(i);
    let j = end_is_cut(rest);
    let before = s.take(i);
    let after = rest.skip(j);
    let middle = trimmed(s);
    assert(middle == rest.take(j));
    assert(s =~= before + middle + after);
    assert forall|k: int| 0 <= k < after.len() implies is_white_space(#[trigger] after[k]) by {
        assert(after[k] == rest[j + k]);
    }
    assert forall|k: int| 0 <= k < before.len() implies is_white_space(#[trigger] before[k]) by {
        assert(before[k] == s[k]);
    }
    if j > 0 {
        assert(rest[0] == s[i]);
        assert(middle.first() == s[i]);
        assert(middle.last() == rest[j - 1]);
    } else {
        assert forall|k: int| 0 <= k < s.len() implies is_white_space(#[trigger] s[k]) by {
            if k >= i {
                assert(s[k] == rest[k - i]);
            }
        }
    }
}

/// Spaces, tabs and line ends are white space, and no printable ASCII character is.
pub proof fn white_space_is_blank(c: char)
    ensures
        c == ' ' || c == '\t' || c == '\n' || c == '\r' ==> is_white_space(c),
        '!' <= c <= '~' ==> !is_white_space(c),
{
}

/// An ASCII text in upper case has the same length and no letter from `a` to `z`: each of
/// those is replaced by the capital 32 places before it, and every other character stays.
pub proof fn upper_case_has_capitals_only(s: Seq<char>)
    requires
        is_ascii_chars(s),
    ensures
        uppercase(s).len() == s.len(),
        forall|i: int|
            0 <= i < s.len() ==> {
                let c = #[trigger] uppercase(s)[i];
                &&& !('a' <= c <= 'z')
                &&& if 'a' <= s[i] <= 'z' {
                    c as int == s[i] as int - 32
                } else {
                    c == s[i]
                }
            },
{
}

/// A text that is not all ASCII is put in upper case as `str::to_uppercase` does it.
pub proof fn upper_case_goes_beyond_ascii(s: Seq<char>)
    requires
        !is_ascii_chars(s),
    ensures
        uppercase(s) == unicode_uppercase(s),
{
}

/// A text is as long in bytes as its UTF-8 is; an ASCII text has one byte for each character.
pub proof fn bytes_are_those_of_utf8(s: Seq<char>)
    ensures
        byte_len(s) == encode_utf8(s).len(),
        is_ascii_chars(s) ==> byte_len(s) == s.len(),
{
    if is_ascii_chars(s) {
        is_ascii_chars_encode_utf8(s);
    }
}

/// A text stands in another exactly if that is the text with something before it and
/// something after it.
pub proof fn occurring_is_standing_between(needle: Seq<char>, hay: Seq<char>)
    ensures
        occurs(needle, hay) <==> exists|before: Seq<char>, after: Seq<char>|
            hay == #[trigger] (before + needle + after),
{
    if occurs(needle, hay) {
        let i = choose|i: int|
            0 <= i && i + needle.len() <= hay.len() && #[trigger] hay.subrange(
                i,
                i + needle.len(),
            ) == needle;
        assert(hay =~= hay.take(i) + needle + hay.skip(i + needle.len()));
    }
    if exists|before: Seq<char>, after: Seq<char>| hay == #[trigger] (before + needle + after) {
        let (before, after) = choose|before: Seq<char>, after: Seq<char>|
            hay == #[trigger] (before + needle + after);
        let i = before.len() as int;
        assert(hay.subrange(i, i + needle.len()) =~= needle);
    }
}

/// A column holds a text exactly if the row is an object with that field, and the field is
/// that text; the empty text is one too.
pub proof fn columns_hold_text(row: Json, name: Seq<char>, text: Seq<char>)
    ensures
        text_field(row, name) == Some(text) <==> (row matches Json::Object(map)
            && map.dom().contains(name) && map[name] == Json::Text(text)),
{
}

} // verus!
