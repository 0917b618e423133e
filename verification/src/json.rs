//! JSON values: building response bodies, reading columns, and the text of a
//! list of strings.
//!
//! The values themselves are `serde_json`'s. [`Json`] is what contracts say
//! of them.

use vstd::prelude::*;

use crate::text::texts;

verus! {

/// What a JSON value is.
pub enum Json {
    Null,
    Bool(bool),
    Number(int),
    Text(Seq<char>),
    Array(Seq<Json>),
    Object(Map<Seq<char>, Json>),
}

/// `serde_json`'s value, opaque to proofs.
#[verifier::external_type_specification]
#[verifier::external_body]
pub struct ExValue(serde_json::Value);

/// `serde_json`'s error, opaque to proofs.
#[verifier::external_type_specification]
#[verifier::external_body]
pub struct ExError(serde_json::Error);

/// What a `serde_json` value holds.
pub uninterp spec fn json_of(value: serde_json::Value) -> Json;

/// The fields of a JSON object; no field for any other value.
pub open spec fn fields(json: Json) -> Map<Seq<char>, Json> {
    match json {
        Json::Object(map) => map,
        _ => Map::empty(),
    }
}

/// The text in a field of a JSON object, where the field is there and holds text.
pub open spec fn text_field(json: Json, name: Seq<char>) -> Option<Seq<char>> {
    if fields(json).dom().contains(name) {
        match fields(json)[name] {
            Json::Text(text) => Some(text),
            _ => None,
        }
    } else {
        None
    }
}

/// `Value::Null` is the JSON `null`.
#[verifier::external_body]
pub(crate) fn json_null() -> (value: serde_json::Value)
    ensures
        json_of(value) == Json::Null,
{
    serde_json::Value::Null
}

/// `Value::Bool` is a JSON boolean.
#[verifier::external_body]
pub(crate) fn json_bool(b: bool) -> (value: serde_json::Value)
    ensures
        json_of(value) == Json::Bool(b),
{
    serde_json::Value::Bool(b)
}

/// `Value::from` on an `i32` is the JSON number of that value.
#[verifier::external_body]
pub(crate) fn json_number(n: i32) -> (value: serde_json::Value)
    ensures
        json_of(value) == Json::Number(n as int),
{
    serde_json::Value::from(n)
}

/// `Value::String` is a JSON string with that text.
#[verifier::external_body]
pub(crate) fn json_text(s: String) -> (value: serde_json::Value)
    ensures
        json_of(value) == Json::Text(s@),
{
    serde_json::Value::String(s)
}

/// `Value::Array` is the JSON array of those values, in that order.
#[verifier::external_body]
pub(crate) fn json_array(items: Vec<serde_json::Value>) -> (value: serde_json::Value)
    ensures
        json_of(value) == Json::Array(items@.map_values(|v: serde_json::Value| json_of(v))),
{
    serde_json::Value::Array(items)
}

/// `Value::Object` of a new `Map` is a JSON object without fields.
#[verifier::external_body]
pub(crate) fn json_object() -> (value: serde_json::Value)
    ensures
        json_of(value) == Json::Object(Map::empty()),
{
    serde_json::Value::Object(serde_json::Map::new())
}

/// `value[name] = field` on an object sets that one field, adding it where it
/// was missing. On a value that is neither an object nor `null` it panics.
#[verifier::external_body]
pub(crate) fn set_field(value: &mut serde_json::Value, name: &str, field: serde_json::Value)
    requires
        json_of(*old(value)) is Object,
    ensures
        json_of(*final(value)) == Json::Object(
            fields(json_of(*old(value))).insert(name@, json_of(field)),
        ),
{
    value[name] = field;
}

/// `Value::get` with a name gives the field of that name, and nothing where there is
/// none or the value is no object.
#[verifier::external_body]
pub(crate) fn get_field<'a>(value: &'a serde_json::Value, name: &str) -> (field: Option<
    &'a serde_json::Value,
>)
    ensures
        field is Some <==> fields(json_of(*value)).dom().contains(name@),
        field matches Some(f) ==> json_of(*f) == fields(json_of(*value))[name@],
{
    value.get(name)
}

/// `Value::as_str` gives the text of a JSON string, and nothing for any other value.
#[verifier::external_body]
pub(crate) fn as_text(value: &serde_json::Value) -> (text: Option<&str>)
    ensures
        text is Some <==> json_of(*value) is Text,
        text matches Some(s) ==> json_of(*value) == Json::Text(s@),
{
    value.as_str()
}

/// The text in the field `name` of `value`, where it holds text.
pub fn read_text_field(value: &serde_json::Value, name: &str) -> (text: Option<String>)
    ensures
        crate::text::opt_text(text) == text_field(json_of(*value), name@),
{
    match get_field(value, name) {
        Some(field) => match as_text(field) {
            Some(s) => Some(s.to_string()),
            None => None,
        },
        None => None,
    }
}

/// A character that stands for itself inside a JSON string.
pub open spec fn is_plain(c: char) -> bool {
    c != '"' && c != '\\' && c as u32 >= 0x20
}

/// Whether every string of `items` is made of plain characters.
pub open spec fn all_plain(items: Seq<Seq<char>>) -> bool {
    forall|i: int, j: int|
        0 <= i < items.len() && 0 <= j < items[i].len() ==> is_plain(#[trigger] items[i][j])
}

/// A plain string between quotation marks.
pub open spec fn quoted(item: Seq<char>) -> Seq<char> {
    seq!['"'] + item + seq!['"']
}

/// Plain strings between quotation marks, with commas between them.
pub open spec fn quoted_list(items: Seq<Seq<char>>) -> Seq<char>
    decreases items.len(),
{
    if items.len() == 0 {
        Seq::empty()
    } else if items.len() == 1 {
        quoted(items[0])
    } else {
        quoted(items[0]) + seq![','] + quoted_list(items.drop_first())
    }
}

/// The JSON text of a list of plain strings.
pub open spec fn json_strings(items: Seq<Seq<char>>) -> Seq<char> {
    seq!['['] + quoted_list(items) + seq![']']
}

/// Whether `text` is the JSON text of a list of plain strings, without any spacing.
pub open spec fn is_json_strings(text: Seq<char>) -> bool {
    exists|items: Seq<Seq<char>>| all_plain(items) && text == #[trigger] json_strings(items)
}

/// What `serde_json::from_str` reads as a list of strings out of any other text, and
/// nothing where it fails.
pub uninterp spec fn other_json_strings(text: Seq<char>) -> Option<Seq<Seq<char>>>;

/// The list of strings that `text` stands for, if it stands for one.
pub open spec fn parsed_strings(text: Seq<char>) -> Option<Seq<Seq<char>>> {
    if is_json_strings(text) {
        Some(
            choose|items: Seq<Seq<char>>|
                all_plain(items) && text == #[trigger] json_strings(items),
        )
    } else {
        other_json_strings(text)
    }
}

/// What a parse of a list of strings gave.
pub open spec fn parse_result<E>(r: Result<Vec<String>, E>) -> Option<Seq<Seq<char>>> {
    match r {
        Ok(list) => Some(texts(list@)),
        Err(_) => None,
    }
}

/// `serde_json::to_string` of a list of plain strings: it succeeds, and writes them
/// between quotation marks, commas and brackets, without spacing or escapes.
#[verifier::external_body]
pub(crate) fn strings_to_json(items: &Vec<String>) -> (r: Result<String, serde_json::Error>)
    requires
        all_plain(texts(items@)),
    ensures
        r is Ok,
        r matches Ok(text) ==> text@ == json_strings(texts(items@)),
{
    serde_json::to_string(items)
}

/// `serde_json::from_str` for a list of strings: it reads the text of a list of plain
/// strings back as that list; of any other text the outcome is named, not described.
#[verifier::external_body]
pub(crate) fn strings_from_json(text: &str) -> (r: Result<Vec<String>, serde_json::Error>)
    ensures
        forall|items: Seq<Seq<char>>|
            all_plain(items) && text@ == #[trigger] json_strings(items) ==> parse_result(r) == Some(
                items,
            ),
        !is_json_strings(text@) ==> parse_result(r) == other_json_strings(text@),
{
    serde_json::from_str(text)
}

/// The list of strings that `text` stands for.
pub fn parse_strings(text: &str) -> (r: Option<Vec<String>>)
    ensures
        match r {
            Some(list) => parsed_strings(text@) == Some(texts(list@)),
            None => parsed_strings(text@) is None,
        },
{
    match strings_from_json(text) {
        Ok(list) => Some(list),
        Err(_) => None,
    }
}

/// Two lists of plain strings with the same quoted text are the same list.
proof fn quoted_list_injective(a: Seq<Seq<char>>, b: Seq<Seq<char>>)
    requires
        all_plain(a),
        all_plain(b),
        quoted_list(a) == quoted_list(b),
    ensures
        a == b,
    decreases a.len(),
{
    let s = quoted_list(a);
    if a.len() == 0 || b.len() == 0 {
        assert(a.len() == 0 && b.len() == 0) by {
            if a.len() > 0 {
                assert(s[0] == '"');
            }
            if b.len() > 0 {
                assert(s[0] == '"');
            }
        }
        assert(a == b);
    } else {
        let x = a[0];
        let y = b[0];
        assert(s[x.len() + 1int] == '"');
        assert(s[y.len() + 1int] == '"');
        assert forall|j: int| 0 <= j < x.len() implies s[1 + j] == #[trigger] x[j] by {}
        assert forall|j: int| 0 <= j < y.len() implies s[1 + j] == #[trigger] y[j] by {}
        if x.len() < y.len() {
            assert(is_plain(b[0][x.len() as int]));
            assert(s[x.len() + 1int] == y[x.len() as int]);
            assert(false);
        }
        if y.len() < x.len() {
            assert(is_plain(a[0][y.len() as int]));
            assert(s[y.len() + 1int] == x[y.len() as int]);
            assert(false);
        }
        assert(x =~= y) by {
            assert forall|j: int| 0 <= j < x.len() implies x[j] == y[j] by {
                assert(s[1 + j] == x[j]);
                assert(s[1 + j] == y[j]);
            }
        }
        let n = x.len() + 2int;
        if a.len() > 1 {
            assert(s.len() > n);
        }
        if b.len() > 1 {
            assert(s.len() > n);
        }
        if a.len() > 1 && b.len() > 1 {
            let p = a.drop_first();
            let q = b.drop_first();
            assert(quoted_list(p) =~= s.skip(n + 1));
            assert(quoted_list(q) =~= s.skip(n + 1));
            assert(all_plain(p)) by {
                assert forall|i: int, j: int|
                    0 <= i < p.len() && 0 <= j < p[i].len() implies is_plain(#[trigger] p[i][j]) by {
                    assert(p[i][j] == a[i + 1][j]);
                }
            }
            assert(all_plain(q)) by {
                assert forall|i: int, j: int|
                    0 <= i < q.len() && 0 <= j < q[i].len() implies is_plain(#[trigger] q[i][j]) by {
                    assert(q[i][j] == b[i + 1][j]);
                }
            }
            quoted_list_injective(p, q);
            assert forall|i: int| 0 <= i < a.len() implies a[i] == b[i] by {
                if i > 0 {
                    assert(a[i] == p[i - 1]);
                    assert(b[i] == q[i - 1]);
                }
            }
            assert(p.len() == q.len());
            assert(a =~= b);
        } else {
            assert(a =~= b);
        }
    }
}

/// Reading the JSON text of a list of plain strings gives the list back.
pub proof fn json_strings_round_trip(items: Seq<Seq<char>>)
    requires
        all_plain(items),
    ensures
        parsed_strings(json_strings(items)) == Some(items),
{
    let text = json_strings(items);
    let back = choose|other: Seq<Seq<char>>|
        all_plain(other) && text == #[trigger] json_strings(other);
    assert(is_json_strings(text));
    let inner = text.subrange(1, text.len() - 1);
    assert(inner =~= quoted_list(items));
    assert(inner =~= quoted_list(back));
    quoted_list_injective(back, items);
}

} // verus!
