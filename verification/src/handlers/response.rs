//! What the endpoints answer.

use vstd::prelude::*;

use crate::json::{
    json_array, json_bool, json_null, json_number, json_object, json_of, json_text, set_field,
    Json,
};
use crate::text::{opt_text, texts};

verus! {

/// The answer to a request that went well.
#[derive(Debug, PartialEq, Eq)]
pub enum Response {
    /// An authenticator app.
    Authenticator { enabled: bool, key: String },
    /// One kind of second factor, by its number.
    Provider { enabled: bool, type_: i32 },
    /// The recovery code.
    Recover { code: Option<String> },
    /// The bound YubiKeys.
    YubiKey { enabled: bool, keys: Vec<String> },
}

/// What a [`Response`] says.
pub enum ResponseView {
    Authenticator { enabled: bool, key: Seq<char> },
    Provider { enabled: bool, type_: i32 },
    Recover { code: Option<Seq<char>> },
    YubiKey { enabled: bool, keys: Seq<Seq<char>> },
}

impl View for Response {
    type V = ResponseView;

    open spec fn view(&self) -> ResponseView {
        match self {
            Response::Authenticator { enabled, key } => ResponseView::Authenticator {
                enabled: *enabled,
                key: key@,
            },
            Response::Provider { enabled, type_ } => ResponseView::Provider {
                enabled: *enabled,
                type_: *type_,
            },
            Response::Recover { code } => ResponseView::Recover { code: opt_text(*code) },
            Response::YubiKey { enabled, keys } => ResponseView::YubiKey {
                enabled: *enabled,
                keys: texts(keys@),
            },
        }
    }
}

/// Text where there is some, and `null` where there is none.
pub open spec fn text_or_null(o: Option<Seq<char>>) -> Json {
    match o {
        Some(text) => Json::Text(text),
        None => Json::Null,
    }
}

/// The element of `list` at place `i`, if there is one.
pub open spec fn slot(list: Seq<Seq<char>>, i: int) -> Option<Seq<char>> {
    if 0 <= i < list.len() {
        Some(list[i])
    } else {
        None
    }
}

impl ResponseView {
    /// The body of the answer. YubiKeys fill five slots from the first on; a slot
    /// without a key is `null`, and there is no slot for a sixth key.
    pub open spec fn json(self) -> Json {
        match self {
            ResponseView::Authenticator { enabled, key } => Json::Object(
                map![
                "enabled"@ => Json::Bool(enabled),
                "key"@ => Json::Text(key),
                "object"@ => Json::Text("twoFactorAuthenticator"@),
            ],
            ),
            ResponseView::Provider { enabled, type_ } => Json::Object(
                map![
                "enabled"@ => Json::Bool(enabled),
                "type"@ => Json::Number(type_ as int),
                "object"@ => Json::Text("twoFactorProvider"@),
            ],
            ),
            ResponseView::Recover { code } => Json::Object(
                map![
                "code"@ => text_or_null(code),
                "object"@ => Json::Text("twoFactorRecover"@),
            ],
            ),
            ResponseView::YubiKey { enabled, keys } => Json::Object(
                map![
                "enabled"@ => Json::Bool(enabled),
                "key1"@ => text_or_null(slot(keys, 0)),
                "key2"@ => text_or_null(slot(keys, 1)),
                "key3"@ => text_or_null(slot(keys, 2)),
                "key4"@ => text_or_null(slot(keys, 3)),
                "key5"@ => text_or_null(slot(keys, 4)),
                "object"@ => Json::Text("twoFactorYubiKey"@),
            ],
            ),
        }
    }
}

/// Text where there is some, and `null` where there is none.
fn json_text_or_null(o: Option<String>) -> (value: serde_json::Value)
    ensures
        json_of(value) == text_or_null(opt_text(o)),
{
    match o {
        Some(text) => json_text(text),
        None => json_null(),
    }
}

/// The JSON of the element of `list` at place `i`, or `null`.
fn json_slot(list: &Vec<String>, i: usize) -> (value: serde_json::Value)
    ensures
        json_of(value) == text_or_null(slot(texts(list@), i as int)),
{
    if i < list.len() {
        json_text(list[i].clone())
    } else {
        json_null()
    }
}

impl Response {
    /// The body of the answer.
    pub fn to_json(self) -> (value: serde_json::Value)
        ensures
            json_of(value) == self@.json(),
    {
        let mut body = json_object();
        match self {
            Response::Authenticator { enabled, key } => {
                set_field(&mut body, "enabled", json_bool(enabled));
                set_field(&mut body, "key", json_text(key));
                set_field(&mut body, "object", json_text("twoFactorAuthenticator".to_string()));
            },
            Response::Provider { enabled, type_ } => {
                set_field(&mut body, "enabled", json_bool(enabled));
                set_field(&mut body, "type", json_number(type_));
                set_field(&mut body, "object", json_text("twoFactorProvider".to_string()));
            },
            Response::Recover { code } => {
                set_field(&mut body, "code", json_text_or_null(code));
                set_field(&mut body, "object", json_text("twoFactorRecover".to_string()));
            },
            Response::YubiKey { enabled, keys } => {
                set_field(&mut body, "enabled", json_bool(enabled));
                set_field(&mut body, "key1", json_slot(&keys, 0));
                set_field(&mut body, "key2", json_slot(&keys, 1));
                set_field(&mut body, "key3", json_slot(&keys, 2));
                set_field(&mut body, "key4", json_slot(&keys, 3));
                set_field(&mut body, "key5", json_slot(&keys, 4));
                set_field(&mut body, "object", json_text("twoFactorYubiKey".to_string()));
            },
        }
        body
    }
}

/// The body that lists second factors, of which `data` holds one value each.
pub open spec fn provider_list_json(data: Seq<Json>) -> Json {
    Json::Object(
        map![
        "data"@ => Json::Array(data),
        "object"@ => Json::Text("list"@),
        "continuationToken"@ => Json::Null,
    ],
    )
}

/// The body that lists second factors, of which `data` holds one value each.
pub fn provider_list(data: Vec<serde_json::Value>) -> (value: serde_json::Value)
    ensures
        json_of(value) == provider_list_json(
            data@.map_values(|v: serde_json::Value| json_of(v)),
        ),
{
    let mut body = json_object();
    set_field(&mut body, "data", json_array(data));
    set_field(&mut body, "object", json_text("list".to_string()));
    set_field(&mut body, "continuationToken", json_null());
    body
}

} // verus!
