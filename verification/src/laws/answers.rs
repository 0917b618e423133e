//! The bodies of answers.

use vstd::prelude::*;

use crate::handlers::authenticator::{
    ActivateAuthenticatorView, DisableAuthenticatorView, GetAuthenticatorView,
};
use crate::handlers::providers::{DisableTwofactorView, GetRecoverView};
use crate::handlers::response::{provider_list_json, ResponseView};
use crate::handlers::yubikey::{provided, stored_devices, ActivateYubikeyView, GetYubikeyView};
use crate::json::Json;
use crate::laws::authenticator::{
    activate_authenticator_replaces_the_app, disable_authenticator_takes_the_app,
    get_authenticator_reads_the_app, has_app,
};
use crate::laws::providers::{disable_twofactor_takes_the_kind, get_recover_reads_the_code};
use crate::laws::yubikey::{
    activate_yubikey_binds_the_keys, devices_of, get_yubikey_reads_the_keys, has_yubikeys,
};
use crate::models::TwoFactorView;
use crate::text::uppercase;
use crate::world::{run, Host, Tables};

verus! {

/// Whether a body is an object that has that value in that field.
pub open spec fn says(body: Json, name: Seq<char>, value: Json) -> bool {
    body matches Json::Object(map) && map.dom().contains(name) && map[name] == value
}

/// Whether a body is an object with no other fields than those.
pub open spec fn says_only(body: Json, names: Set<Seq<char>>) -> bool {
    body matches Json::Object(map) && map.dom() == names
}

/// Whether a body has that text in that field, or `null` where there is none.
pub open spec fn says_text(body: Json, name: Seq<char>, text: Option<Seq<char>>) -> bool {
    match text {
        Some(text) => says(body, name, Json::Text(text)),
        None => says(body, name, Json::Null),
    }
}

/// No two names of fields are the same.
proof fn names_differ()
    ensures
        "enabled"@.len() == 7,
        "key"@.len() == 3,
        "object"@.len() == 6,
        "type"@.len() == 4 && "type"@[0] == 't',
        "code"@.len() == 4 && "code"@[0] == 'c',
        "data"@.len() == 4 && "data"@[0] == 'd',
        "continuationToken"@.len() == 17,
        "key1"@.len() == 4 && "key1"@[0] == 'k' && "key1"@[3] == '1',
        "key2"@.len() == 4 && "key2"@[0] == 'k' && "key2"@[3] == '2',
        "key3"@.len() == 4 && "key3"@[0] == 'k' && "key3"@[3] == '3',
        "key4"@.len() == 4 && "key4"@[0] == 'k' && "key4"@[3] == '4',
        "key5"@.len() == 4 && "key5"@[0] == 'k' && "key5"@[3] == '5',
{
    reveal_strlit("enabled");
    reveal_strlit("key");
    reveal_strlit("object");
    reveal_strlit("type");
    reveal_strlit("code");
    reveal_strlit("data");
    reveal_strlit("continuationToken");
    reveal_strlit("key1");
    reveal_strlit("key2");
    reveal_strlit("key3");
    reveal_strlit("key4");
    reveal_strlit("key5");
}

/// The body of an answer about an authenticator app says whether it is enabled, just as the
/// answer does, and which secret it has.
pub proof fn authenticator_body_says_it_all(enabled: bool, key: Seq<char>)
    ensures
        ({
            let body = ResponseView::Authenticator { enabled, key }.json();
            &&& enabled ==> says(body, "enabled"@, Json::Bool(true))
            &&& !enabled ==> says(body, "enabled"@, Json::Bool(false))
            &&& says(body, "key"@, Json::Text(key))
            &&& says(body, "object"@, Json::Text("twoFactorAuthenticator"@))
            &&& says_only(body, set!["enabled"@, "key"@, "object"@])
        }),
{
    names_differ();
    let body = ResponseView::Authenticator { enabled, key }.json();
    assert(body->Object_0.dom() =~= set!["enabled"@, "key"@, "object"@]);
}

/// The body of an answer about one kind of second factor says whether it is enabled, just as
/// the answer does, and which kind it is.
pub proof fn provider_body_says_it_all(enabled: bool, type_: i32)
    ensures
        ({
            let body = ResponseView::Provider { enabled, type_ }.json();
            &&& enabled ==> says(body, "enabled"@, Json::Bool(true))
            &&& !enabled ==> says(body, "enabled"@, Json::Bool(false))
            &&& says(body, "type"@, Json::Number(type_ as int))
            &&& says(body, "object"@, Json::Text("twoFactorProvider"@))
            &&& says_only(body, set!["enabled"@, "type"@, "object"@])
        }),
{
    names_differ();
    let body = ResponseView::Provider { enabled, type_ }.json();
    assert(body->Object_0.dom() =~= set!["enabled"@, "type"@, "object"@]);
}

/// The body of an answer about the recovery code has the code, or `null` where there is
/// none.
pub proof fn recover_body_says_it_all(code: Option<Seq<char>>)
    ensures
        ({
            let body = ResponseView::Recover { code }.json();
            &&& says_text(body, "code"@, code)
            &&& says(body, "object"@, Json::Text("twoFactorRecover"@))
            &&& says_only(body, set!["code"@, "object"@])
        }),
{
    names_differ();
    let body = ResponseView::Recover { code }.json();
    assert(body->Object_0.dom() =~= set!["code"@, "object"@]);
}

/// The key at that place of a list, if there is one.
pub open spec fn key_at(keys: Seq<Seq<char>>, i: int) -> Option<Seq<char>> {
    if i < keys.len() {
        Some(keys[i])
    } else {
        None
    }
}

/// The body of an answer about YubiKeys says whether they are enabled, just as the answer
/// does, and has the first five keys in the five slots, in their order, with `null` in every
/// slot behind the last key.
pub proof fn yubikey_body_says_it_all(enabled: bool, keys: Seq<Seq<char>>)
    ensures
        ({
            let body = ResponseView::YubiKey { enabled, keys }.json();
            &&& enabled ==> says(body, "enabled"@, Json::Bool(true))
            &&& !enabled ==> says(body, "enabled"@, Json::Bool(false))
            &&& says_text(body, "key1"@, key_at(keys, 0))
            &&& says_text(body, "key2"@, key_at(keys, 1))
            &&& says_text(body, "key3"@, key_at(keys, 2))
            &&& says_text(body, "key4"@, key_at(keys, 3))
            &&& says_text(body, "key5"@, key_at(keys, 4))
            &&& says(body, "object"@, Json::Text("twoFactorYubiKey"@))
            &&& says_only(
                body,
                set!["enabled"@, "key1"@, "key2"@, "key3"@, "key4"@, "key5"@, "object"@],
            )
        }),
{
    names_differ();
    let body = ResponseView::YubiKey { enabled, keys }.json();
    assert(body->Object_0.dom() =~= set![
        "enabled"@,
        "key1"@,
        "key2"@,
        "key3"@,
        "key4"@,
        "key5"@,
        "object"@,
    ]);
}

/// The body that lists second factors has them all, in their order, and no continuation.
pub proof fn list_body_says_it_all(data: Seq<Json>)
    ensures
        ({
            let body = provider_list_json(data);
            &&& says(body, "data"@, Json::Array(data))
            &&& says(body, "object"@, Json::Text("list"@))
            &&& says(body, "continuationToken"@, Json::Null)
            &&& says_only(body, set!["data"@, "object"@, "continuationToken"@])
        }),
{
    names_differ();
    assert(provider_list_json(data)->Object_0.dom() =~= set![
        "data"@,
        "object"@,
        "continuationToken"@,
    ]);
}

/// The body that answers a request for the secret says that the app is enabled exactly if
/// the user has one, and has its secret then.
pub proof fn get_authenticator_body_says_whether_there_is_an_app(
    limit: nat,
    user_id: Seq<char>,
    password: Option<Seq<char>>,
    tables: Tables,
    host: Host,
)
    requires
        host.honest(),
    ensures
        run(limit, 0, GetAuthenticatorView::start(user_id, password), tables, host) matches Some(
            end,
        ) ==> (end.result matches Ok(answer) ==> {
            &&& says(answer.json(), "enabled"@, Json::Bool(has_app(tables, user_id)))
            &&& has_app(tables, user_id) ==> exists|r: TwoFactorView| #[trigger]
                tables.records.contains(r) && r.user_uuid == user_id && r.atype == 0 && says(
                    answer.json(),
                    "key"@,
                    Json::Text(r.data),
                )
        }),
{
    get_authenticator_reads_the_app(limit, user_id, password, tables, host);
    if let Some(end) = run(
        limit,
        0,
        GetAuthenticatorView::start(user_id, password),
        tables,
        host,
    ) {
        if let Ok(ResponseView::Authenticator { enabled, key }) = end.result {
            authenticator_body_says_it_all(enabled, key);
        }
    }
}

/// The body that answers an activation says that the app is enabled, and has the key in
/// upper case.
pub proof fn activate_authenticator_body_says_enabled(
    limit: nat,
    user_id: Seq<char>,
    password: Option<Seq<char>>,
    key: Seq<char>,
    token: Seq<char>,
    tables: Tables,
    host: Host,
)
    requires
        host.honest(),
    ensures
        run(
            limit,
            0,
            ActivateAuthenticatorView::start(user_id, password, key, token),
            tables,
            host,
        ) matches Some(end) ==> (end.result matches Ok(answer) ==> {
            &&& says(answer.json(), "enabled"@, Json::Bool(true))
            &&& says(answer.json(), "key"@, Json::Text(uppercase(key)))
        }),
{
    activate_authenticator_replaces_the_app(limit, user_id, password, key, token, tables, host);
    authenticator_body_says_it_all(true, uppercase(key));
}

/// The bodies that answer requests to disable a second factor say that it is not enabled,
/// and which kind it is.
pub proof fn disable_bodies_say_disabled(
    limit: nat,
    user_id: Seq<char>,
    password: Option<Seq<char>>,
    type_: i32,
    key: Seq<char>,
    tables: Tables,
    host: Host,
)
    requires
        host.honest(),
    ensures
        run(limit, 0, DisableTwofactorView::start(user_id, password, type_), tables, host) matches
            Some(end) ==> (end.result matches Ok(answer) ==> {
            &&& says(answer.json(), "enabled"@, Json::Bool(false))
            &&& says(answer.json(), "type"@, Json::Number(type_ as int))
        }),
        run(
            limit,
            0,
            DisableAuthenticatorView::start(user_id, password, type_, key),
            tables,
            host,
        ) matches Some(end) ==> (end.result matches Ok(answer) ==> {
            &&& says(answer.json(), "enabled"@, Json::Bool(false))
            &&& says(answer.json(), "type"@, Json::Number(type_ as int))
        }),
{
    disable_twofactor_takes_the_kind(limit, user_id, password, type_, tables, host);
    disable_authenticator_takes_the_app(limit, user_id, password, type_, key, tables, host);
    provider_body_says_it_all(false, type_);
}

/// The body that answers a request for the recovery code has the user's code, or `null`
/// where they have none.
pub proof fn get_recover_body_has_the_code(
    limit: nat,
    user_id: Seq<char>,
    password: Option<Seq<char>>,
    tables: Tables,
    host: Host,
)
    requires
        host.honest(),
    ensures
        run(limit, 0, GetRecoverView::start(user_id, password), tables, host) matches Some(end)
            ==> (end.result matches Ok(answer) ==> says_text(
            answer.json(),
            "code"@,
            tables.users[user_id],
        )),
{
    get_recover_reads_the_code(limit, user_id, password, tables, host);
    recover_body_says_it_all(tables.users[user_id]);
}

/// The bodies that answer requests about YubiKeys say that they are enabled exactly if the
/// user has some, and have the devices in the slots: after binding those of the keys sent, and
/// otherwise those on record.
pub proof fn yubikey_bodies_have_the_devices(
    limit: nat,
    user_id: Seq<char>,
    password: Option<Seq<char>>,
    slots: Seq<Option<Seq<char>>>,
    tables: Tables,
    host: Host,
)
    requires
        host.honest(),
        slots.len() <= 5,
    ensures
        run(limit, 0, ActivateYubikeyView::start(user_id, password, slots), tables, host) matches
            Some(end) ==> (end.result matches Ok(answer) ==> {
            let keys = devices_of(provided(slots));
            &&& says(answer.json(), "enabled"@, Json::Bool(true))
            &&& says_text(answer.json(), "key1"@, key_at(keys, 0))
            &&& says_text(answer.json(), "key2"@, key_at(keys, 1))
            &&& says_text(answer.json(), "key3"@, key_at(keys, 2))
            &&& says_text(answer.json(), "key4"@, key_at(keys, 3))
            &&& says_text(answer.json(), "key5"@, key_at(keys, 4))
        }),
        run(limit, 0, GetYubikeyView::start(user_id, password), tables, host) matches Some(end)
            ==> (end.result matches Ok(answer) ==> {
            &&& says(answer.json(), "enabled"@, Json::Bool(has_yubikeys(tables, user_id)))
            &&& !has_yubikeys(tables, user_id) ==> says(answer.json(), "key1"@, Json::Null)
            &&& has_yubikeys(tables, user_id) ==> exists|r: TwoFactorView| #[trigger]
                tables.records.contains(r) && r.user_uuid == user_id && r.atype == 3 && {
                    let keys = stored_devices(r.data);
                    &&& says_text(answer.json(), "key1"@, key_at(keys, 0))
                    &&& says_text(answer.json(), "key2"@, key_at(keys, 1))
                    &&& says_text(answer.json(), "key3"@, key_at(keys, 2))
                    &&& says_text(answer.json(), "key4"@, key_at(keys, 3))
                    &&& says_text(answer.json(), "key5"@, key_at(keys, 4))
                }
        }),
{
    activate_yubikey_binds_the_keys(limit, user_id, password, slots, tables, host);
    yubikey_body_says_it_all(true, devices_of(provided(slots)));
    get_yubikey_reads_the_keys(limit, user_id, password, tables, host);
    if let Some(end) = run(limit, 0, GetYubikeyView::start(user_id, password), tables, host) {
        if let Ok(ResponseView::YubiKey { enabled, keys }) = end.result {
            yubikey_body_says_it_all(enabled, keys);
        }
    }
}

} // verus!
