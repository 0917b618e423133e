//! Authenticator apps.

use vstd::prelude::*;
use vstd::utf8::*;

use crate::error::AppErrorView;
use crate::fresh::is_uuid;
use crate::handlers::authenticator::{
    authenticator_record, ActivateAuthenticatorView, DisableAuthenticatorView,
    GetAuthenticatorView,
};
use crate::handlers::providers::{has_second_factor, is_second_factor, DisableTwofactorView};
use crate::handlers::response::ResponseView;
use crate::laws::providers::{disable_twofactor_takes_the_kind, listed_real};
use crate::models::TwoFactorView;
use crate::protocol::{ActionView, ReplyView};
use crate::text::{uppercase, uppercase_twice};
use crate::world::{run, Host, Outcome, Tables};

verus! {

/// The number of authenticator apps.
pub open spec fn app() -> i32 {
    0
}

/// The number of remembered devices.
pub open spec fn remembered() -> i32 {
    5
}

/// Whether the user has an authenticator app.
pub open spec fn has_app(tables: Tables, user_id: Seq<char>) -> bool {
    exists|r: TwoFactorView| #[trigger] tables.records.contains(r) && r.is_of(user_id, app())
}

/// Whether codes up to the time step `last_used` count as used: it is that of the app
/// that the user has, and 0 where they have none.
pub open spec fn used_up_to(tables: Tables, user_id: Seq<char>, last_used: i64) -> bool {
    if has_app(tables, user_id) {
        exists|r: TwoFactorView| #[trigger]
            tables.records.contains(r) && r.is_of(user_id, app()) && r.last_used == last_used
    } else {
        last_used == 0
    }
}

/// Whether the host said that codes of neighbouring time steps are accepted, or that they
/// are not, as `allowed` says.
pub open spec fn drift_setting(host: Host, tables: Tables, allowed: bool) -> bool {
    exists|k: nat|
        #[trigger] host.answer(k, tables, ActionView::ReadDriftSetting) == ReplyView::DriftSetting(
            allowed,
        )
}

/// Whether the host found `token` to be a code of `key` that was not used before, of the
/// time step `last_used`, with its own setting for neighbouring time steps.
pub open spec fn accepts(
    host: Host,
    tables: Tables,
    user_id: Seq<char>,
    key: Seq<char>,
    token: Seq<char>,
    last_used: i64,
) -> bool {
    exists|k: nat, before: i64, allow_drift: bool|
        used_up_to(tables, user_id, before) && drift_setting(host, tables, allow_drift)
            && #[trigger] host.answer(
            k,
            tables,
            ActionView::ValidateCode { token, key, last_used: before, allow_drift },
        ) == ReplyView::Code(Ok(last_used))
}

/// Whether the host, asked at place `k` with that setting for neighbouring time steps, finds
/// that `token` is no code of `key` that was not used before, and says so with `error`.
pub open spec fn rejects(
    host: Host,
    k: nat,
    tables: Tables,
    user_id: Seq<char>,
    key: Seq<char>,
    token: Seq<char>,
    allow_drift: bool,
    error: AppErrorView,
) -> bool {
    forall|before: i64|
        used_up_to(tables, user_id, before) ==> #[trigger] host.answer(
            k,
            tables,
            ActionView::ValidateCode { token, key, last_used: before, allow_drift },
        ) == ReplyView::Code(Err(error))
}

/// Whether the host decoded `key` to the twenty bytes of a secret.
pub open spec fn decodes(host: Host, tables: Tables, key: Seq<char>) -> bool {
    exists|k: nat|
        (#[trigger] host.answer(k, tables, ActionView::DecodeKey { key }) matches ReplyView::Key(
            Ok(bytes),
        ) && bytes.len() == 20)
}

/// The records without the user's authenticator apps and remembered devices.
pub open spec fn without_app(tables: Tables, user_id: Seq<char>) -> Set<TwoFactorView> {
    tables.written(
        ActionView::DeleteByTypes {
            user_id,
            first: app(),
            second: remembered(),
        },
    ).records
}

/// Whether `after` has the app with that key in the place of the user's former apps and
/// of all their remembered devices.
pub open spec fn app_replaced(
    before: Tables,
    after: Tables,
    user_id: Seq<char>,
    record: TwoFactorView,
) -> bool {
    after.records == without_app(before, user_id).insert(record)
}

/// Whether `record` is that of an enabled app of the user that has the key in upper case; and
/// the key decodes to a secret, and a code of it was accepted that was not used before.
pub open spec fn app_accepted(
    host: Host,
    before: Tables,
    user_id: Seq<char>,
    key: Seq<char>,
    token: Seq<char>,
    record: TwoFactorView,
) -> bool {
    &&& is_uuid(record.uuid)
    &&& host.has_drawn(record.uuid)
    &&& record.user_uuid == user_id
    &&& record.atype == 0
    &&& record.enabled
    &&& record.data == uppercase(key)
    &&& decodes(host, before, uppercase(key))
    &&& accepts(host, before, user_id, uppercase(key), token, record.last_used)
}

/// Whether an activation of an authenticator app is done, with `record` for the app.
pub open spec fn app_activated(
    host: Host,
    before: Tables,
    after: Tables,
    user_id: Seq<char>,
    key: Seq<char>,
    token: Seq<char>,
    record: TwoFactorView,
) -> bool {
    &&& app_accepted(host, before, user_id, key, token, record)
    &&& app_replaced(before, after, user_id, record)
    &&& before.code_given(after, user_id, host)
}

/// Whether `after` is what an activation that broke off can leave: all as it was; or, once
/// the code is accepted, the records without the former apps and the remembered devices, or
/// with `record` in their place.
pub open spec fn app_broken_off(
    host: Host,
    before: Tables,
    after: Tables,
    user_id: Seq<char>,
    key: Seq<char>,
    token: Seq<char>,
    record: TwoFactorView,
) -> bool {
    &&& after.users == before.users
    &&& {
        ||| after.records == before.records
        ||| app_accepted(host, before, user_id, key, token, record) && (after.records
            == without_app(before, user_id) || app_replaced(before, after, user_id, record))
    }
}

/// The time step of the code with which an app was activated counts as used from then
/// on, so that no later activation can use the code again.
pub proof fn activation_remembers_the_code(
    host: Host,
    before: Tables,
    after: Tables,
    user_id: Seq<char>,
    key: Seq<char>,
    token: Seq<char>,
    record: TwoFactorView,
)
    requires
        app_activated(host, before, after, user_id, key, token, record),
    ensures
        forall|step: i64| used_up_to(after, user_id, step) <==> step == record.last_used,
{
    activated_app_is_the_only_one(host, before, after, user_id, key, token, record);
    assert(after.records.contains(record));
}

/// An activation that ends well had a key that decodes to a secret and a code of it that
/// was not used before. It leaves the user with one app, which has the key in upper case
/// and the time step of the code; without remembered devices; and with a recovery code,
/// the one they had or a new one. It is answered with the key.
///
/// An activation that ends in an error changes nothing of the recovery code. It leaves the
/// records as they were; or, if the key and the code were good, without the former apps and
/// the remembered devices, or with the new app in their place. However it ends, nothing
/// changes of other users, and no record is added but that of the app.
pub proof fn activate_authenticator_replaces_the_app(
    limit: nat,
    user_id: Seq<char>,
    password: Option<Seq<char>>,
    key: Seq<char>,
    token: Seq<char>,
    tables: Tables,
    host: Host,
)
    requires
        host.honest(),
    ensures
        limit >= 12 ==> run(
            limit,
            0,
            ActivateAuthenticatorView::start(user_id, password, key, token),
            tables,
            host,
        ) is Some,
        run(
            limit,
            0,
            ActivateAuthenticatorView::start(user_id, password, key, token),
            tables,
            host,
        ) matches Some(end) ==> {
            &&& end.result matches Ok(answer) ==> {
                &&& answer == (ResponseView::Authenticator { enabled: true, key: uppercase(key) })
                &&& exists|record: TwoFactorView| #[trigger]
                    app_activated(host, tables, end.tables, user_id, key, token, record)
            }
            &&& end.result is Err ==> exists|record: TwoFactorView| #[trigger]
                app_broken_off(host, tables, end.tables, user_id, key, token, record)
            &&& end.tables.same_for_others(tables, user_id)
            &&& tables.all_enabled() ==> end.tables.all_enabled()
        },
{
    reveal_with_fuel(run, 13);
    let upper = uppercase(key);
    let found = host.answer(4, tables, ActionView::FindTwoFactor { user_id, atype: app() });
    let before: i64 = match found {
        ReplyView::TwoFactor(Ok(Some(r))) => r.last_used,
        _ => 0,
    };
    let setting = host.answer(5, tables, ActionView::ReadDriftSetting);
    let allow_drift = setting->DriftSetting_0;
    let validated = host.answer(
        6,
        tables,
        ActionView::ValidateCode { token, key: upper, last_used: before, allow_drift },
    );
    let last_used = validated->Code_0->Ok_0;
    let record = authenticator_record(host.identifier(7), user_id, upper, last_used);
    if let Some(end) = run(
        limit,
        0,
        ActivateAuthenticatorView::start(user_id, password, key, token),
        tables,
        host,
    ) {
        if end.result is Ok || end.tables != tables {
            assert(found matches ReplyView::TwoFactor(Ok(_)));
            assert(used_up_to(tables, user_id, before)) by {
                if let ReplyView::TwoFactor(Ok(Some(r))) = found {
                    assert(tables.records.contains(r));
                }
            }
            assert(host.answer(3, tables, ActionView::DecodeKey { key: upper }) is Key);
            assert(decodes(host, tables, upper));
            assert(setting is DriftSetting);
            assert(drift_setting(host, tables, allow_drift));
            assert(accepts(host, tables, user_id, upper, token, last_used));
            assert(host.has_drawn(host.identifier(7)));
            assert(app_accepted(host, tables, user_id, key, token, record));
        }
        if end.result is Ok {
            assert(app_activated(host, tables, end.tables, user_id, key, token, record));
        } else {
            assert(app_broken_off(host, tables, end.tables, user_id, key, token, record));
        }
    }
}

/// After an activation, the user has one app, of that key.
proof fn activated_app_is_the_only_one(
    host: Host,
    before: Tables,
    after: Tables,
    user_id: Seq<char>,
    key: Seq<char>,
    token: Seq<char>,
    record: TwoFactorView,
)
    requires
        app_activated(host, before, after, user_id, key, token, record),
    ensures
        after.records.contains(record),
        record.is_of(user_id, app()),
        record.data == uppercase(key),
        record.enabled,
        forall|r: TwoFactorView| #[trigger]
            after.records.contains(r) && r.is_of(user_id, app()) ==> r == record,
        forall|r: TwoFactorView| #[trigger]
            after.records.contains(r) ==> !r.is_of(user_id, remembered()),
{
}

/// A request for the secret changes nothing. It is answered with the secret of the
/// user's app, and with the new secret that was just made, said not to be enabled, where
/// they have no app. Where everything works, it is answered.
pub proof fn get_authenticator_reads_the_app(
    limit: nat,
    user_id: Seq<char>,
    password: Option<Seq<char>>,
    tables: Tables,
    host: Host,
)
    requires
        host.honest(),
    ensures
        limit >= 5 && host.willing() && tables.users.dom().contains(user_id) && password is Some && tables.records.finite() ==> (run(
            limit,
            0,
            GetAuthenticatorView::start(user_id, password),
            tables,
            host,
        ) matches Some(end) && end.result is Ok),
        limit >= 5 ==> run(limit, 0, GetAuthenticatorView::start(user_id, password), tables, host)
            is Some,
        run(limit, 0, GetAuthenticatorView::start(user_id, password), tables, host) matches Some(
            end,
        ) ==> {
            &&& end.tables == tables
            &&& end.result matches Ok(answer) ==> {
                &&& answer matches ResponseView::Authenticator { enabled, key }
                &&& enabled <==> has_app(tables, user_id)
                &&& enabled ==> exists|r: TwoFactorView| #[trigger]
                    tables.records.contains(r) && r.is_of(user_id, app()) && r.data == key
                &&& !enabled ==> host.answer(4, tables, ActionView::GenerateSecret)
                    == ReplyView::Secret(Ok(key))
            }
        },
{
    reveal_with_fuel(run, 6);
    let found = host.answer(3, tables, ActionView::FindTwoFactor { user_id, atype: app() });
    if let ReplyView::TwoFactor(Ok(Some(r))) = found {
        assert(tables.records.contains(r));
    }
}

/// What an activation wrote, a request for the secret gives back: both are answered with
/// the same.
pub proof fn get_authenticator_gives_back_the_activated_key(
    limit: nat,
    user_id: Seq<char>,
    password: Option<Seq<char>>,
    key: Seq<char>,
    token: Seq<char>,
    tables: Tables,
    host: Host,
    later_limit: nat,
    later_password: Option<Seq<char>>,
    later_host: Host,
)
    requires
        host.honest(),
        later_host.honest(),
    ensures
        run(
            limit,
            0,
            ActivateAuthenticatorView::start(user_id, password, key, token),
            tables,
            host,
        ) matches Some(end) ==> (end.result matches Ok(answer) ==> (run(
            later_limit,
            0,
            GetAuthenticatorView::start(user_id, later_password),
            end.tables,
            later_host,
        ) matches Some(later) ==> (later.result matches Ok(later_answer) ==> later_answer
            == answer))),
{
    activate_authenticator_replaces_the_app(limit, user_id, password, key, token, tables, host);
    if let Some(end) = run(
        limit,
        0,
        ActivateAuthenticatorView::start(user_id, password, key, token),
        tables,
        host,
    ) {
        if end.result is Ok {
            let record = choose|record: TwoFactorView| #[trigger]
                app_activated(host, tables, end.tables, user_id, key, token, record);
            activated_app_is_the_only_one(
                host,
                tables,
                end.tables,
                user_id,
                key,
                token,
                record,
            );
            get_authenticator_reads_the_app(
                later_limit,
                user_id,
                later_password,
                end.tables,
                later_host,
            );
        }
    }
}

/// After an activation, the user has two-factor authentication, in whatever order their
/// records are listed.
pub proof fn activation_enables_two_factor(
    host: Host,
    before: Tables,
    after: Tables,
    user_id: Seq<char>,
    key: Seq<char>,
    token: Seq<char>,
    record: TwoFactorView,
    list: Seq<TwoFactorView>,
)
    requires
        app_activated(host, before, after, user_id, key, token, record),
        forall|r: TwoFactorView| #[trigger] list.contains(r) <==> after.lists(user_id, r),
    ensures
        has_second_factor(list),
{
    activated_app_is_the_only_one(host, before, after, user_id, key, token, record);
    assert(after.lists(user_id, record));
    assert(list.contains(record));
    let i = choose|i: int| 0 <= i < list.len() && list[i] == record;
    assert(is_second_factor(list[i]));
}

/// The refusal of a request to disable an app with another secret.
pub open spec fn key_mismatch() -> AppErrorView {
    AppErrorView::BadRequest("TOTP key does not match recorded value"@)
}

/// The refusal of a request to disable an app where there is none.
pub open spec fn not_configured() -> AppErrorView {
    AppErrorView::BadRequest("TOTP not configured"@)
}

/// Disabling an app takes the record of an app of the user that has the key, in upper
/// case, by its identifier; where no two records share one, that is no other record, and
/// nothing changes of other users. And it takes the recovery code where, and only where, no
/// real second factor is left. If it ends in an error, the recovery code is as it was, and no
/// record is gone but that of such an app. Without such an app nothing changes.
pub proof fn disable_authenticator_takes_the_app(
    limit: nat,
    user_id: Seq<char>,
    password: Option<Seq<char>>,
    type_: i32,
    key: Seq<char>,
    tables: Tables,
    host: Host,
)
    requires
        host.honest(),
    ensures
        limit >= 7 ==> run(
            limit,
            0,
            DisableAuthenticatorView::start(user_id, password, type_, key),
            tables,
            host,
        ) is Some,
        run(
            limit,
            0,
            DisableAuthenticatorView::start(user_id, password, type_, key),
            tables,
            host,
        ) matches Some(end) ==> {
            &&& end.result matches Ok(answer) ==> {
                &&& type_ == app()
                &&& answer == (ResponseView::Provider { enabled: false, type_ })
                &&& exists|r: TwoFactorView|
                    {
                        &&& #[trigger] tables.records.contains(r)
                        &&& r.is_of(user_id, app())
                        &&& r.data == uppercase(key)
                        &&& end.tables.records == tables.without_uuid(r.uuid)
                        &&& tables.keyed() ==> end.tables.records == tables.records.remove(r)
                    }
                &&& end.tables.users == (Tables {
                    records: end.tables.records,
                    ..tables
                }).cleared_users(user_id)
            }
            &&& end.result is Err ==> {
                &&& end.tables.users == tables.users
                &&& end.tables.records == tables.records || exists|r: TwoFactorView|
                    {
                        &&& #[trigger] tables.records.contains(r)
                        &&& r.is_of(user_id, app())
                        &&& r.data == uppercase(key)
                        &&& end.tables.records == tables.without_uuid(r.uuid)
                        &&& tables.keyed() ==> end.tables.records == tables.records.remove(r)
                    }
            }
            &&& (forall|r: TwoFactorView| #[trigger]
                tables.records.contains(r) && r.is_of(user_id, app()) ==> r.data != uppercase(key))
                ==> end.result is Err && end.tables == tables
            &&& tables.keyed() ==> end.tables.same_for_others(tables, user_id)
            &&& tables.all_enabled() ==> end.tables.all_enabled()
        },
{
    reveal_with_fuel(run, 8);
    let found = host.answer(3, tables, ActionView::FindTwoFactor { user_id, atype: app() });
    if let ReplyView::TwoFactor(Ok(Some(r))) = found {
        assert(tables.records.contains(r));
        let left = tables.written(ActionView::DeleteByUuid { uuid: r.uuid });
        assert(tables.keyed() ==> left.records =~= tables.records.remove(r));
        listed_real(
            left,
            user_id,
            host.answer(5, left, ActionView::ListRealTwoFactors { user_id }),
        );
    }
}

/// Where everything works, a request to disable an app is answered by what the user has:
/// it is done if their apps have the key, and refused if they have no app, or only apps
/// with another key.
pub proof fn disable_authenticator_goes_by_the_key(
    limit: nat,
    user_id: Seq<char>,
    password: Seq<char>,
    key: Seq<char>,
    tables: Tables,
    host: Host,
)
    requires
        limit >= 7,
        host.willing(),
        tables.users.dom().contains(user_id),
        tables.records.finite(),
    ensures
        run(
            limit,
            0,
            DisableAuthenticatorView::start(user_id, Some(password), app(), key),
            tables,
            host,
        ) matches Some(end) && {
            &&& !has_app(tables, user_id) ==> end == (Outcome::<ResponseView> {
                result: Err(not_configured()),
                tables,
            })
            &&& has_app(tables, user_id) && (forall|r: TwoFactorView| #[trigger]
                tables.records.contains(r) && r.is_of(user_id, app()) ==> r.data != uppercase(key))
                ==> end == (Outcome::<ResponseView> { result: Err(key_mismatch()), tables })
            &&& has_app(tables, user_id) && (forall|r: TwoFactorView| #[trigger]
                tables.records.contains(r) && r.is_of(user_id, app()) ==> r.data == uppercase(key))
                ==> end.result is Ok
        },
{
    reveal_with_fuel(run, 8);
    let found = host.answer(3, tables, ActionView::FindTwoFactor { user_id, atype: app() });
    if let ReplyView::TwoFactor(Ok(Some(r))) = found {
        assert(tables.records.contains(r));
    }
}

/// Where everything works, an activation is done if the key decodes to a secret and the
/// code is accepted. If the key does not decode, or not to a secret, or if the code is
/// rejected, that is the answer, and nothing changes.
pub proof fn activate_authenticator_goes_by_key_and_code(
    limit: nat,
    user_id: Seq<char>,
    password: Seq<char>,
    key: Seq<char>,
    token: Seq<char>,
    tables: Tables,
    host: Host,
)
    requires
        limit >= 12,
        host.willing(),
        tables.users.dom().contains(user_id),
        tables.records.finite(),
    ensures
        run(
            limit,
            0,
            ActivateAuthenticatorView::start(user_id, Some(password), key, token),
            tables,
            host,
        ) matches Some(end) && (match host.answer(
            3,
            tables,
            ActionView::DecodeKey { key: uppercase(key) },
        ) {
            ReplyView::Key(Ok(bytes)) => if bytes.len() != 20 {
                end == (Outcome::<ResponseView> {
                    result: Err(AppErrorView::BadRequest("Invalid key length"@)),
                    tables,
                })
            } else {
                let allow_drift = host.answer(
                    5,
                    tables,
                    ActionView::ReadDriftSetting,
                )->DriftSetting_0;
                &&& (forall|before: i64|
                    used_up_to(tables, user_id, before) ==> (#[trigger] host.answer(
                        6,
                        tables,
                        ActionView::ValidateCode {
                            token,
                            key: uppercase(key),
                            last_used: before,
                            allow_drift,
                        },
                    ) matches ReplyView::Code(Ok(_)))) ==> end.result is Ok
                &&& forall|error: AppErrorView| #[trigger]
                    rejects(host, 6, tables, user_id, uppercase(key), token, allow_drift, error)
                        ==> end == (Outcome::<ResponseView> { result: Err(error), tables })
            },
            ReplyView::Key(Err(e)) => end == (Outcome::<ResponseView> { result: Err(e), tables }),
            _ => false,
        }),
{
    reveal_with_fuel(run, 13);
    assert(host.answer(5, tables, ActionView::ReadDriftSetting) is DriftSetting);
    let found = host.answer(4, tables, ActionView::FindTwoFactor { user_id, atype: app() });
    let before: i64 = match found {
        ReplyView::TwoFactor(Ok(Some(r))) => r.last_used,
        _ => 0,
    };
    assert(used_up_to(tables, user_id, before)) by {
        if let ReplyView::TwoFactor(Ok(Some(r))) = found {
            assert(tables.records.contains(r));
        }
    }
}

/// An activation goes by the key in upper case: with two keys that have the same upper-case
/// form, it ends alike, whatever is replied on the way. If it ends well, it is answered with
/// that form.
pub proof fn activation_goes_by_the_upper_case_key(
    limit: nat,
    user_id: Seq<char>,
    password: Option<Seq<char>>,
    key: Seq<char>,
    other: Seq<char>,
    token: Seq<char>,
    tables: Tables,
    host: Host,
)
    requires
        host.honest(),
        uppercase(other) == uppercase(key),
    ensures
        run(
            limit,
            0,
            ActivateAuthenticatorView::start(user_id, password, other, token),
            tables,
            host,
        ) == run(
            limit,
            0,
            ActivateAuthenticatorView::start(user_id, password, key, token),
            tables,
            host,
        ),
        run(
            limit,
            0,
            ActivateAuthenticatorView::start(user_id, password, other, token),
            tables,
            host,
        ) matches Some(end) ==> (end.result matches Ok(answer) ==> answer == (
        ResponseView::Authenticator { enabled: true, key: uppercase(key) })),
{
    reveal_with_fuel(run, 4);
    activate_authenticator_replaces_the_app(limit, user_id, password, key, token, tables, host);
}

/// An activation treats an ASCII key and its upper-case form alike. Of other keys the same is
/// true wherever upper case, once reached, stays as it is.
pub proof fn activation_treats_upper_case_alike(
    limit: nat,
    user_id: Seq<char>,
    password: Option<Seq<char>>,
    key: Seq<char>,
    token: Seq<char>,
    tables: Tables,
    host: Host,
)
    requires
        host.honest(),
        is_ascii_chars(key) || uppercase(uppercase(key)) == uppercase(key),
    ensures
        run(
            limit,
            0,
            ActivateAuthenticatorView::start(user_id, password, uppercase(key), token),
            tables,
            host,
        ) == run(
            limit,
            0,
            ActivateAuthenticatorView::start(user_id, password, key, token),
            tables,
            host,
        ),
        run(
            limit,
            0,
            ActivateAuthenticatorView::start(user_id, password, uppercase(key), token),
            tables,
            host,
        ) matches Some(end) ==> (end.result matches Ok(answer) ==> answer == (
        ResponseView::Authenticator { enabled: true, key: uppercase(key) })),
{
    if is_ascii_chars(key) {
        uppercase_twice(key);
    }
    activation_goes_by_the_upper_case_key(
        limit,
        user_id,
        password,
        key,
        uppercase(key),
        token,
        tables,
        host,
    );
}

/// Disabling an app goes by the key in upper case: with two keys that have the same
/// upper-case form, it ends alike, whatever is replied on the way.
pub proof fn disabling_goes_by_the_upper_case_key(
    limit: nat,
    user_id: Seq<char>,
    password: Option<Seq<char>>,
    type_: i32,
    key: Seq<char>,
    other: Seq<char>,
    tables: Tables,
    host: Host,
)
    requires
        uppercase(other) == uppercase(key),
    ensures
        run(
            limit,
            0,
            DisableAuthenticatorView::start(user_id, password, type_, other),
            tables,
            host,
        ) == run(
            limit,
            0,
            DisableAuthenticatorView::start(user_id, password, type_, key),
            tables,
            host,
        ),
{
    reveal_with_fuel(run, 5);
}

/// An activated app can be disabled with the key that it was activated with, in upper or
/// lower case: where everything works it is done, and the user has no app any more.
pub proof fn activated_app_can_be_disabled(
    limit: nat,
    user_id: Seq<char>,
    password: Seq<char>,
    key: Seq<char>,
    token: Seq<char>,
    tables: Tables,
    host: Host,
    later_limit: nat,
    later_password: Seq<char>,
    later_key: Seq<char>,
    later_host: Host,
)
    requires
        host.honest(),
        tables.records.finite(),
        later_limit >= 7,
        later_host.willing(),
        uppercase(later_key) == uppercase(key),
    ensures
        run(
            limit,
            0,
            ActivateAuthenticatorView::start(user_id, Some(password), key, token),
            tables,
            host,
        ) matches Some(end) ==> (end.result is Ok ==> (run(
            later_limit,
            0,
            DisableAuthenticatorView::start(user_id, Some(later_password), app(), later_key),
            end.tables,
            later_host,
        ) matches Some(later) && later.result is Ok && !has_app(later.tables, user_id))),
{
    activate_authenticator_replaces_the_app(
        limit,
        user_id,
        Some(password),
        key,
        token,
        tables,
        host,
    );
    if let Some(end) = run(
        limit,
        0,
        ActivateAuthenticatorView::start(user_id, Some(password), key, token),
        tables,
        host,
    ) {
        if end.result is Ok {
            let record = choose|record: TwoFactorView| #[trigger]
                app_activated(host, tables, end.tables, user_id, key, token, record);
            activated_app_is_the_only_one(
                host,
                tables,
                end.tables,
                user_id,
                key,
                token,
                record,
            );
            assert(has_app(end.tables, user_id));
            disable_authenticator_goes_by_the_key(
                later_limit,
                user_id,
                later_password,
                later_key,
                end.tables,
                later_host,
            );
            reveal_with_fuel(run, 8);
            let found = later_host.answer(
                3,
                end.tables,
                ActionView::FindTwoFactor { user_id, atype: app() },
            );
            assert(found == ReplyView::TwoFactor(Ok(Some(record))));
        }
    }
}

/// Once authenticator apps are disabled, a request for the secret is answered with the new one
/// that was just made, which is not enabled.
pub proof fn get_authenticator_offers_a_new_secret_after_disabling(
    limit: nat,
    user_id: Seq<char>,
    password: Option<Seq<char>>,
    tables: Tables,
    host: Host,
    later_limit: nat,
    later_password: Option<Seq<char>>,
    later_host: Host,
)
    requires
        host.honest(),
        later_host.honest(),
    ensures
        run(limit, 0, DisableTwofactorView::start(user_id, password, app()), tables, host) matches
            Some(end) ==> (end.result is Ok ==> (run(
            later_limit,
            0,
            GetAuthenticatorView::start(user_id, later_password),
            end.tables,
            later_host,
        ) matches Some(later) ==> (later.result matches Ok(answer) ==> (answer matches
            ResponseView::Authenticator { enabled, key } && !enabled && later_host.answer(
            4,
            end.tables,
            ActionView::GenerateSecret,
        ) == ReplyView::Secret(Ok(key)))))),
{
    disable_twofactor_takes_the_kind(limit, user_id, password, app(), tables, host);
    if let Some(end) = run(
        limit,
        0,
        DisableTwofactorView::start(user_id, password, app()),
        tables,
        host,
    ) {
        get_authenticator_reads_the_app(later_limit, user_id, later_password, end.tables, later_host);
    }
}

} // verus!
