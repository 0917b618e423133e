//! The recovery code.

use vstd::prelude::*;

use crate::handlers::authenticator::ActivateAuthenticatorView;
use crate::handlers::yubikey::{ActivateYubikeyView, MAX_YUBIKEYS};
use crate::laws::authenticator::{
    activate_authenticator_replaces_the_app, app_activated, app_broken_off,
};
use crate::laws::providers::listed_real;
use crate::laws::refusals::user_not_found;
use crate::laws::yubikey::activate_yubikey_binds_the_keys;
use crate::models::TwoFactorView;
use crate::protocol::{ActionView, ReplyView};
use crate::recovery::{ClearRecoveryView, GenerateRecoveryView};
use crate::world::{run, Host, Outcome, Tables};

verus! {

/// Giving a user a recovery code leaves the code that they have, and writes the one that was
/// just made where they have none. It changes nothing else, and nothing at all if it ends in
/// an error. Where everything works, it is done for a user who is there; one who is not there
/// is refused.
pub proof fn recovery_code_is_given_once(
    limit: nat,
    k: nat,
    user_id: Seq<char>,
    tables: Tables,
    host: Host,
)
    requires
        host.honest(),
    ensures
        limit >= 3 ==> run(limit, k, GenerateRecoveryView::start(user_id), tables, host) is Some,
        limit >= 3 && host.willing() && tables.records.finite() ==> (run(
            limit,
            k,
            GenerateRecoveryView::start(user_id),
            tables,
            host,
        ) matches Some(end) && if tables.users.dom().contains(user_id) {
            end.result is Ok
        } else {
            end == (Outcome::<()> { result: Err(user_not_found()), tables })
        }),
        run(limit, k, GenerateRecoveryView::start(user_id), tables, host) matches Some(end) ==> {
            &&& end.tables.records == tables.records
            &&& end.result is Ok ==> {
                &&& tables.users.dom().contains(user_id)
                &&& tables.users[user_id] is Some ==> end.tables == tables
                &&& tables.users[user_id] is None ==> (host.answer(
                    k + 1,
                    tables,
                    ActionView::GenerateRecoveryCode,
                ) matches ReplyView::RecoveryCode(Ok(code)) && end.tables.users
                    == tables.users.insert(user_id, Some(code)))
            }
            &&& end.result is Err ==> end.tables == tables
        },
{
    reveal_with_fuel(run, 4);
}

/// A recovery code that was given is there to stay: giving the user a code again, with
/// whatever replies, changes nothing.
pub proof fn given_code_is_never_replaced(
    limit: nat,
    k: nat,
    user_id: Seq<char>,
    tables: Tables,
    host: Host,
    later_limit: nat,
    later_k: nat,
    later_host: Host,
)
    requires
        host.honest(),
        later_host.honest(),
    ensures
        run(limit, k, GenerateRecoveryView::start(user_id), tables, host) matches Some(end) ==> (
        end.result is Ok ==> (run(
            later_limit,
            later_k,
            GenerateRecoveryView::start(user_id),
            end.tables,
            later_host,
        ) matches Some(later) ==> later.tables == end.tables)),
{
    recovery_code_is_given_once(limit, k, user_id, tables, host);
    if let Some(end) = run(limit, k, GenerateRecoveryView::start(user_id), tables, host) {
        recovery_code_is_given_once(later_limit, later_k, user_id, end.tables, later_host);
    }
}

/// The recovery code is taken from a user exactly if no real second factor of theirs is left.
/// Nothing else changes, and nothing at all if it ends in an error. Where everything works,
/// it is done.
pub proof fn recovery_code_goes_with_the_last_factor(
    limit: nat,
    k: nat,
    user_id: Seq<char>,
    tables: Tables,
    host: Host,
)
    requires
        host.honest(),
    ensures
        limit >= 2 ==> run(limit, k, ClearRecoveryView::start(user_id), tables, host) is Some,
        limit >= 2 && host.willing() && tables.records.finite() ==> (run(
            limit,
            k,
            ClearRecoveryView::start(user_id),
            tables,
            host,
        ) matches Some(end) && end.result is Ok),
        run(limit, k, ClearRecoveryView::start(user_id), tables, host) matches Some(end) ==> {
            &&& end.tables.records == tables.records
            &&& end.result is Ok ==> end.tables.users == if tables.no_real(user_id) {
                tables.with_code(user_id, None)
            } else {
                tables.users
            }
            &&& end.result is Err ==> end.tables == tables
        },
{
    reveal_with_fuel(run, 3);
    listed_real(
        tables,
        user_id,
        host.answer(k, tables, ActionView::ListRealTwoFactors { user_id }),
    );
}

/// The activation of an authenticator app leaves the recovery code of a user who has one,
/// however it ends.
pub proof fn activate_authenticator_keeps_the_code(
    limit: nat,
    user_id: Seq<char>,
    password: Option<Seq<char>>,
    key: Seq<char>,
    token: Seq<char>,
    tables: Tables,
    host: Host,
)
    requires
        host.honest(),
        tables.users.dom().contains(user_id),
        tables.users[user_id] is Some,
    ensures
        run(
            limit,
            0,
            ActivateAuthenticatorView::start(user_id, password, key, token),
            tables,
            host,
        ) matches Some(end) ==> end.tables.users == tables.users,
{
    activate_authenticator_replaces_the_app(limit, user_id, password, key, token, tables, host);
    if let Some(end) = run(
        limit,
        0,
        ActivateAuthenticatorView::start(user_id, password, key, token),
        tables,
        host,
    ) {
        if end.result is Ok {
            let record = choose|record: TwoFactorView| #[trigger]
                app_activated(host, tables, end.tables, user_id, key, token, record);
            assert(tables.code_given(end.tables, user_id, host));
        } else {
            let record = choose|record: TwoFactorView| #[trigger]
                app_broken_off(host, tables, end.tables, user_id, key, token, record);
            assert(end.tables.users == tables.users);
        }
    }
}

/// Binding YubiKeys leaves the recovery code of a user who has one, however it ends.
pub proof fn activate_yubikey_keeps_the_code(
    limit: nat,
    user_id: Seq<char>,
    password: Option<Seq<char>>,
    slots: Seq<Option<Seq<char>>>,
    tables: Tables,
    host: Host,
)
    requires
        host.honest(),
        slots.len() <= MAX_YUBIKEYS,
        tables.users.dom().contains(user_id),
        tables.users[user_id] is Some,
    ensures
        run(limit, 0, ActivateYubikeyView::start(user_id, password, slots), tables, host) matches
            Some(end) ==> end.tables.users == tables.users,
{
    activate_yubikey_binds_the_keys(limit, user_id, password, slots, tables, host);
}

} // verus!
