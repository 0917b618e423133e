//! Requests that are refused: what they are answered, and that they change nothing.

use vstd::prelude::*;

use crate::error::AppErrorView;
use crate::handlers::authenticator::{
    ActivateAuthenticatorView, DisableAuthenticatorView, GetAuthenticatorView,
};
use crate::handlers::providers::{DisableTwofactorView, GetRecoverView};
use crate::handlers::response::ResponseView;
use crate::handlers::yubikey::{ActivateYubikeyView, GetYubikeyView};
use crate::models::TwoFactorType;
use crate::protocol::{ActionView, ReplyView, StepView};
use crate::world::{run, Host, Machine, Outcome, Tables};

verus! {

/// Whether a request never ends well, and leaves the database as it was.
pub open spec fn is_refused<M: Machine>(
    step: StepView<M, M::Answer>,
    tables: Tables,
    host: Host,
) -> bool {
    forall|limit: nat|
        (#[trigger] run(limit, 0, step, tables, host)) matches Some(end) ==> end.result is Err
            && end.tables == tables
}

/// Whether a request ends with that error, and leaves the database as it was.
pub open spec fn is_answered<M: Machine>(
    step: StepView<M, M::Answer>,
    tables: Tables,
    host: Host,
    error: AppErrorView,
) -> bool {
    forall|limit: nat|
        limit >= 4 ==> #[trigger] run(limit, 0, step, tables, host) == Some(
            Outcome::<M::Answer> { result: Err(error), tables },
        )
}

/// The answer to a request without the right master password.
pub open spec fn invalid_password() -> AppErrorView {
    AppErrorView::Unauthorized("Invalid password"@)
}

/// The answer to a request of a user who is not there.
pub open spec fn user_not_found() -> AppErrorView {
    AppErrorView::Unauthorized("User not found"@)
}

/// The answer to a request that does not show who sends it.
pub open spec fn refusal(tables: Tables, user_id: Seq<char>) -> AppErrorView {
    if tables.users.dom().contains(user_id) {
        invalid_password()
    } else {
        user_not_found()
    }
}

/// The answer to a request beyond the rate limit.
pub open spec fn too_many_attempts() -> AppErrorView {
    AppErrorView::TooManyRequests("Too many validation attempts. Please try again later."@)
}

/// Without a master password that is found right, or for a user who is not there, `get_authenticator`
/// gives nothing and changes nothing, whatever fails besides. Where nothing else fails, it
/// is answered that the password is invalid, or that there is no such user.
pub proof fn get_authenticator_needs_the_password(
    user_id: Seq<char>,
    password: Option<Seq<char>>,
    tables: Tables,
    host: Host,
)
    requires
        host.honest(),
        host.denies(password) || !tables.users.dom().contains(user_id),
    ensures
        is_refused(GetAuthenticatorView::start(user_id, password), tables, host),
        host.available() ==> is_answered(
            GetAuthenticatorView::start(user_id, password),
            tables,
            host,
            refusal(tables, user_id),
        ),
{
    reveal_with_fuel(run, 5);
}

/// Without a master password that is found right, or for a user who is not there, `activate_authenticator`
/// gives nothing and changes nothing, whatever fails besides. Where nothing else fails, it
/// is answered that the password is invalid, or that there is no such user.
pub proof fn activate_authenticator_needs_the_password(
    user_id: Seq<char>,
    password: Option<Seq<char>>,
    key: Seq<char>,
    token: Seq<char>,
    tables: Tables,
    host: Host,
)
    requires
        host.honest(),
        host.denies(password) || !tables.users.dom().contains(user_id),
    ensures
        is_refused(ActivateAuthenticatorView::start(user_id, password, key, token), tables, host),
        host.available() ==> is_answered(
            ActivateAuthenticatorView::start(user_id, password, key, token),
            tables,
            host,
            refusal(tables, user_id),
        ),
{
    reveal_with_fuel(run, 5);
}

/// Without a master password that is found right, or for a user who is not there, `disable_twofactor`
/// gives nothing and changes nothing, whatever fails besides. Where nothing else fails, it
/// is answered that the password is invalid, or that there is no such user.
pub proof fn disable_twofactor_needs_the_password(
    user_id: Seq<char>,
    password: Option<Seq<char>>,
    type_: i32,
    tables: Tables,
    host: Host,
)
    requires
        host.honest(),
        host.denies(password) || !tables.users.dom().contains(user_id),
    ensures
        is_refused(DisableTwofactorView::start(user_id, password, type_), tables, host),
        host.available() ==> is_answered(
            DisableTwofactorView::start(user_id, password, type_),
            tables,
            host,
            refusal(tables, user_id),
        ),
{
    reveal_with_fuel(run, 5);
}

/// Without a master password that is found right, or for a user who is not there,
/// `disable_authenticator` gives nothing and changes nothing, whatever fails besides. Where
/// nothing else fails and the request names the right kind, it is answered that the
/// password is invalid, or that there is no such user.
pub proof fn disable_authenticator_needs_the_password(
    user_id: Seq<char>,
    password: Option<Seq<char>>,
    type_: i32,
    key: Seq<char>,
    tables: Tables,
    host: Host,
)
    requires
        host.honest(),
        host.denies(password) || !tables.users.dom().contains(user_id),
    ensures
        is_refused(DisableAuthenticatorView::start(user_id, password, type_, key), tables, host),
        host.available() && type_ == TwoFactorType::Authenticator.number() ==> is_answered(
            DisableAuthenticatorView::start(user_id, password, type_, key),
            tables,
            host,
            refusal(tables, user_id),
        ),
{
    reveal_with_fuel(run, 5);
}

/// A request to disable an authenticator app that names another kind is answered so once
/// the database is open, whoever sends it.
pub proof fn disable_authenticator_needs_the_kind(
    user_id: Seq<char>,
    password: Option<Seq<char>>,
    type_: i32,
    key: Seq<char>,
    tables: Tables,
    host: Host,
)
    requires
        host.honest(),
        type_ != TwoFactorType::Authenticator.number(),
    ensures
        is_refused(DisableAuthenticatorView::start(user_id, password, type_, key), tables, host),
        host.available() ==> is_answered(
            DisableAuthenticatorView::start(user_id, password, type_, key),
            tables,
            host,
            AppErrorView::BadRequest("Invalid two factor type"@),
        ),
{
    reveal_with_fuel(run, 5);
}

/// Without a master password that is found right, or for a user who is not there, `get_recover`
/// gives nothing and changes nothing, whatever fails besides. Where nothing else fails, it
/// is answered that the password is invalid, or that there is no such user.
pub proof fn get_recover_needs_the_password(
    user_id: Seq<char>,
    password: Option<Seq<char>>,
    tables: Tables,
    host: Host,
)
    requires
        host.honest(),
        host.denies(password) || !tables.users.dom().contains(user_id),
    ensures
        is_refused(GetRecoverView::start(user_id, password), tables, host),
        host.available() ==> is_answered(
            GetRecoverView::start(user_id, password),
            tables,
            host,
            refusal(tables, user_id),
        ),
{
    reveal_with_fuel(run, 5);
}

/// Without a master password that is found right, or for a user who is not there, `activate_yubikey`
/// gives nothing and changes nothing, whatever fails besides. Where nothing else fails, it
/// is answered that the password is invalid, or that there is no such user.
pub proof fn activate_yubikey_needs_the_password(
    user_id: Seq<char>,
    password: Option<Seq<char>>,
    slots: Seq<Option<Seq<char>>>,
    tables: Tables,
    host: Host,
)
    requires
        host.honest(),
        host.denies(password) || !tables.users.dom().contains(user_id),
    ensures
        is_refused(ActivateYubikeyView::start(user_id, password, slots), tables, host),
        host.available() ==> is_answered(
            ActivateYubikeyView::start(user_id, password, slots),
            tables,
            host,
            refusal(tables, user_id),
        ),
{
    reveal_with_fuel(run, 5);
}

/// Without a master password that is found right, or for a user who is not there, `get_yubikey`
/// gives nothing and changes nothing, whatever fails besides. Where nothing else fails, it
/// is answered that the password is invalid, or that there is no such user.
pub proof fn get_yubikey_needs_the_password(
    user_id: Seq<char>,
    password: Option<Seq<char>>,
    tables: Tables,
    host: Host,
)
    requires
        host.honest(),
        host.denies(password) || !tables.users.dom().contains(user_id),
    ensures
        is_refused(GetYubikeyView::start(user_id, password), tables, host),
        host.available() ==> is_answered(
            GetYubikeyView::start(user_id, password),
            tables,
            host,
            refusal(tables, user_id),
        ),
{
    reveal_with_fuel(run, 5);
}

/// Beyond the rate limit, `activate_yubikey` is answered so at once: nothing else is asked, and
/// nothing changes.
pub proof fn activate_yubikey_is_limited(
    limit: nat,
    user_id: Seq<char>,
    password: Option<Seq<char>>,
    slots: Seq<Option<Seq<char>>>,
    tables: Tables,
    host: Host,
)
    requires
        limit >= 1,
        host.answer(
            0,
            tables,
            ActionView::CheckRateLimit {
                limiter: "LOGIN_RATE_LIMITER"@,
                key: "2fa-check:"@ + user_id,
            },
        ) == ReplyView::RateLimit(Some(false)),
    ensures
        run(limit, 0, ActivateYubikeyView::start(user_id, password, slots), tables, host) == Some(
            Outcome::<ResponseView> { result: Err(too_many_attempts()), tables },
        ),
{
    reveal_with_fuel(run, 2);
}

/// Beyond the rate limit, `get_yubikey` is answered so at once: nothing else is asked, and
/// nothing changes.
pub proof fn get_yubikey_is_limited(
    limit: nat,
    user_id: Seq<char>,
    password: Option<Seq<char>>,
    tables: Tables,
    host: Host,
)
    requires
        limit >= 1,
        host.answer(
            0,
            tables,
            ActionView::CheckRateLimit {
                limiter: "LOGIN_RATE_LIMITER"@,
                key: "2fa-check:"@ + user_id,
            },
        ) == ReplyView::RateLimit(Some(false)),
    ensures
        run(limit, 0, GetYubikeyView::start(user_id, password), tables, host) == Some(
            Outcome::<ResponseView> { result: Err(too_many_attempts()), tables },
        ),
{
    reveal_with_fuel(run, 2);
}

} // verus!
