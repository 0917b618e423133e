//! What fails is told: the answer to a request is that of the first action that failed.

use vstd::prelude::*;

use crate::error::{AppErrorView, StoreErrorView};
use crate::handlers::authenticator::{
    ActivateAuthenticatorView, DisableAuthenticatorView, GetAuthenticatorView,
};
use crate::handlers::providers::{
    DisableTwofactorView, GetRecoverView, GetTwofactorView, ListTwofactors,
};
use crate::handlers::yubikey::{ActivateYubikeyView, GetYubikeyView};
use crate::protocol::{ActionView, FetchedView, ReplyView, StepView};
use crate::recovery::{ClearRecoveryView, GenerateRecoveryView};
use crate::world::Machine;
use crate::yubico::VerifyOtpView;

verus! {

/// What is answered where one row could not be read.
pub open spec fn row_failure(error: StoreErrorView) -> AppErrorView {
    match error {
        StoreErrorView::Bind(e) => e,
        StoreErrorView::Query => AppErrorView::Database,
        StoreErrorView::Decode => AppErrorView::Internal,
    }
}

/// What is answered where a list of rows could not be read.
pub open spec fn list_failure(error: StoreErrorView) -> AppErrorView {
    match error {
        StoreErrorView::Bind(e) => e,
        StoreErrorView::Query => AppErrorView::Database,
        StoreErrorView::Decode => AppErrorView::Database,
    }
}

/// What is answered where that reply to that action tells of a failure. A reply that does not
/// fit the action is an internal error.
pub open spec fn failure(action: ActionView, reply: ReplyView) -> Option<AppErrorView> {
    match action {
        ActionView::CheckRateLimit { .. } => match reply {
            ReplyView::RateLimit(Some(false)) => Some(
                AppErrorView::TooManyRequests(
                    "Too many validation attempts. Please try again later."@,
                ),
            ),
            ReplyView::RateLimit(_) => None,
            _ => Some(AppErrorView::Internal),
        },
        ActionView::OpenDatabase => match reply {
            ReplyView::Database(Ok(_)) => None,
            ReplyView::Database(Err(e)) => Some(e),
            _ => Some(AppErrorView::Internal),
        },
        ActionView::LoadUser { .. } => match reply {
            ReplyView::User(Ok(Some(_))) => None,
            ReplyView::User(Ok(None)) => Some(AppErrorView::Unauthorized("User not found"@)),
            ReplyView::User(Err(e)) => Some(row_failure(e)),
            _ => Some(AppErrorView::Internal),
        },
        ActionView::VerifyPassword { .. } => match reply {
            ReplyView::Password(Ok(true)) => None,
            ReplyView::Password(Ok(false)) => Some(AppErrorView::Unauthorized("Invalid password"@)),
            ReplyView::Password(Err(e)) => Some(e),
            _ => Some(AppErrorView::Internal),
        },
        ActionView::ListTwoFactors { .. } => match reply {
            ReplyView::TwoFactors(Ok(_)) => None,
            ReplyView::TwoFactors(Err(e)) => Some(list_failure(e)),
            _ => Some(AppErrorView::Internal),
        },
        ActionView::ListRealTwoFactors { .. } => match reply {
            ReplyView::TwoFactors(Ok(_)) => None,
            ReplyView::TwoFactors(Err(e)) => Some(list_failure(e)),
            _ => Some(AppErrorView::Internal),
        },
        ActionView::FindTwoFactor { .. } => match reply {
            ReplyView::TwoFactor(Ok(_)) => None,
            ReplyView::TwoFactor(Err(e)) => Some(row_failure(e)),
            _ => Some(AppErrorView::Internal),
        },
        ActionView::ReadRecoveryCode { .. } => match reply {
            ReplyView::RecoveryRow(Ok(Some(_))) => None,
            ReplyView::RecoveryRow(Ok(None)) => Some(
                AppErrorView::Unauthorized("User not found"@),
            ),
            ReplyView::RecoveryRow(Err(e)) => Some(row_failure(e)),
            _ => Some(AppErrorView::Internal),
        },
        ActionView::GenerateSecret => match reply {
            ReplyView::Secret(Ok(_)) => None,
            ReplyView::Secret(Err(e)) => Some(e),
            _ => Some(AppErrorView::Internal),
        },
        ActionView::DecodeKey { .. } => match reply {
            ReplyView::Key(Ok(_)) => None,
            ReplyView::Key(Err(e)) => Some(e),
            _ => Some(AppErrorView::Internal),
        },
        ActionView::ReadDriftSetting => match reply {
            ReplyView::DriftSetting(_) => None,
            _ => Some(AppErrorView::Internal),
        },
        ActionView::ValidateCode { .. } => match reply {
            ReplyView::Code(Ok(_)) => None,
            ReplyView::Code(Err(e)) => Some(e),
            _ => Some(AppErrorView::Internal),
        },
        ActionView::GenerateRecoveryCode => match reply {
            ReplyView::RecoveryCode(Ok(_)) => None,
            ReplyView::RecoveryCode(Err(e)) => Some(e),
            _ => Some(AppErrorView::Internal),
        },
        ActionView::ReadVariable { .. } => match reply {
            ReplyView::Variable(Some(_)) => None,
            ReplyView::Variable(None) => Some(
                AppErrorView::BadRequest("Administrator has not configured this feature"@),
            ),
            _ => Some(AppErrorView::Internal),
        },
        ActionView::Fetch { .. } => match reply {
            ReplyView::Page(FetchedView::Body(_)) => None,
            ReplyView::Page(FetchedView::Failed) => Some(
                AppErrorView::BadRequest("Yubico verification network timeout or exception"@),
            ),
            ReplyView::Page(FetchedView::Unsendable) => Some(AppErrorView::Internal),
            _ => Some(AppErrorView::Internal),
        },
        _ => match reply {
            ReplyView::Written(true) => None,
            ReplyView::Written(false) => Some(AppErrorView::Database),
            _ => Some(AppErrorView::Internal),
        },
    }
}

/// Whether the failure of the action that a request waits for, if it waits for one, ends the
/// request and is its answer.
pub open spec fn tells_failures<M: Machine>(step: StepView<M, M::Answer>) -> bool {
    step matches StepView::Perform { state, action } ==> forall|reply: ReplyView, fresh: Seq<char>|
        match failure(action, reply) {
            Some(error) => #[trigger] state.after_reply(reply, fresh) == StepView::<
                M,
                M::Answer,
            >::fail(error),
            None => true,
        }
}

/// A request that lists second factors is answered with the failure of whatever fails, at once.
pub proof fn get_twofactor_tells_failures(
    user_id: Seq<char>,
    state: GetTwofactorView,
    reply: ReplyView,
    fresh: Seq<char>,
)
    ensures
        tells_failures(GetTwofactorView::start(user_id)),
        tells_failures(state.after_reply(reply, fresh)),
{
}

/// A request that reads the records of a user is answered with the failure of whatever fails, at once.
pub proof fn list_user_twofactors_tells_failures(
    user_id: Seq<char>,
    state: ListTwofactors,
    reply: ReplyView,
    fresh: Seq<char>,
)
    ensures
        tells_failures(ListTwofactors::start(user_id)),
        tells_failures(state.after_reply(reply, fresh)),
{
}

/// A request that asks for the secret of an authenticator app is answered with the failure of whatever fails, at once.
pub proof fn get_authenticator_tells_failures(
    user_id: Seq<char>,
    password: Option<Seq<char>>,
    state: GetAuthenticatorView,
    reply: ReplyView,
    fresh: Seq<char>,
)
    ensures
        tells_failures(GetAuthenticatorView::start(user_id, password)),
        tells_failures(state.after_reply(reply, fresh)),
{
}

/// A request that activates an authenticator app is answered with the failure of whatever fails, at once.
pub proof fn activate_authenticator_tells_failures(
    user_id: Seq<char>,
    password: Option<Seq<char>>,
    key: Seq<char>,
    token: Seq<char>,
    state: ActivateAuthenticatorView,
    reply: ReplyView,
    fresh: Seq<char>,
)
    ensures
        tells_failures(ActivateAuthenticatorView::start(user_id, password, key, token)),
        tells_failures(state.after_reply(reply, fresh)),
{
}

/// A request that disables an authenticator app is answered with the failure of whatever fails, at once.
pub proof fn disable_authenticator_tells_failures(
    user_id: Seq<char>,
    password: Option<Seq<char>>,
    type_: i32,
    key: Seq<char>,
    state: DisableAuthenticatorView,
    reply: ReplyView,
    fresh: Seq<char>,
)
    ensures
        tells_failures(DisableAuthenticatorView::start(user_id, password, type_, key)),
        tells_failures(state.after_reply(reply, fresh)),
{
}

/// A request that disables one kind of second factor is answered with the failure of whatever fails, at once.
pub proof fn disable_twofactor_tells_failures(
    user_id: Seq<char>,
    password: Option<Seq<char>>,
    type_: i32,
    state: DisableTwofactorView,
    reply: ReplyView,
    fresh: Seq<char>,
)
    ensures
        tells_failures(DisableTwofactorView::start(user_id, password, type_)),
        tells_failures(state.after_reply(reply, fresh)),
{
}

/// A request that asks for the recovery code is answered with the failure of whatever fails, at once.
pub proof fn get_recover_tells_failures(
    user_id: Seq<char>,
    password: Option<Seq<char>>,
    state: GetRecoverView,
    reply: ReplyView,
    fresh: Seq<char>,
)
    ensures
        tells_failures(GetRecoverView::start(user_id, password)),
        tells_failures(state.after_reply(reply, fresh)),
{
}

/// A request that binds YubiKeys is answered with the failure of whatever fails, at once.
pub proof fn activate_yubikey_tells_failures(
    user_id: Seq<char>,
    password: Option<Seq<char>>,
    slots: Seq<Option<Seq<char>>>,
    state: ActivateYubikeyView,
    reply: ReplyView,
    fresh: Seq<char>,
)
    ensures
        tells_failures(ActivateYubikeyView::start(user_id, password, slots)),
        tells_failures(state.after_reply(reply, fresh)),
{
}

/// A request that asks for the bound YubiKeys is answered with the failure of whatever fails, at once.
pub proof fn get_yubikey_tells_failures(
    user_id: Seq<char>,
    password: Option<Seq<char>>,
    state: GetYubikeyView,
    reply: ReplyView,
    fresh: Seq<char>,
)
    ensures
        tells_failures(GetYubikeyView::start(user_id, password)),
        tells_failures(state.after_reply(reply, fresh)),
{
}

/// A request that gives a user a recovery code is answered with the failure of whatever fails, at once.
pub proof fn generate_recovery_tells_failures(
    user_id: Seq<char>,
    state: GenerateRecoveryView,
    reply: ReplyView,
    fresh: Seq<char>,
)
    ensures
        tells_failures(GenerateRecoveryView::start(user_id)),
        tells_failures(state.after_reply(reply, fresh)),
{
}

/// A request that takes the recovery code is answered with the failure of whatever fails, at once.
pub proof fn clear_recovery_tells_failures(
    user_id: Seq<char>,
    state: ClearRecoveryView,
    reply: ReplyView,
    fresh: Seq<char>,
)
    ensures
        tells_failures(ClearRecoveryView::start(user_id)),
        tells_failures(state.after_reply(reply, fresh)),
{
}

/// A request that checks a one-time password is answered with the failure of whatever fails, at once.
pub proof fn verify_yubico_otp_tells_failures(
    otp: Seq<char>,
    state: VerifyOtpView,
    reply: ReplyView,
    fresh: Seq<char>,
)
    ensures
        tells_failures(VerifyOtpView::start(otp)),
        tells_failures(state.after_reply(reply, fresh)),
{
}

/// Whether a request does not wait for a rate limit.
pub open spec fn is_unlimited<M: Machine>(step: StepView<M, M::Answer>) -> bool {
    step matches StepView::Perform { state, action } ==> !(action is CheckRateLimit)
}

/// Only requests about YubiKeys are limited, under a key of the user's own; all others start
/// with the database, and no request is limited later on.
pub proof fn only_yubikeys_are_limited(
    user_id: Seq<char>,
    password: Option<Seq<char>>,
    key: Seq<char>,
    token: Seq<char>,
    type_: i32,
    slots: Seq<Option<Seq<char>>>,
    reply: ReplyView,
    fresh: Seq<char>,
)
    ensures
        GetTwofactorView::start(user_id)->action is OpenDatabase,
        GetAuthenticatorView::start(user_id, password)->action is OpenDatabase,
        ActivateAuthenticatorView::start(user_id, password, key, token)->action is OpenDatabase,
        DisableAuthenticatorView::start(user_id, password, type_, key)->action is OpenDatabase,
        DisableTwofactorView::start(user_id, password, type_)->action is OpenDatabase,
        GetRecoverView::start(user_id, password)->action is OpenDatabase,
        ActivateYubikeyView::start(user_id, password, slots)->action == (ActionView::CheckRateLimit {
            limiter: "LOGIN_RATE_LIMITER"@,
            key: "2fa-check:"@ + user_id,
        }),
        GetYubikeyView::start(user_id, password)->action == (ActionView::CheckRateLimit {
            limiter: "LOGIN_RATE_LIMITER"@,
            key: "2fa-check:"@ + user_id,
        }),
        forall|s: GetTwofactorView| is_unlimited(#[trigger] s.after_reply(reply, fresh)),
        forall|s: GetAuthenticatorView| is_unlimited(#[trigger] s.after_reply(reply, fresh)),
        forall|s: ActivateAuthenticatorView| is_unlimited(#[trigger] s.after_reply(reply, fresh)),
        forall|s: DisableAuthenticatorView| is_unlimited(#[trigger] s.after_reply(reply, fresh)),
        forall|s: DisableTwofactorView| is_unlimited(#[trigger] s.after_reply(reply, fresh)),
        forall|s: GetRecoverView| is_unlimited(#[trigger] s.after_reply(reply, fresh)),
        forall|s: ActivateYubikeyView| is_unlimited(#[trigger] s.after_reply(reply, fresh)),
        forall|s: GetYubikeyView| is_unlimited(#[trigger] s.after_reply(reply, fresh)),
{
}

} // verus!
