//! Authenticator apps (TOTP).

use vstd::prelude::*;

use crate::error::{AppError, AppErrorView};
use crate::fresh::{is_uuid, new_uuid};
use crate::admission::{Admission, AdmissionView};
use crate::handlers::response::{Response, ResponseView};
use crate::models::{
    DisableAuthenticatorData, EnableAuthenticatorData, PasswordOrOtpData, TwoFactor,
    TwoFactorType, TwoFactorView, User, UserView,
};
use crate::protocol::{Action, ActionView, Reply, ReplyView, Step, StepView};
use crate::recovery::{
    clear_recovery_if_no_twofactor, generate_recovery_code_for_user, ClearRecovery,
    ClearRecoveryView, GenerateRecovery, GenerateRecoveryView,
};
use crate::text::{ct_eq, opt_text, to_uppercase, uppercase};

verus! {

/// The length of the secret of an authenticator app, in bytes.
pub const SECRET_LEN: usize = 20;

/// A request for the secret of the user's authenticator app.
#[derive(Debug, PartialEq, Eq)]
pub enum GetAuthenticator {
    Admitting { admission: Admission, user_id: String },
    /// It waits for the record of the app.
    Finding,
    /// It waits for a new secret.
    Generating,
}

/// What a [`GetAuthenticator`] holds.
pub enum GetAuthenticatorView {
    Admitting { admission: AdmissionView, user_id: Seq<char> },
    Finding,
    Generating,
}

impl View for GetAuthenticator {
    type V = GetAuthenticatorView;

    open spec fn view(&self) -> GetAuthenticatorView {
        match self {
            GetAuthenticator::Admitting { admission, user_id } => GetAuthenticatorView::Admitting {
                admission: admission@,
                user_id: user_id@,
            },
            GetAuthenticator::Finding => GetAuthenticatorView::Finding,
            GetAuthenticator::Generating => GetAuthenticatorView::Generating,
        }
    }
}

impl GetAuthenticatorView {
    /// What follows a step of admission.
    pub open spec fn after_admission(
        step: StepView<AdmissionView, UserView>,
        user_id: Seq<char>,
    ) -> StepView<GetAuthenticatorView, ResponseView> {
        match step {
            StepView::Perform { state, action } => StepView::Perform {
                state: GetAuthenticatorView::Admitting { admission: state, user_id },
                action,
            },
            StepView::Finish { result: Err(e) } => StepView::fail(e),
            StepView::Finish { result: Ok(_) } => StepView::Perform {
                state: GetAuthenticatorView::Finding,
                action: ActionView::FindTwoFactor {
                    user_id,
                    atype: TwoFactorType::Authenticator.number(),
                },
            },
        }
    }

    /// The request starts with admission.
    pub open spec fn start(user_id: Seq<char>, password: Option<Seq<char>>) -> StepView<
        GetAuthenticatorView,
        ResponseView,
    > {
        GetAuthenticatorView::after_admission(AdmissionView::opening(user_id, password), user_id)
    }

    /// The request after a reply: the secret on record, or else a new one.
    pub open spec fn next(self, reply: ReplyView) -> StepView<GetAuthenticatorView, ResponseView> {
        match (self, reply) {
            (
                GetAuthenticatorView::Admitting { admission, user_id },
                _,
            ) => GetAuthenticatorView::after_admission(admission.next(reply), user_id),
            (
                GetAuthenticatorView::Finding,
                ReplyView::TwoFactor(Ok(Some(record))),
            ) => StepView::done(ResponseView::Authenticator { enabled: true, key: record.data }),
            (GetAuthenticatorView::Finding, ReplyView::TwoFactor(Ok(None))) => StepView::Perform {
                state: GetAuthenticatorView::Generating,
                action: ActionView::GenerateSecret,
            },
            (GetAuthenticatorView::Finding, ReplyView::TwoFactor(Err(e))) => StepView::fail(
                e.of_row(),
            ),
            (GetAuthenticatorView::Generating, ReplyView::Secret(Ok(key))) => StepView::done(
                ResponseView::Authenticator { enabled: false, key },
            ),
            (GetAuthenticatorView::Generating, ReplyView::Secret(Err(e))) => StepView::fail(e),
            _ => StepView::fail(AppErrorView::Internal),
        }
    }
}

/// `POST /api/two-factor/get-authenticator`: the secret of the user's authenticator
/// app, or a new secret where they have none.
pub fn get_authenticator(user_id: String, data: PasswordOrOtpData) -> (step: Step<
    GetAuthenticator,
    Response,
>)
    ensures
        step@ == GetAuthenticatorView::start(user_id@, opt_text(data.master_password_hash)),
{
    let admission = Admission::opening(user_id.clone(), data.master_password_hash);
    GetAuthenticator::after_admission(admission, user_id)
}

impl GetAuthenticator {
    fn after_admission(step: Step<Admission, User>, user_id: String) -> (r: Step<GetAuthenticator, Response>)
        ensures
            r@ == GetAuthenticatorView::after_admission(step@, user_id@),
    {
        match step {
            Step::Perform { state, action } => Step::ask(
                GetAuthenticator::Admitting { admission: state, user_id },
                action,
            ),
            Step::Finish { result: Err(e) } => Step::fail(e),
            Step::Finish { result: Ok(_) } => Step::ask(
                GetAuthenticator::Finding,
                Action::FindTwoFactor { user_id, atype: TwoFactorType::Authenticator.as_i32() },
            ),
        }
    }

    /// The request after a reply.
    pub fn resume(self, reply: Reply) -> (step: Step<GetAuthenticator, Response>)
        ensures
            step@ == self@.next(reply@),
    {
        match (self, reply) {
            (GetAuthenticator::Admitting { admission, user_id }, reply) => GetAuthenticator::after_admission(
                admission.resume(reply),
                user_id,
            ),
            (GetAuthenticator::Finding, Reply::TwoFactor(Ok(Some(record)))) => Step::done(
                Response::Authenticator { enabled: true, key: record.data },
            ),
            (GetAuthenticator::Finding, Reply::TwoFactor(Ok(None))) => Step::ask(
                GetAuthenticator::Generating,
                Action::GenerateSecret,
            ),
            (GetAuthenticator::Finding, Reply::TwoFactor(Err(e))) => Step::fail(e.of_row()),
            (GetAuthenticator::Generating, Reply::Secret(Ok(key))) => Step::done(
                Response::Authenticator { enabled: false, key },
            ),
            (GetAuthenticator::Generating, Reply::Secret(Err(e))) => Step::fail(e),
            _ => Step::fail(AppError::Internal),
        }
    }
}

/// A request to activate an authenticator app. `key` is the secret of the app: as it
/// was sent during admission, and in upper case after it.
#[derive(Debug, PartialEq, Eq)]
pub enum ActivateAuthenticator {
    Admitting { admission: Admission, user_id: String, key: String, token: String },
    /// It waits for the bytes of the secret.
    Decoding { user_id: String, key: String, token: String },
    /// It waits for the record of the app that the user had before.
    Finding { user_id: String, key: String, token: String },
    /// It waits for whether codes of neighbouring time steps are accepted.
    Configuring { user_id: String, key: String, token: String, last_used: i64 },
    /// It waits for the time step of the code.
    Validating { user_id: String, key: String },
    /// It waits for the deletion of old records.
    Deleting { user_id: String, key: String, last_used: i64 },
    /// It waits for the addition of the new record.
    Inserting { user_id: String, key: String },
    /// It sees to the recovery code.
    Recovering { recovery: GenerateRecovery, key: String },
}

/// What an [`ActivateAuthenticator`] holds.
pub enum ActivateAuthenticatorView {
    Admitting { admission: AdmissionView, user_id: Seq<char>, key: Seq<char>, token: Seq<char> },
    Decoding { user_id: Seq<char>, key: Seq<char>, token: Seq<char> },
    Finding { user_id: Seq<char>, key: Seq<char>, token: Seq<char> },
    Configuring { user_id: Seq<char>, key: Seq<char>, token: Seq<char>, last_used: i64 },
    Validating { user_id: Seq<char>, key: Seq<char> },
    Deleting { user_id: Seq<char>, key: Seq<char>, last_used: i64 },
    Inserting { user_id: Seq<char>, key: Seq<char> },
    Recovering { recovery: GenerateRecoveryView, key: Seq<char> },
}

impl View for ActivateAuthenticator {
    type V = ActivateAuthenticatorView;

    open spec fn view(&self) -> ActivateAuthenticatorView {
        match self {
            ActivateAuthenticator::Admitting {
                admission,
                user_id,
                key,
                token,
            } => ActivateAuthenticatorView::Admitting {
                admission: admission@,
                user_id: user_id@,
                key: key@,
                token: token@,
            },
            ActivateAuthenticator::Decoding {
                user_id,
                key,
                token,
            } => ActivateAuthenticatorView::Decoding {
                user_id: user_id@,
                key: key@,
                token: token@,
            },
            ActivateAuthenticator::Finding {
                user_id,
                key,
                token,
            } => ActivateAuthenticatorView::Finding {
                user_id: user_id@,
                key: key@,
                token: token@,
            },
            ActivateAuthenticator::Configuring {
                user_id,
                key,
                token,
                last_used,
            } => ActivateAuthenticatorView::Configuring {
                user_id: user_id@,
                key: key@,
                token: token@,
                last_used: *last_used,
            },
            ActivateAuthenticator::Validating {
                user_id,
                key,
            } => ActivateAuthenticatorView::Validating { user_id: user_id@, key: key@ },
            ActivateAuthenticator::Deleting {
                user_id,
                key,
                last_used,
            } => ActivateAuthenticatorView::Deleting {
                user_id: user_id@,
                key: key@,
                last_used: *last_used,
            },
            ActivateAuthenticator::Inserting {
                user_id,
                key,
            } => ActivateAuthenticatorView::Inserting { user_id: user_id@, key: key@ },
            ActivateAuthenticator::Recovering {
                recovery,
                key,
            } => ActivateAuthenticatorView::Recovering { recovery: recovery@, key: key@ },
        }
    }
}

/// The record of an authenticator app whose code of the time step `last_used` was
/// accepted.
pub open spec fn authenticator_record(
    uuid: Seq<char>,
    user_id: Seq<char>,
    key: Seq<char>,
    last_used: i64,
) -> TwoFactorView {
    TwoFactorView {
        last_used,
        ..TwoFactorView::new(uuid, user_id, TwoFactorType::Authenticator, key)
    }
}

impl ActivateAuthenticatorView {
    /// What follows a step of admission.
    pub open spec fn after_admission(
        step: StepView<AdmissionView, UserView>,
        user_id: Seq<char>,
        key: Seq<char>,
        token: Seq<char>,
    ) -> StepView<ActivateAuthenticatorView, ResponseView> {
        match step {
            StepView::Perform { state, action } => StepView::Perform {
                state: ActivateAuthenticatorView::Admitting { admission: state, user_id, key, token },
                action,
            },
            StepView::Finish { result: Err(e) } => StepView::fail(e),
            StepView::Finish { result: Ok(_) } => StepView::Perform {
                state: ActivateAuthenticatorView::Decoding { user_id, key: uppercase(key), token },
                action: ActionView::DecodeKey { key: uppercase(key) },
            },
        }
    }

    /// What follows a step of the making of a recovery code.
    pub open spec fn after_recovery(
        step: StepView<GenerateRecoveryView, ()>,
        key: Seq<char>,
    ) -> StepView<ActivateAuthenticatorView, ResponseView> {
        match step {
            StepView::Perform { state, action } => StepView::Perform {
                state: ActivateAuthenticatorView::Recovering { recovery: state, key },
                action,
            },
            StepView::Finish { result: Err(e) } => StepView::fail(e),
            StepView::Finish { result: Ok(_) } => StepView::done(
                ResponseView::Authenticator { enabled: true, key },
            ),
        }
    }

    /// The request starts with admission.
    pub open spec fn start(
        user_id: Seq<char>,
        password: Option<Seq<char>>,
        key: Seq<char>,
        token: Seq<char>,
    ) -> StepView<ActivateAuthenticatorView, ResponseView> {
        ActivateAuthenticatorView::after_admission(
            AdmissionView::opening(user_id, password),
            user_id,
            key,
            token,
        )
    }

    /// The request after a reply, with `fresh` as the identifier of a new record.
    ///
    /// The secret has to decode to twenty bytes, and the code is checked against the last
    /// time step that the user's former app was used with, and by the setting for codes of
    /// neighbouring time steps. Then the former app and all
    /// remembered devices go, and the new app takes their place.
    pub open spec fn next(self, reply: ReplyView, fresh: Seq<char>) -> StepView<
        ActivateAuthenticatorView,
        ResponseView,
    > {
        match (self, reply) {
            (
                ActivateAuthenticatorView::Admitting { admission, user_id, key, token },
                _,
            ) => ActivateAuthenticatorView::after_admission(admission.next(reply), user_id, key, token),
            (
                ActivateAuthenticatorView::Decoding { user_id, key, token },
                ReplyView::Key(Ok(bytes)),
            ) => if bytes.len() != SECRET_LEN {
                StepView::fail(AppErrorView::BadRequest("Invalid key length"@))
            } else {
                StepView::Perform {
                    state: ActivateAuthenticatorView::Finding { user_id, key, token },
                    action: ActionView::FindTwoFactor {
                        user_id,
                        atype: TwoFactorType::Authenticator.number(),
                    },
                }
            },
            (
                ActivateAuthenticatorView::Decoding { .. },
                ReplyView::Key(Err(e)),
            ) => StepView::fail(e),
            (
                ActivateAuthenticatorView::Finding { user_id, key, token },
                ReplyView::TwoFactor(Ok(existing)),
            ) => StepView::Perform {
                state: ActivateAuthenticatorView::Configuring {
                    user_id,
                    key,
                    token,
                    last_used: match existing {
                        Some(record) => record.last_used,
                        None => 0,
                    },
                },
                action: ActionView::ReadDriftSetting,
            },
            (
                ActivateAuthenticatorView::Configuring { user_id, key, token, last_used },
                ReplyView::DriftSetting(allow_drift),
            ) => StepView::Perform {
                state: ActivateAuthenticatorView::Validating { user_id, key },
                action: ActionView::ValidateCode { token, key, last_used, allow_drift },
            },
            (
                ActivateAuthenticatorView::Finding { .. },
                ReplyView::TwoFactor(Err(e)),
            ) => StepView::fail(e.of_row()),
            (
                ActivateAuthenticatorView::Validating { user_id, key },
                ReplyView::Code(Ok(last_used)),
            ) => StepView::Perform {
                state: ActivateAuthenticatorView::Deleting { user_id, key, last_used },
                action: ActionView::DeleteByTypes {
                    user_id,
                    first: TwoFactorType::Authenticator.number(),
                    second: TwoFactorType::Remember.number(),
                },
            },
            (
                ActivateAuthenticatorView::Validating { .. },
                ReplyView::Code(Err(e)),
            ) => StepView::fail(e),
            (
                ActivateAuthenticatorView::Deleting { user_id, key, last_used },
                ReplyView::Written(true),
            ) => StepView::Perform {
                state: ActivateAuthenticatorView::Inserting { user_id, key },
                action: ActionView::Insert {
                    record: authenticator_record(fresh, user_id, key, last_used),
                },
            },
            (
                ActivateAuthenticatorView::Inserting { user_id, key },
                ReplyView::Written(true),
            ) => ActivateAuthenticatorView::after_recovery(
                GenerateRecoveryView::start(user_id),
                key,
            ),
            (
                ActivateAuthenticatorView::Deleting { .. },
                ReplyView::Written(false),
            ) => StepView::fail(AppErrorView::Database),
            (
                ActivateAuthenticatorView::Inserting { .. },
                ReplyView::Written(false),
            ) => StepView::fail(AppErrorView::Database),
            (
                ActivateAuthenticatorView::Recovering { recovery, key },
                _,
            ) => ActivateAuthenticatorView::after_recovery(recovery.next(reply), key),
            _ => StepView::fail(AppErrorView::Internal),
        }
    }
}

/// `POST /api/two-factor/authenticator`: activates an authenticator app.
pub fn activate_authenticator(user_id: String, data: EnableAuthenticatorData) -> (step: Step<
    ActivateAuthenticator,
    Response,
>)
    ensures
        step@ == ActivateAuthenticatorView::start(
            user_id@,
            opt_text(data.master_password_hash),
            data.key@,
            data.token@,
        ),
{
    let admission = Admission::opening(user_id.clone(), data.master_password_hash);
    ActivateAuthenticator::after_admission(admission, user_id, data.key, data.token)
}

/// `PUT /api/two-factor/authenticator`: the same as `POST`.
pub fn activate_authenticator_put(user_id: String, data: EnableAuthenticatorData) -> (step: Step<
    ActivateAuthenticator,
    Response,
>)
    ensures
        step@ == ActivateAuthenticatorView::start(
            user_id@,
            opt_text(data.master_password_hash),
            data.key@,
            data.token@,
        ),
{
    activate_authenticator(user_id, data)
}

impl ActivateAuthenticator {
    fn after_admission(step: Step<Admission, User>, user_id: String, key: String, token: String) -> (r: Step<
        ActivateAuthenticator,
        Response,
    >)
        ensures
            r@ == ActivateAuthenticatorView::after_admission(step@, user_id@, key@, token@),
    {
        match step {
            Step::Perform { state, action } => Step::ask(
                ActivateAuthenticator::Admitting { admission: state, user_id, key, token },
                action,
            ),
            Step::Finish { result: Err(e) } => Step::fail(e),
            Step::Finish { result: Ok(_) } => {
                let key = to_uppercase(key.as_str());
                let action = Action::DecodeKey { key: key.clone() };
                Step::ask(ActivateAuthenticator::Decoding { user_id, key, token }, action)
            },
        }
    }

    fn after_recovery(step: Step<GenerateRecovery, ()>, key: String) -> (r: Step<
        ActivateAuthenticator,
        Response,
    >)
        ensures
            r@ == ActivateAuthenticatorView::after_recovery(step@, key@),
    {
        match step {
            Step::Perform { state, action } => Step::ask(
                ActivateAuthenticator::Recovering { recovery: state, key },
                action,
            ),
            Step::Finish { result: Err(e) } => Step::fail(e),
            Step::Finish { result: Ok(_) } => Step::done(
                Response::Authenticator { enabled: true, key },
            ),
        }
    }

    /// The request after a reply, with `fresh` as the identifier of a new record.
    pub fn resume_with(self, reply: Reply, fresh: String) -> (step: Step<
        ActivateAuthenticator,
        Response,
    >)
        ensures
            step@ == self@.next(reply@, fresh@),
    {
        match (self, reply) {
            (
                ActivateAuthenticator::Admitting { admission, user_id, key, token },
                reply,
            ) => ActivateAuthenticator::after_admission(admission.resume(reply), user_id, key, token),
            (
                ActivateAuthenticator::Decoding { user_id, key, token },
                Reply::Key(Ok(bytes)),
            ) => {
                if bytes.len() != SECRET_LEN {
                    return Step::fail(AppError::bad_request("Invalid key length"));
                }
                let action = Action::FindTwoFactor {
                    user_id: user_id.clone(),
                    atype: TwoFactorType::Authenticator.as_i32(),
                };
                Step::ask(ActivateAuthenticator::Finding { user_id, key, token }, action)
            },
            (ActivateAuthenticator::Decoding { .. }, Reply::Key(Err(e))) => Step::fail(e),
            (
                ActivateAuthenticator::Finding { user_id, key, token },
                Reply::TwoFactor(Ok(existing)),
            ) => {
                let last_used: i64 = match existing {
                    Some(record) => record.last_used,
                    None => 0,
                };
                Step::ask(
                    ActivateAuthenticator::Configuring { user_id, key, token, last_used },
                    Action::ReadDriftSetting,
                )
            },
            (
                ActivateAuthenticator::Configuring { user_id, key, token, last_used },
                Reply::DriftSetting(allow_drift),
            ) => {
                let action = Action::ValidateCode {
                    token,
                    key: key.clone(),
                    last_used,
                    allow_drift,
                };
                Step::ask(ActivateAuthenticator::Validating { user_id, key }, action)
            },
            (ActivateAuthenticator::Finding { .. }, Reply::TwoFactor(Err(e))) => Step::fail(
                e.of_row(),
            ),
            (
                ActivateAuthenticator::Validating { user_id, key },
                Reply::Code(Ok(last_used)),
            ) => {
                let action = Action::DeleteByTypes {
                    user_id: user_id.clone(),
                    first: TwoFactorType::Authenticator.as_i32(),
                    second: TwoFactorType::Remember.as_i32(),
                };
                Step::ask(ActivateAuthenticator::Deleting { user_id, key, last_used }, action)
            },
            (ActivateAuthenticator::Validating { .. }, Reply::Code(Err(e))) => Step::fail(e),
            (
                ActivateAuthenticator::Deleting { user_id, key, last_used },
                Reply::Written(true),
            ) => {
                let mut record = TwoFactor::with_uuid(
                    fresh,
                    user_id.clone(),
                    TwoFactorType::Authenticator,
                    key.clone(),
                );
                record.last_used = last_used;
                Step::ask(
                    ActivateAuthenticator::Inserting { user_id, key },
                    Action::Insert { record },
                )
            },
            (
                ActivateAuthenticator::Inserting { user_id, key },
                Reply::Written(true),
            ) => ActivateAuthenticator::after_recovery(
                generate_recovery_code_for_user(user_id),
                key,
            ),
            (ActivateAuthenticator::Deleting { .. }, Reply::Written(false)) => Step::fail(
                AppError::Database,
            ),
            (ActivateAuthenticator::Inserting { .. }, Reply::Written(false)) => Step::fail(
                AppError::Database,
            ),
            (
                ActivateAuthenticator::Recovering { recovery, key },
                reply,
            ) => ActivateAuthenticator::after_recovery(recovery.resume(reply), key),
            _ => Step::fail(AppError::Internal),
        }
    }

    /// The request after a reply. A new record gets an identifier of its own.
    pub fn resume(self, reply: Reply) -> (step: Step<ActivateAuthenticator, Response>)
        ensures
            exists|fresh: Seq<char>|
                is_uuid(fresh) && step@ == #[trigger] self@.next(reply@, fresh),
    {
        let fresh = new_uuid();
        self.resume_with(reply, fresh)
    }
}

/// A request to disable the authenticator app that has a given secret.
#[derive(Debug, PartialEq, Eq)]
pub enum DisableAuthenticator {
    /// It waits for the database.
    Opening { user_id: String, password: Option<String>, type_: i32, key: String },
    Admitting { admission: Admission, user_id: String, key: String },
    /// It waits for the record of the app.
    Finding { user_id: String, key: String },
    /// It waits for the deletion of the record.
    Deleting { user_id: String },
    /// It sees to the recovery code.
    Clearing { clear: ClearRecovery },
}

/// What a [`DisableAuthenticator`] holds.
pub enum DisableAuthenticatorView {
    Opening { user_id: Seq<char>, password: Option<Seq<char>>, type_: i32, key: Seq<char> },
    Admitting { admission: AdmissionView, user_id: Seq<char>, key: Seq<char> },
    Finding { user_id: Seq<char>, key: Seq<char> },
    Deleting { user_id: Seq<char> },
    Clearing { clear: ClearRecoveryView },
}

impl View for DisableAuthenticator {
    type V = DisableAuthenticatorView;

    open spec fn view(&self) -> DisableAuthenticatorView {
        match self {
            DisableAuthenticator::Opening {
                user_id,
                password,
                type_,
                key,
            } => DisableAuthenticatorView::Opening {
                user_id: user_id@,
                password: opt_text(*password),
                type_: *type_,
                key: key@,
            },
            DisableAuthenticator::Admitting {
                admission,
                user_id,
                key,
            } => DisableAuthenticatorView::Admitting { admission: admission@, user_id: user_id@, key: key@ },
            DisableAuthenticator::Finding {
                user_id,
                key,
            } => DisableAuthenticatorView::Finding { user_id: user_id@, key: key@ },
            DisableAuthenticator::Deleting {
                user_id,
            } => DisableAuthenticatorView::Deleting { user_id: user_id@ },
            DisableAuthenticator::Clearing {
                clear,
            } => DisableAuthenticatorView::Clearing { clear: clear@ },
        }
    }
}

impl DisableAuthenticatorView {
    /// What follows a step of admission.
    pub open spec fn after_admission(
        step: StepView<AdmissionView, UserView>,
        user_id: Seq<char>,
        key: Seq<char>,
    ) -> StepView<DisableAuthenticatorView, ResponseView> {
        match step {
            StepView::Perform { state, action } => StepView::Perform {
                state: DisableAuthenticatorView::Admitting { admission: state, user_id, key },
                action,
            },
            StepView::Finish { result: Err(e) } => StepView::fail(e),
            StepView::Finish { result: Ok(_) } => StepView::Perform {
                state: DisableAuthenticatorView::Finding { user_id, key },
                action: ActionView::FindTwoFactor {
                    user_id,
                    atype: TwoFactorType::Authenticator.number(),
                },
            },
        }
    }

    /// What follows a step of the clearing of the recovery code.
    pub open spec fn after_clear(step: StepView<ClearRecoveryView, ()>) -> StepView<
        DisableAuthenticatorView,
        ResponseView,
    > {
        match step {
            StepView::Perform { state, action } => StepView::Perform {
                state: DisableAuthenticatorView::Clearing { clear: state },
                action,
            },
            StepView::Finish { result: Err(e) } => StepView::fail(e),
            StepView::Finish { result: Ok(_) } => StepView::done(
                ResponseView::Provider {
                    enabled: false,
                    type_: TwoFactorType::Authenticator.number(),
                },
            ),
        }
    }

    /// The request starts with the database.
    pub open spec fn start(
        user_id: Seq<char>,
        password: Option<Seq<char>>,
        type_: i32,
        key: Seq<char>,
    ) -> StepView<DisableAuthenticatorView, ResponseView> {
        StepView::Perform {
            state: DisableAuthenticatorView::Opening { user_id, password, type_, key },
            action: ActionView::OpenDatabase,
        }
    }

    /// The request after a reply. The record goes only if the request names the right
    /// kind and, in upper case, the secret on record.
    pub open spec fn next(self, reply: ReplyView) -> StepView<
        DisableAuthenticatorView,
        ResponseView,
    > {
        match (self, reply) {
            (
                DisableAuthenticatorView::Opening { user_id, password, type_, key },
                ReplyView::Database(Ok(_)),
            ) => if type_ != TwoFactorType::Authenticator.number() {
                StepView::fail(AppErrorView::BadRequest("Invalid two factor type"@))
            } else {
                DisableAuthenticatorView::after_admission(
                    AdmissionView::loading(user_id, password),
                    user_id,
                    key,
                )
            },
            (
                DisableAuthenticatorView::Opening { .. },
                ReplyView::Database(Err(e)),
            ) => StepView::fail(e),
            (
                DisableAuthenticatorView::Admitting { admission, user_id, key },
                _,
            ) => DisableAuthenticatorView::after_admission(admission.next(reply), user_id, key),
            (
                DisableAuthenticatorView::Finding { user_id, key },
                ReplyView::TwoFactor(Ok(Some(record))),
            ) => if record.data != uppercase(key) {
                StepView::fail(
                    AppErrorView::BadRequest("TOTP key does not match recorded value"@),
                )
            } else {
                StepView::Perform {
                    state: DisableAuthenticatorView::Deleting { user_id },
                    action: ActionView::DeleteByUuid { uuid: record.uuid },
                }
            },
            (
                DisableAuthenticatorView::Finding { .. },
                ReplyView::TwoFactor(Ok(None)),
            ) => StepView::fail(AppErrorView::BadRequest("TOTP not configured"@)),
            (
                DisableAuthenticatorView::Finding { .. },
                ReplyView::TwoFactor(Err(e)),
            ) => StepView::fail(e.of_row()),
            (
                DisableAuthenticatorView::Deleting { user_id },
                ReplyView::Written(true),
            ) => DisableAuthenticatorView::after_clear(ClearRecoveryView::start(user_id)),
            (
                DisableAuthenticatorView::Deleting { .. },
                ReplyView::Written(false),
            ) => StepView::fail(AppErrorView::Database),
            (
                DisableAuthenticatorView::Clearing { clear },
                _,
            ) => DisableAuthenticatorView::after_clear(clear.next(reply)),
            _ => StepView::fail(AppErrorView::Internal),
        }
    }
}

/// `DELETE /api/two-factor/authenticator`: disables the authenticator app that has a
/// given secret.
pub fn disable_authenticator(user_id: String, data: DisableAuthenticatorData) -> (step: Step<
    DisableAuthenticator,
    Response,
>)
    ensures
        step@ == DisableAuthenticatorView::start(
            user_id@,
            opt_text(data.master_password_hash),
            data.type_,
            data.key@,
        ),
{
    Step::ask(
        DisableAuthenticator::Opening {
            user_id,
            password: data.master_password_hash,
            type_: data.type_,
            key: data.key,
        },
        Action::OpenDatabase,
    )
}

impl DisableAuthenticator {
    fn after_admission(step: Step<Admission, User>, user_id: String, key: String) -> (r: Step<
        DisableAuthenticator,
        Response,
    >)
        ensures
            r@ == DisableAuthenticatorView::after_admission(step@, user_id@, key@),
    {
        match step {
            Step::Perform { state, action } => Step::ask(
                DisableAuthenticator::Admitting { admission: state, user_id, key },
                action,
            ),
            Step::Finish { result: Err(e) } => Step::fail(e),
            Step::Finish { result: Ok(_) } => {
                let action = Action::FindTwoFactor {
                    user_id: user_id.clone(),
                    atype: TwoFactorType::Authenticator.as_i32(),
                };
                Step::ask(DisableAuthenticator::Finding { user_id, key }, action)
            },
        }
    }

    fn after_clear(step: Step<ClearRecovery, ()>) -> (r: Step<DisableAuthenticator, Response>)
        ensures
            r@ == DisableAuthenticatorView::after_clear(step@),
    {
        match step {
            Step::Perform { state, action } => Step::ask(
                DisableAuthenticator::Clearing { clear: state },
                action,
            ),
            Step::Finish { result: Err(e) } => Step::fail(e),
            Step::Finish { result: Ok(_) } => Step::done(
                Response::Provider {
                    enabled: false,
                    type_: TwoFactorType::Authenticator.as_i32(),
                },
            ),
        }
    }

    /// The request after a reply.
    pub fn resume(self, reply: Reply) -> (step: Step<DisableAuthenticator, Response>)
        ensures
            step@ == self@.next(reply@),
    {
        match (self, reply) {
            (
                DisableAuthenticator::Opening { user_id, password, type_, key },
                Reply::Database(Ok(_)),
            ) => {
                if type_ != TwoFactorType::Authenticator.as_i32() {
                    return Step::fail(AppError::bad_request("Invalid two factor type"));
                }
                let admission = Admission::loading(user_id.clone(), password);
                DisableAuthenticator::after_admission(admission, user_id, key)
            },
            (DisableAuthenticator::Opening { .. }, Reply::Database(Err(e))) => Step::fail(e),
            (
                DisableAuthenticator::Admitting { admission, user_id, key },
                reply,
            ) => DisableAuthenticator::after_admission(admission.resume(reply), user_id, key),
            (
                DisableAuthenticator::Finding { user_id, key },
                Reply::TwoFactor(Ok(Some(record))),
            ) => {
                let key = to_uppercase(key.as_str());
                if !ct_eq(record.data.as_str(), key.as_str()) {
                    return Step::fail(
                        AppError::bad_request("TOTP key does not match recorded value"),
                    );
                }
                Step::ask(
                    DisableAuthenticator::Deleting { user_id },
                    Action::DeleteByUuid { uuid: record.uuid },
                )
            },
            (DisableAuthenticator::Finding { .. }, Reply::TwoFactor(Ok(None))) => Step::fail(
                AppError::bad_request("TOTP not configured"),
            ),
            (DisableAuthenticator::Finding { .. }, Reply::TwoFactor(Err(e))) => Step::fail(
                e.of_row(),
            ),
            (
                DisableAuthenticator::Deleting { user_id },
                Reply::Written(true),
            ) => DisableAuthenticator::after_clear(clear_recovery_if_no_twofactor(user_id)),
            (DisableAuthenticator::Deleting { .. }, Reply::Written(false)) => Step::fail(
                AppError::Database,
            ),
            (
                DisableAuthenticator::Clearing { clear },
                reply,
            ) => DisableAuthenticator::after_clear(clear.resume(reply)),
            _ => Step::fail(AppError::Internal),
        }
    }
}

} // verus!
