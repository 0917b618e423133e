//! What contracts say of values is what the values hold.

use vstd::prelude::*;

use crate::error::{AppError, AppErrorView, StoreError, StoreErrorView};
use crate::handlers::response::{Response, ResponseView};
use crate::json::json_of;
use crate::models::{record_views, TwoFactor, TwoFactorList, User};
use crate::protocol::{
    Action, ActionView, Fetched, FetchedView, Reply, ReplyView, Step, StepView,
};
use crate::statement::{statement_views, Param, ParamView, Statement};
use crate::text::{opt_text, texts};

verus! {

/// The view of a record has all its fields, and that of a list all its records in their order.
pub proof fn record_views_hold_all(record: TwoFactor, list: TwoFactorList, i: int)
    ensures
        record@.uuid == record.uuid@,
        record@.user_uuid == record.user_uuid@,
        record@.atype == record.atype,
        record@.enabled == record.enabled,
        record@.data == record.data@,
        record@.last_used == record.last_used,
        list@.len() == list.records@.len(),
        0 <= i < list@.len() ==> list@[i] == list.records@[i]@,
{
}

/// The view of a list of strings has all of them in their order.
pub proof fn texts_hold_all(list: Seq<String>, i: int)
    ensures
        texts(list).len() == list.len(),
        0 <= i < list.len() ==> texts(list)[i] == list[i]@,
{
}

/// The view of a user has their recovery code, if there is one.
pub proof fn user_views_hold_all(user: User)
    ensures
        user.totp_recover matches Some(code) ==> user@.totp_recover == Some(code@),
        user.totp_recover is None ==> user@.totp_recover is None,
{
}

/// The view of a statement has its SQL and all its values in their order.
pub proof fn statement_views_hold_all(statement: Statement, i: int)
    ensures
        statement@.sql == statement.sql@,
        statement@.params.len() == statement.params@.len(),
        0 <= i < statement.params@.len() ==> match statement.params@[i] {
            Param::Text(s) => statement@.params[i] == ParamView::Text(s@),
            Param::Number(n) => statement@.params[i] == ParamView::Number(n as int),
        },
{
}

/// The view of a list of statements has all of them in their order.
pub proof fn statement_lists_hold_all(list: Seq<Statement>, i: int)
    ensures
        statement_views(list).len() == list.len(),
        0 <= i < list.len() ==> statement_views(list)[i] == list[i]@,
{
}

/// The view of a step says what is waited for, or how the request ended.
pub proof fn step_views_hold_all<S: View, T: View>(step: Step<S, T>)
    ensures
        match step {
            Step::Perform { state, action } => step@ == (StepView::<S::V, T::V>::Perform {
                state: state@,
                action: action@,
            }),
            Step::Finish { result: Ok(t) } => step@ == (StepView::<S::V, T::V>::Finish {
                result: Ok(t@),
            }),
            Step::Finish { result: Err(e) } => step@ == (StepView::<S::V, T::V>::Finish {
                result: Err(e@),
            }),
        },
{
}

/// The view of an answer has all that it says.
pub proof fn response_views_hold_all(response: Response)
    ensures
        match response {
            Response::Authenticator { enabled, key } => response@ == (
            ResponseView::Authenticator { enabled, key: key@ }),
            Response::Provider { enabled, type_ } => response@ == (
            ResponseView::Provider { enabled, type_ }),
            Response::Recover { code } => response@ == (
            ResponseView::Recover { code: opt_text(code) }),
            Response::YubiKey { enabled, keys } => response@ == (
            ResponseView::YubiKey { enabled, keys: texts(keys@) }),
        },
{
}

/// The view of an error says which it is, with its message.
pub proof fn error_views_hold_all(error: AppError, store: StoreError)
    ensures
        match error {
            AppError::Database => error@ == AppErrorView::Database,
            AppError::Internal => error@ == AppErrorView::Internal,
            AppError::Unauthorized(m) => error@ == AppErrorView::Unauthorized(m@),
            AppError::BadRequest(m) => error@ == AppErrorView::BadRequest(m@),
            AppError::TooManyRequests(m) => error@ == AppErrorView::TooManyRequests(m@),
        },
        match store {
            StoreError::Bind(e) => store@ == StoreErrorView::Bind(e@),
            StoreError::Query => store@ == StoreErrorView::Query,
            StoreError::Decode => store@ == StoreErrorView::Decode,
        },
{
}

/// The view of an action has all that it asks for.
pub proof fn action_views_hold_all(action: Action)
    ensures
        match action {
            Action::CheckRateLimit { limiter, key } => action@ == (
            ActionView::CheckRateLimit { limiter: limiter@, key: key@ }),
            Action::OpenDatabase => action@ == ActionView::OpenDatabase,
            Action::LoadUser { user_id } => action@ == (
            ActionView::LoadUser { user_id: user_id@ }),
            Action::VerifyPassword { password_hash } => action@ == (
            ActionView::VerifyPassword { password_hash: password_hash@ }),
            Action::ListTwoFactors { user_id } => action@ == (
            ActionView::ListTwoFactors { user_id: user_id@ }),
            Action::ListRealTwoFactors { user_id } => action@ == (
            ActionView::ListRealTwoFactors { user_id: user_id@ }),
            Action::FindTwoFactor { user_id, atype } => action@ == (
            ActionView::FindTwoFactor { user_id: user_id@, atype }),
            Action::DeleteByType { user_id, atype } => action@ == (
            ActionView::DeleteByType { user_id: user_id@, atype }),
            Action::DeleteByTypes { user_id, first, second } => action@ == (
            ActionView::DeleteByTypes { user_id: user_id@, first, second }),
            Action::DeleteByUuid { uuid } => action@ == (
            ActionView::DeleteByUuid { uuid: uuid@ }),
            Action::Insert { record } => action@ == (ActionView::Insert { record: record@ }),
            Action::ReplaceByType { user_id, atype, record } => action@ == (
            ActionView::ReplaceByType { user_id: user_id@, atype, record: record@ }),
            Action::ReadRecoveryCode { user_id } => action@ == (
            ActionView::ReadRecoveryCode { user_id: user_id@ }),
            Action::SetRecoveryCode { user_id, code } => action@ == (
            ActionView::SetRecoveryCode { user_id: user_id@, code: code@ }),
            Action::ClearRecoveryCode { user_id } => action@ == (
            ActionView::ClearRecoveryCode { user_id: user_id@ }),
            Action::GenerateSecret => action@ == ActionView::GenerateSecret,
            Action::DecodeKey { key } => action@ == (ActionView::DecodeKey { key: key@ }),
            Action::ReadDriftSetting => action@ == ActionView::ReadDriftSetting,
            Action::ValidateCode { token, key, last_used, allow_drift } => action@ == (
            ActionView::ValidateCode { token: token@, key: key@, last_used, allow_drift }),
            Action::GenerateRecoveryCode => action@ == ActionView::GenerateRecoveryCode,
            Action::ReadVariable { name } => action@ == (
            ActionView::ReadVariable { name: name@ }),
            Action::Fetch { url } => action@ == (ActionView::Fetch { url: url@ }),
        },
{
}

/// The view of a reply has all that it says.
pub proof fn reply_views_hold_all(reply: Reply)
    ensures
        match reply {
            Reply::RateLimit(within) => reply@ == ReplyView::RateLimit(within),
            Reply::Database(Ok(_)) => reply@ == ReplyView::Database(Ok(())),
            Reply::Database(Err(e)) => reply@ == ReplyView::Database(Err(e@)),
            Reply::User(Ok(Some(user))) => reply@ == ReplyView::User(Ok(Some(user@))),
            Reply::User(Ok(None)) => reply@ == ReplyView::User(Ok(None)),
            Reply::User(Err(e)) => reply@ == ReplyView::User(Err(e@)),
            Reply::Password(Ok(right)) => reply@ == ReplyView::Password(Ok(right)),
            Reply::Password(Err(e)) => reply@ == ReplyView::Password(Err(e@)),
            Reply::TwoFactors(Ok(list)) => reply@ == ReplyView::TwoFactors(
                Ok(record_views(list@)),
            ),
            Reply::TwoFactors(Err(e)) => reply@ == ReplyView::TwoFactors(Err(e@)),
            Reply::TwoFactor(Ok(Some(record))) => reply@ == ReplyView::TwoFactor(
                Ok(Some(record@)),
            ),
            Reply::TwoFactor(Ok(None)) => reply@ == ReplyView::TwoFactor(Ok(None)),
            Reply::TwoFactor(Err(e)) => reply@ == ReplyView::TwoFactor(Err(e@)),
            Reply::Written(done) => reply@ == ReplyView::Written(done),
            Reply::RecoveryRow(Ok(Some(row))) => reply@ == ReplyView::RecoveryRow(
                Ok(Some(json_of(row))),
            ),
            Reply::RecoveryRow(Ok(None)) => reply@ == ReplyView::RecoveryRow(Ok(None)),
            Reply::RecoveryRow(Err(e)) => reply@ == ReplyView::RecoveryRow(Err(e@)),
            Reply::Secret(Ok(s)) => reply@ == ReplyView::Secret(Ok(s@)),
            Reply::Secret(Err(e)) => reply@ == ReplyView::Secret(Err(e@)),
            Reply::Key(Ok(bytes)) => reply@ == ReplyView::Key(Ok(bytes@)),
            Reply::Key(Err(e)) => reply@ == ReplyView::Key(Err(e@)),
            Reply::DriftSetting(allowed) => reply@ == ReplyView::DriftSetting(allowed),
            Reply::Code(Ok(step)) => reply@ == ReplyView::Code(Ok(step)),
            Reply::Code(Err(e)) => reply@ == ReplyView::Code(Err(e@)),
            Reply::RecoveryCode(Ok(s)) => reply@ == ReplyView::RecoveryCode(Ok(s@)),
            Reply::RecoveryCode(Err(e)) => reply@ == ReplyView::RecoveryCode(Err(e@)),
            Reply::Variable(Some(s)) => reply@ == ReplyView::Variable(Some(s@)),
            Reply::Variable(None) => reply@ == ReplyView::Variable(None),
            Reply::Page(Fetched::Unsendable) => reply@ == ReplyView::Page(FetchedView::Unsendable),
            Reply::Page(Fetched::Failed) => reply@ == ReplyView::Page(FetchedView::Failed),
            Reply::Page(Fetched::Body(Some(s))) => reply@ == ReplyView::Page(
                FetchedView::Body(Some(s@)),
            ),
            Reply::Page(Fetched::Body(None)) => reply@ == ReplyView::Page(
                FetchedView::Body(None),
            ),
        },
{
}

} // verus!
