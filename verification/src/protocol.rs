//! How a request talks to the world around it.
//!
//! A request is a state machine. Each step either asks for one [`Action`] and
//! waits for the [`Reply`] to it, or finishes. Whoever drives a request performs the
//! action and hands the reply back; which action comes when, and what each reply
//! means, is decided here.

use vstd::prelude::*;

use crate::error::{AppError, AppErrorView, StoreError, StoreErrorView};
use crate::json::{Json, json_of};
use crate::models::{
    opt_record, opt_user, record_views, TwoFactor, TwoFactorView, User, UserView,
};
use crate::text::opt_text;

verus! {

/// Something that a request asks to be done.
#[derive(Debug, PartialEq, Eq)]
pub enum Action {
    /// Count one attempt under `key` with the rate limiter of that name.
    CheckRateLimit { limiter: String, key: String },
    /// Open the database.
    OpenDatabase,
    /// Read the user.
    LoadUser { user_id: String },
    /// Check a master password hash against that of the user just read.
    VerifyPassword { password_hash: String },
    /// Read all records of the user but the server's own.
    ListTwoFactors { user_id: String },
    /// Read all records of the user but the server's own and remembered devices.
    ListRealTwoFactors { user_id: String },
    /// Read a record of the user of one kind.
    FindTwoFactor { user_id: String, atype: i32 },
    /// Delete the user's records of one kind.
    DeleteByType { user_id: String, atype: i32 },
    /// Delete the user's records of two kinds.
    DeleteByTypes { user_id: String, first: i32, second: i32 },
    /// Delete the record with that identifier.
    DeleteByUuid { uuid: String },
    /// Add a record.
    Insert { record: TwoFactor },
    /// Delete the user's records of one kind and add a record, both or neither.
    ReplaceByType { user_id: String, atype: i32, record: TwoFactor },
    /// Read the column with the user's recovery code.
    ReadRecoveryCode { user_id: String },
    /// Write the user's recovery code.
    SetRecoveryCode { user_id: String, code: String },
    /// Erase the user's recovery code.
    ClearRecoveryCode { user_id: String },
    /// Make a new secret for an authenticator app.
    GenerateSecret,
    /// Decode a Base32 key.
    DecodeKey { key: String },
    /// Read whether codes of neighbouring time steps are accepted.
    ReadDriftSetting,
    /// Check the code of an authenticator app. A code of a time step up to `last_used`
    /// was used before; one of a neighbouring time step is good if `allow_drift` says so.
    ValidateCode { token: String, key: String, last_used: i64, allow_drift: bool },
    /// Make a new recovery code.
    GenerateRecoveryCode,
    /// Read a configuration variable.
    ReadVariable { name: String },
    /// Get a page from the network.
    Fetch { url: String },
}

/// What an [`Action`] asks for.
pub enum ActionView {
    CheckRateLimit { limiter: Seq<char>, key: Seq<char> },
    OpenDatabase,
    LoadUser { user_id: Seq<char> },
    VerifyPassword { password_hash: Seq<char> },
    ListTwoFactors { user_id: Seq<char> },
    ListRealTwoFactors { user_id: Seq<char> },
    FindTwoFactor { user_id: Seq<char>, atype: i32 },
    DeleteByType { user_id: Seq<char>, atype: i32 },
    DeleteByTypes { user_id: Seq<char>, first: i32, second: i32 },
    DeleteByUuid { uuid: Seq<char> },
    Insert { record: TwoFactorView },
    ReplaceByType { user_id: Seq<char>, atype: i32, record: TwoFactorView },
    ReadRecoveryCode { user_id: Seq<char> },
    SetRecoveryCode { user_id: Seq<char>, code: Seq<char> },
    ClearRecoveryCode { user_id: Seq<char> },
    GenerateSecret,
    DecodeKey { key: Seq<char> },
    ReadDriftSetting,
    ValidateCode { token: Seq<char>, key: Seq<char>, last_used: i64, allow_drift: bool },
    GenerateRecoveryCode,
    ReadVariable { name: Seq<char> },
    Fetch { url: Seq<char> },
}

impl View for Action {
    type V = ActionView;

    open spec fn view(&self) -> ActionView {
        match self {
            Action::CheckRateLimit { limiter, key } => ActionView::CheckRateLimit {
                limiter: limiter@,
                key: key@,
            },
            Action::OpenDatabase => ActionView::OpenDatabase,
            Action::LoadUser { user_id } => ActionView::LoadUser { user_id: user_id@ },
            Action::VerifyPassword { password_hash } => ActionView::VerifyPassword {
                password_hash: password_hash@,
            },
            Action::ListTwoFactors { user_id } => ActionView::ListTwoFactors { user_id: user_id@ },
            Action::ListRealTwoFactors { user_id } => ActionView::ListRealTwoFactors {
                user_id: user_id@,
            },
            Action::FindTwoFactor { user_id, atype } => ActionView::FindTwoFactor {
                user_id: user_id@,
                atype: *atype,
            },
            Action::DeleteByType { user_id, atype } => ActionView::DeleteByType {
                user_id: user_id@,
                atype: *atype,
            },
            Action::DeleteByTypes { user_id, first, second } => ActionView::DeleteByTypes {
                user_id: user_id@,
                first: *first,
                second: *second,
            },
            Action::DeleteByUuid { uuid } => ActionView::DeleteByUuid { uuid: uuid@ },
            Action::Insert { record } => ActionView::Insert { record: record@ },
            Action::ReplaceByType { user_id, atype, record } => ActionView::ReplaceByType {
                user_id: user_id@,
                atype: *atype,
                record: record@,
            },
            Action::ReadRecoveryCode { user_id } => ActionView::ReadRecoveryCode {
                user_id: user_id@,
            },
            Action::SetRecoveryCode { user_id, code } => ActionView::SetRecoveryCode {
                user_id: user_id@,
                code: code@,
            },
            Action::ClearRecoveryCode { user_id } => ActionView::ClearRecoveryCode {
                user_id: user_id@,
            },
            Action::GenerateSecret => ActionView::GenerateSecret,
            Action::DecodeKey { key } => ActionView::DecodeKey { key: key@ },
            Action::ReadDriftSetting => ActionView::ReadDriftSetting,
            Action::ValidateCode {
                token,
                key,
                last_used,
                allow_drift,
            } => ActionView::ValidateCode {
                token: token@,
                key: key@,
                last_used: *last_used,
                allow_drift: *allow_drift,
            },
            Action::GenerateRecoveryCode => ActionView::GenerateRecoveryCode,
            Action::ReadVariable { name } => ActionView::ReadVariable { name: name@ },
            Action::Fetch { url } => ActionView::Fetch { url: url@ },
        }
    }
}

/// How a page was got from the network.
#[derive(Debug, PartialEq, Eq)]
pub enum Fetched {
    /// No request could be made of the address.
    Unsendable,
    /// The request failed.
    Failed,
    /// The page; nothing where it could not be read as text.
    Body(Option<String>),
}

/// What a [`Fetched`] holds.
pub enum FetchedView {
    Unsendable,
    Failed,
    Body(Option<Seq<char>>),
}

impl View for Fetched {
    type V = FetchedView;

    open spec fn view(&self) -> FetchedView {
        match self {
            Fetched::Unsendable => FetchedView::Unsendable,
            Fetched::Failed => FetchedView::Failed,
            Fetched::Body(text) => FetchedView::Body(opt_text(*text)),
        }
    }
}

/// What came of an [`Action`].
#[derive(Debug, PartialEq)]
pub enum Reply {
    /// Whether the attempt is within the limit; nothing where there is no working limiter.
    RateLimit(Option<bool>),
    /// Whether the database is open.
    Database(Result<(), AppError>),
    /// The user, if there is one.
    User(Result<Option<User>, StoreError>),
    /// Whether the password is right.
    Password(Result<bool, AppError>),
    /// The records asked for.
    TwoFactors(Result<Vec<TwoFactor>, StoreError>),
    /// The record asked for, if there is one.
    TwoFactor(Result<Option<TwoFactor>, StoreError>),
    /// Whether the write was done.
    Written(bool),
    /// The row with the recovery code, if there is such a user.
    RecoveryRow(Result<Option<serde_json::Value>, StoreError>),
    /// The new secret.
    Secret(Result<String, AppError>),
    /// The bytes of the key.
    Key(Result<Vec<u8>, AppError>),
    /// Whether codes of neighbouring time steps are accepted.
    DriftSetting(bool),
    /// The time step of the code.
    Code(Result<i64, AppError>),
    /// The new recovery code.
    RecoveryCode(Result<String, AppError>),
    /// The variable, if it is set.
    Variable(Option<String>),
    /// The page.
    Page(Fetched),
}

/// What a [`Reply`] says.
pub enum ReplyView {
    RateLimit(Option<bool>),
    Database(Result<(), AppErrorView>),
    User(Result<Option<UserView>, StoreErrorView>),
    Password(Result<bool, AppErrorView>),
    TwoFactors(Result<Seq<TwoFactorView>, StoreErrorView>),
    TwoFactor(Result<Option<TwoFactorView>, StoreErrorView>),
    Written(bool),
    RecoveryRow(Result<Option<Json>, StoreErrorView>),
    Secret(Result<Seq<char>, AppErrorView>),
    Key(Result<Seq<u8>, AppErrorView>),
    DriftSetting(bool),
    Code(Result<i64, AppErrorView>),
    RecoveryCode(Result<Seq<char>, AppErrorView>),
    Variable(Option<Seq<char>>),
    Page(FetchedView),
}

impl View for Reply {
    type V = ReplyView;

    open spec fn view(&self) -> ReplyView {
        match self {
            Reply::RateLimit(o) => ReplyView::RateLimit(*o),
            Reply::Database(Ok(())) => ReplyView::Database(Ok(())),
            Reply::Database(Err(e)) => ReplyView::Database(Err(e@)),
            Reply::User(Ok(o)) => ReplyView::User(Ok(opt_user(*o))),
            Reply::User(Err(e)) => ReplyView::User(Err(e@)),
            Reply::Password(Ok(b)) => ReplyView::Password(Ok(*b)),
            Reply::Password(Err(e)) => ReplyView::Password(Err(e@)),
            Reply::TwoFactors(Ok(list)) => ReplyView::TwoFactors(Ok(record_views(list@))),
            Reply::TwoFactors(Err(e)) => ReplyView::TwoFactors(Err(e@)),
            Reply::TwoFactor(Ok(o)) => ReplyView::TwoFactor(Ok(opt_record(*o))),
            Reply::TwoFactor(Err(e)) => ReplyView::TwoFactor(Err(e@)),
            Reply::Written(done) => ReplyView::Written(*done),
            Reply::RecoveryRow(Ok(Some(row))) => ReplyView::RecoveryRow(Ok(Some(json_of(*row)))),
            Reply::RecoveryRow(Ok(None)) => ReplyView::RecoveryRow(Ok(None)),
            Reply::RecoveryRow(Err(e)) => ReplyView::RecoveryRow(Err(e@)),
            Reply::Secret(Ok(s)) => ReplyView::Secret(Ok(s@)),
            Reply::Secret(Err(e)) => ReplyView::Secret(Err(e@)),
            Reply::Key(Ok(bytes)) => ReplyView::Key(Ok(bytes@)),
            Reply::Key(Err(e)) => ReplyView::Key(Err(e@)),
            Reply::DriftSetting(allowed) => ReplyView::DriftSetting(*allowed),
            Reply::Code(Ok(step)) => ReplyView::Code(Ok(*step)),
            Reply::Code(Err(e)) => ReplyView::Code(Err(e@)),
            Reply::RecoveryCode(Ok(s)) => ReplyView::RecoveryCode(Ok(s@)),
            Reply::RecoveryCode(Err(e)) => ReplyView::RecoveryCode(Err(e@)),
            Reply::Variable(o) => ReplyView::Variable(opt_text(*o)),
            Reply::Page(p) => ReplyView::Page(p@),
        }
    }
}

/// Where a request stands after a step.
#[derive(Debug, PartialEq)]
pub enum Step<S, T> {
    /// It waits for the reply to an action.
    Perform { state: S, action: Action },
    /// It is done.
    Finish { result: Result<T, AppError> },
}

/// What a [`Step`] says.
pub enum StepView<S, T> {
    Perform { state: S, action: ActionView },
    Finish { result: Result<T, AppErrorView> },
}

impl<S: View, T: View> View for Step<S, T> {
    type V = StepView<S::V, T::V>;

    open spec fn view(&self) -> StepView<S::V, T::V> {
        match self {
            Step::Perform { state, action } => StepView::Perform {
                state: state@,
                action: action@,
            },
            Step::Finish { result: Ok(t) } => StepView::Finish { result: Ok(t@) },
            Step::Finish { result: Err(e) } => StepView::Finish { result: Err(e@) },
        }
    }
}

impl<S, T> StepView<S, T> {
    /// A request that ends with an error.
    pub open spec fn fail(e: AppErrorView) -> StepView<S, T> {
        StepView::Finish { result: Err(e) }
    }

    /// A request that ends well.
    pub open spec fn done(t: T) -> StepView<S, T> {
        StepView::Finish { result: Ok(t) }
    }
}

impl<S: View, T: View> Step<S, T> {
    /// A request that ends with an error.
    pub fn fail(e: AppError) -> (step: Step<S, T>)
        ensures
            step@ == StepView::<S::V, T::V>::fail(e@),
    {
        Step::Finish { result: Err(e) }
    }

    /// A request that ends well.
    pub fn done(t: T) -> (step: Step<S, T>)
        ensures
            step@ == StepView::<S::V, T::V>::done(t@),
    {
        Step::Finish { result: Ok(t) }
    }

    /// A request that waits for the reply to an action.
    pub fn ask(state: S, action: Action) -> (step: Step<S, T>)
        ensures
            step@ == (StepView::<S::V, T::V>::Perform { state: state@, action: action@ }),
    {
        Step::Perform { state, action }
    }
}

} // verus!
