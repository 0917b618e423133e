//! What stands before every request that needs the master password: the rate
//! limit where there is one, the database, the user, and the password.

use vstd::prelude::*;
use vstd::string::*;

use crate::error::{AppError, AppErrorView};
use crate::models::{User, UserView};
use crate::protocol::{Action, ActionView, Reply, ReplyView, Step, StepView};
use crate::text::opt_text;

verus! {

/// What admission waits for.
#[derive(Debug, PartialEq, Eq)]
pub enum AdmissionPhase {
    /// Whether the user is within the rate limit.
    Limiting,
    /// The database.
    Opening,
    /// The user.
    Loading,
    /// Whether the master password of this user is right.
    Checking(User),
}

/// What a [`AdmissionPhase`] holds.
pub enum AdmissionPhaseView {
    Limiting,
    Opening,
    Loading,
    Checking(UserView),
}

impl View for AdmissionPhase {
    type V = AdmissionPhaseView;

    open spec fn view(&self) -> AdmissionPhaseView {
        match self {
            AdmissionPhase::Limiting => AdmissionPhaseView::Limiting,
            AdmissionPhase::Opening => AdmissionPhaseView::Opening,
            AdmissionPhase::Loading => AdmissionPhaseView::Loading,
            AdmissionPhase::Checking(user) => AdmissionPhaseView::Checking(user@),
        }
    }
}

/// The admission of a request. It finishes with the user once their master password was
/// found right.
#[derive(Debug, PartialEq, Eq)]
pub struct Admission {
    pub user_id: String,
    /// The hash of the master password, if the request has one.
    pub password: Option<String>,
    pub phase: AdmissionPhase,
}

/// What a [`Admission`] holds.
pub struct AdmissionView {
    pub user_id: Seq<char>,
    pub password: Option<Seq<char>>,
    pub phase: AdmissionPhaseView,
}

impl View for Admission {
    type V = AdmissionView;

    open spec fn view(&self) -> AdmissionView {
        AdmissionView {
            user_id: self.user_id@,
            password: opt_text(self.password),
            phase: self.phase@,
        }
    }
}

impl AdmissionView {
    /// Admission that starts with the rate limit.
    pub open spec fn limited(user_id: Seq<char>, password: Option<Seq<char>>) -> StepView<
        AdmissionView,
        UserView,
    > {
        StepView::Perform {
            state: AdmissionView { user_id, password, phase: AdmissionPhaseView::Limiting },
            action: ActionView::CheckRateLimit {
                limiter: "LOGIN_RATE_LIMITER"@,
                key: "2fa-check:"@ + user_id,
            },
        }
    }

    /// Admission that starts with the database.
    pub open spec fn opening(user_id: Seq<char>, password: Option<Seq<char>>) -> StepView<
        AdmissionView,
        UserView,
    > {
        StepView::Perform {
            state: AdmissionView { user_id, password, phase: AdmissionPhaseView::Opening },
            action: ActionView::OpenDatabase,
        }
    }

    /// Admission that starts with the user, on a database that is open.
    pub open spec fn loading(user_id: Seq<char>, password: Option<Seq<char>>) -> StepView<
        AdmissionView,
        UserView,
    > {
        StepView::Perform {
            state: AdmissionView { user_id, password, phase: AdmissionPhaseView::Loading },
            action: ActionView::LoadUser { user_id },
        }
    }

    /// The check of the master password. A request without one is refused.
    pub open spec fn validate_password_or_otp(self, user: UserView) -> StepView<
        AdmissionView,
        UserView,
    > {
        match self.password {
            Some(password_hash) => StepView::Perform {
                state: AdmissionView { phase: AdmissionPhaseView::Checking(user), ..self },
                action: ActionView::VerifyPassword { password_hash },
            },
            None => StepView::fail(AppErrorView::Unauthorized("Invalid password"@)),
        }
    }

    /// Admission after a reply. A reply that does not answer what was asked is an
    /// internal error.
    pub open spec fn next(self, reply: ReplyView) -> StepView<AdmissionView, UserView> {
        match (self.phase, reply) {
            (AdmissionPhaseView::Limiting, ReplyView::RateLimit(within)) => if within == Some(false) {
                StepView::fail(
                    AppErrorView::TooManyRequests(
                        "Too many validation attempts. Please try again later."@,
                    ),
                )
            } else {
                AdmissionView::opening(self.user_id, self.password)
            },
            (AdmissionPhaseView::Opening, ReplyView::Database(Ok(_))) => AdmissionView::loading(
                self.user_id,
                self.password,
            ),
            (AdmissionPhaseView::Opening, ReplyView::Database(Err(e))) => StepView::fail(e),
            (
                AdmissionPhaseView::Loading,
                ReplyView::User(Ok(Some(user))),
            ) => self.validate_password_or_otp(user),
            (AdmissionPhaseView::Loading, ReplyView::User(Ok(None))) => StepView::fail(
                AppErrorView::Unauthorized("User not found"@),
            ),
            (AdmissionPhaseView::Loading, ReplyView::User(Err(e))) => StepView::fail(e.of_row()),
            (AdmissionPhaseView::Checking(user), ReplyView::Password(Ok(true))) => StepView::done(user),
            (AdmissionPhaseView::Checking(_), ReplyView::Password(Ok(false))) => StepView::fail(
                AppErrorView::Unauthorized("Invalid password"@),
            ),
            (AdmissionPhaseView::Checking(_), ReplyView::Password(Err(e))) => StepView::fail(e),
            _ => StepView::fail(AppErrorView::Internal),
        }
    }
}

impl Admission {
    /// Admission that starts with the rate limit, to stop guessing.
    pub fn limited(user_id: String, password: Option<String>) -> (step: Step<Admission, User>)
        ensures
            step@ == AdmissionView::limited(user_id@, opt_text(password)),
    {
        let mut key = "2fa-check:".to_string();
        key.append(user_id.as_str());
        Step::ask(
            Admission { user_id, password, phase: AdmissionPhase::Limiting },
            Action::CheckRateLimit { limiter: "LOGIN_RATE_LIMITER".to_string(), key },
        )
    }

    /// Admission that starts with the database.
    pub fn opening(user_id: String, password: Option<String>) -> (step: Step<Admission, User>)
        ensures
            step@ == AdmissionView::opening(user_id@, opt_text(password)),
    {
        Step::ask(Admission { user_id, password, phase: AdmissionPhase::Opening }, Action::OpenDatabase)
    }

    /// Admission that starts with the user, on a database that is open.
    pub fn loading(user_id: String, password: Option<String>) -> (step: Step<Admission, User>)
        ensures
            step@ == AdmissionView::loading(user_id@, opt_text(password)),
    {
        let action = Action::LoadUser { user_id: user_id.clone() };
        Step::ask(Admission { user_id, password, phase: AdmissionPhase::Loading }, action)
    }

    /// The check of the master password. One-time passwords are not accepted in its
    /// place, so a request without a master password is refused.
    pub fn validate_password_or_otp(self, user: User) -> (step: Step<Admission, User>)
        ensures
            step@ == self@.validate_password_or_otp(user@),
    {
        let Admission { user_id, password, phase: _ } = self;
        match password {
            Some(hash) => {
                let action = Action::VerifyPassword { password_hash: hash.clone() };
                Step::ask(
                    Admission { user_id, password: Some(hash), phase: AdmissionPhase::Checking(user) },
                    action,
                )
            },
            None => Step::fail(AppError::unauthorized("Invalid password")),
        }
    }

    /// Admission after a reply.
    pub fn resume(self, reply: Reply) -> (step: Step<Admission, User>)
        ensures
            step@ == self@.next(reply@),
    {
        let Admission { user_id, password, phase } = self;
        match (phase, reply) {
            (AdmissionPhase::Limiting, Reply::RateLimit(within)) => match within {
                Some(false) => Step::fail(
                    AppError::too_many_requests(
                        "Too many validation attempts. Please try again later.",
                    ),
                ),
                _ => Admission::opening(user_id, password),
            },
            (AdmissionPhase::Opening, Reply::Database(Ok(_))) => Admission::loading(user_id, password),
            (AdmissionPhase::Opening, Reply::Database(Err(e))) => Step::fail(e),
            (AdmissionPhase::Loading, Reply::User(Ok(Some(user)))) => {
                Admission { user_id, password, phase: AdmissionPhase::Loading }.validate_password_or_otp(user)
            },
            (AdmissionPhase::Loading, Reply::User(Ok(None))) => Step::fail(
                AppError::unauthorized("User not found"),
            ),
            (AdmissionPhase::Loading, Reply::User(Err(e))) => Step::fail(e.of_row()),
            (AdmissionPhase::Checking(user), Reply::Password(Ok(true))) => Step::done(user),
            (AdmissionPhase::Checking(_), Reply::Password(Ok(false))) => Step::fail(
                AppError::unauthorized("Invalid password"),
            ),
            (AdmissionPhase::Checking(_), Reply::Password(Err(e))) => Step::fail(e),
            _ => Step::fail(AppError::Internal),
        }
    }
}

} // verus!
