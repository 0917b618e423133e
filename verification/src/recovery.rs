//! The recovery code: a user has one from the first second factor on, and loses it
//! with the last.

use vstd::prelude::*;

use crate::error::{AppError, AppErrorView};
use crate::json::{read_text_field, text_field};
use crate::protocol::{Action, ActionView, Reply, ReplyView, Step, StepView};

verus! {

/// What the making of a recovery code waits for.
#[derive(Debug, PartialEq, Eq)]
pub enum GenerateRecoveryPhase {
    /// The code that the user has.
    Reading,
    /// A new code.
    Generating,
    /// The write of the new code.
    Writing,
}

/// Gives a user a recovery code, if they have none.
#[derive(Debug, PartialEq, Eq)]
pub struct GenerateRecovery {
    pub user_id: String,
    pub phase: GenerateRecoveryPhase,
}

/// What a [`GenerateRecovery`] holds.
pub struct GenerateRecoveryView {
    pub user_id: Seq<char>,
    pub phase: GenerateRecoveryPhase,
}

impl View for GenerateRecovery {
    type V = GenerateRecoveryView;

    open spec fn view(&self) -> GenerateRecoveryView {
        GenerateRecoveryView { user_id: self.user_id@, phase: self.phase }
    }
}

impl GenerateRecoveryView {
    /// It starts with the code that the user has.
    pub open spec fn start(user_id: Seq<char>) -> StepView<GenerateRecoveryView, ()> {
        StepView::Perform {
            state: GenerateRecoveryView { user_id, phase: GenerateRecoveryPhase::Reading },
            action: ActionView::ReadRecoveryCode { user_id },
        }
    }

    /// It ends where the user has a code, and writes a new one where not. A column that
    /// does not hold text is no code.
    pub open spec fn next(self, reply: ReplyView) -> StepView<GenerateRecoveryView, ()> {
        match (self.phase, reply) {
            (
                GenerateRecoveryPhase::Reading,
                ReplyView::RecoveryRow(Ok(Some(row))),
            ) => if text_field(row, "totp_recover"@) is Some {
                StepView::done(())
            } else {
                StepView::Perform {
                    state: GenerateRecoveryView {
                        phase: GenerateRecoveryPhase::Generating,
                        ..self
                    },
                    action: ActionView::GenerateRecoveryCode,
                }
            },
            (GenerateRecoveryPhase::Reading, ReplyView::RecoveryRow(Ok(None))) => StepView::fail(
                AppErrorView::Unauthorized("User not found"@),
            ),
            (GenerateRecoveryPhase::Reading, ReplyView::RecoveryRow(Err(e))) => StepView::fail(
                e.of_row(),
            ),
            (
                GenerateRecoveryPhase::Generating,
                ReplyView::RecoveryCode(Ok(code)),
            ) => StepView::Perform {
                state: GenerateRecoveryView { phase: GenerateRecoveryPhase::Writing, ..self },
                action: ActionView::SetRecoveryCode { user_id: self.user_id, code },
            },
            (GenerateRecoveryPhase::Generating, ReplyView::RecoveryCode(Err(e))) => StepView::fail(
                e,
            ),
            (GenerateRecoveryPhase::Writing, ReplyView::Written(true)) => StepView::done(()),
            (GenerateRecoveryPhase::Writing, ReplyView::Written(false)) => StepView::fail(
                AppErrorView::Database,
            ),
            _ => StepView::fail(AppErrorView::Internal),
        }
    }
}

/// Gives a user a recovery code, if they have none.
pub fn generate_recovery_code_for_user(user_id: String) -> (step: Step<GenerateRecovery, ()>)
    ensures
        step@ == GenerateRecoveryView::start(user_id@),
{
    let action = Action::ReadRecoveryCode { user_id: user_id.clone() };
    Step::ask(GenerateRecovery { user_id, phase: GenerateRecoveryPhase::Reading }, action)
}

impl GenerateRecovery {
    /// The making of a recovery code after a reply.
    pub fn resume(self, reply: Reply) -> (step: Step<GenerateRecovery, ()>)
        ensures
            step@ == self@.next(reply@),
    {
        let GenerateRecovery { user_id, phase } = self;
        match (phase, reply) {
            (GenerateRecoveryPhase::Reading, Reply::RecoveryRow(Ok(Some(row)))) => {
                if read_text_field(&row, "totp_recover").is_some() {
                    Step::done(())
                } else {
                    Step::ask(
                        GenerateRecovery { user_id, phase: GenerateRecoveryPhase::Generating },
                        Action::GenerateRecoveryCode,
                    )
                }
            },
            (GenerateRecoveryPhase::Reading, Reply::RecoveryRow(Ok(None))) => Step::fail(
                AppError::unauthorized("User not found"),
            ),
            (GenerateRecoveryPhase::Reading, Reply::RecoveryRow(Err(e))) => Step::fail(e.of_row()),
            (GenerateRecoveryPhase::Generating, Reply::RecoveryCode(Ok(code))) => {
                let action = Action::SetRecoveryCode { user_id: user_id.clone(), code };
                Step::ask(
                    GenerateRecovery { user_id, phase: GenerateRecoveryPhase::Writing },
                    action,
                )
            },
            (GenerateRecoveryPhase::Generating, Reply::RecoveryCode(Err(e))) => Step::fail(e),
            (GenerateRecoveryPhase::Writing, Reply::Written(true)) => Step::done(()),
            (GenerateRecoveryPhase::Writing, Reply::Written(false)) => Step::fail(
                AppError::Database,
            ),
            _ => Step::fail(AppError::Internal),
        }
    }
}

/// What the clearing of a recovery code waits for.
#[derive(Debug, PartialEq, Eq)]
pub enum ClearRecoveryPhase {
    /// The second factors that the user has left.
    Counting,
    /// The erasure of the code.
    Clearing,
}

/// Takes the recovery code from a user who has no real second factor left.
#[derive(Debug, PartialEq, Eq)]
pub struct ClearRecovery {
    pub user_id: String,
    pub phase: ClearRecoveryPhase,
}

/// What a [`ClearRecovery`] holds.
pub struct ClearRecoveryView {
    pub user_id: Seq<char>,
    pub phase: ClearRecoveryPhase,
}

impl View for ClearRecovery {
    type V = ClearRecoveryView;

    open spec fn view(&self) -> ClearRecoveryView {
        ClearRecoveryView { user_id: self.user_id@, phase: self.phase }
    }
}

impl ClearRecoveryView {
    /// It starts with the second factors that the user has left.
    pub open spec fn start(user_id: Seq<char>) -> StepView<ClearRecoveryView, ()> {
        StepView::Perform {
            state: ClearRecoveryView { user_id, phase: ClearRecoveryPhase::Counting },
            action: ActionView::ListRealTwoFactors { user_id },
        }
    }

    /// It ends where any is left, and erases the code where none is.
    pub open spec fn next(self, reply: ReplyView) -> StepView<ClearRecoveryView, ()> {
        match (self.phase, reply) {
            (
                ClearRecoveryPhase::Counting,
                ReplyView::TwoFactors(Ok(remaining)),
            ) => if remaining.len() == 0 {
                StepView::Perform {
                    state: ClearRecoveryView { phase: ClearRecoveryPhase::Clearing, ..self },
                    action: ActionView::ClearRecoveryCode { user_id: self.user_id },
                }
            } else {
                StepView::done(())
            },
            (ClearRecoveryPhase::Counting, ReplyView::TwoFactors(Err(e))) => StepView::fail(
                e.of_list(),
            ),
            (ClearRecoveryPhase::Clearing, ReplyView::Written(true)) => StepView::done(()),
            (ClearRecoveryPhase::Clearing, ReplyView::Written(false)) => StepView::fail(
                AppErrorView::Database,
            ),
            _ => StepView::fail(AppErrorView::Internal),
        }
    }
}

/// Takes the recovery code from a user who has no real second factor left.
pub fn clear_recovery_if_no_twofactor(user_id: String) -> (step: Step<ClearRecovery, ()>)
    ensures
        step@ == ClearRecoveryView::start(user_id@),
{
    let action = Action::ListRealTwoFactors { user_id: user_id.clone() };
    Step::ask(ClearRecovery { user_id, phase: ClearRecoveryPhase::Counting }, action)
}

impl ClearRecovery {
    /// The clearing of a recovery code after a reply.
    pub fn resume(self, reply: Reply) -> (step: Step<ClearRecovery, ()>)
        ensures
            step@ == self@.next(reply@),
    {
        let ClearRecovery { user_id, phase } = self;
        match (phase, reply) {
            (ClearRecoveryPhase::Counting, Reply::TwoFactors(Ok(remaining))) => {
                if remaining.len() == 0 {
                    let action = Action::ClearRecoveryCode { user_id: user_id.clone() };
                    Step::ask(
                        ClearRecovery { user_id, phase: ClearRecoveryPhase::Clearing },
                        action,
                    )
                } else {
                    Step::done(())
                }
            },
            (ClearRecoveryPhase::Counting, Reply::TwoFactors(Err(e))) => Step::fail(e.of_list()),
            (ClearRecoveryPhase::Clearing, Reply::Written(true)) => Step::done(()),
            (ClearRecoveryPhase::Clearing, Reply::Written(false)) => Step::fail(
                AppError::Database,
            ),
            _ => Step::fail(AppError::Internal),
        }
    }
}

} // verus!
