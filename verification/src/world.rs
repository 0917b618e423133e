//! A model of the world around the requests, for what holds of whole requests.
//!
//! [`Tables`] is the database. [`Host`] is everything that replies to actions: it may
//! fail wherever it likes, but what it says of the database is true of it. [`run`] is
//! a request carried through to its end.

use vstd::prelude::*;

use crate::error::AppErrorView;
use crate::fresh::is_uuid;
use crate::handlers::authenticator::{
    ActivateAuthenticatorView, DisableAuthenticatorView, GetAuthenticatorView,
};
use crate::handlers::providers::{
    DisableTwofactorView, GetRecoverView, GetTwofactorView, ListTwofactors,
};
use crate::handlers::response::ResponseView;
use crate::handlers::yubikey::{ActivateYubikeyView, GetYubikeyView};
use crate::json::text_field;
use crate::models::{TwoFactorType, TwoFactorView, FIRST_INTERNAL_TYPE};
use crate::protocol::{ActionView, ReplyView, StepView};
use crate::recovery::{ClearRecoveryView, GenerateRecoveryView};
use crate::yubico::VerifyOtpView;

verus! {

/// The database.
pub struct Tables {
    /// The users, each with their recovery code.
    pub users: Map<Seq<char>, Option<Seq<char>>>,
    /// The two-factor records.
    pub records: Set<TwoFactorView>,
}

impl Tables {
    /// Whether `record` is among the records of the user that are not the server's own.
    pub open spec fn lists(self, user_id: Seq<char>, record: TwoFactorView) -> bool {
        &&& self.records.contains(record)
        &&& record.user_uuid == user_id
        &&& record.atype < FIRST_INTERNAL_TYPE
    }

    /// Whether `record` is a real second factor of the user: not the server's own, and
    /// not a remembered device.
    pub open spec fn lists_real(self, user_id: Seq<char>, record: TwoFactorView) -> bool {
        self.lists(user_id, record) && record.atype != TwoFactorType::Remember.number()
    }

    /// Whether the user has no real second factor.
    pub open spec fn no_real(self, user_id: Seq<char>) -> bool {
        forall|r: TwoFactorView| !#[trigger] self.lists_real(user_id, r)
    }

    /// The records without a user's records of one kind.
    pub open spec fn without_type(self, user_id: Seq<char>, atype: i32) -> Set<TwoFactorView> {
        self.records.filter(|r: TwoFactorView| !r.is_of(user_id, atype))
    }

    /// The records without those of one identifier.
    pub open spec fn without_uuid(self, uuid: Seq<char>) -> Set<TwoFactorView> {
        self.records.filter(|r: TwoFactorView| r.uuid != uuid)
    }

    /// The users with a new recovery code for one of them.
    pub open spec fn with_code(self, user_id: Seq<char>, code: Option<Seq<char>>) -> Map<
        Seq<char>,
        Option<Seq<char>>,
    > {
        if self.users.dom().contains(user_id) {
            self.users.insert(user_id, code)
        } else {
            self.users
        }
    }

    /// Whether no two records have one identifier.
    pub open spec fn keyed(self) -> bool {
        forall|r: TwoFactorView, s: TwoFactorView|
            #![trigger self.records.contains(r), self.records.contains(s)]
            self.records.contains(r) && self.records.contains(s) && r.uuid == s.uuid ==> r == s
    }

    /// Whether all records are enabled.
    pub open spec fn all_enabled(self) -> bool {
        forall|r: TwoFactorView| #[trigger] self.records.contains(r) ==> r.enabled
    }

    /// Whether the database holds the same as `other` of everyone but one user.
    pub open spec fn same_for_others(self, other: Tables, user_id: Seq<char>) -> bool {
        &&& self.users.dom() =~= other.users.dom()
        &&& forall|id: Seq<char>|
            id != user_id && self.users.dom().contains(id) ==> #[trigger] self.users[id]
                == other.users[id]
        &&& forall|r: TwoFactorView|
            r.user_uuid != user_id ==> (#[trigger] self.records.contains(r)
                <==> other.records.contains(r))
    }

    /// The users once one of them has lost their recovery code, if no real second
    /// factor of theirs is left.
    pub open spec fn cleared_users(self, user_id: Seq<char>) -> Map<Seq<char>, Option<Seq<char>>> {
        if self.no_real(user_id) {
            self.with_code(user_id, None)
        } else {
            self.users
        }
    }

    /// Whether `after` has the same users with the same recovery codes, but for a new
    /// code, made by the host, of a user who had none.
    pub open spec fn code_given(self, after: Tables, user_id: Seq<char>, host: Host) -> bool {
        &&& self.users.dom().contains(user_id)
        &&& if self.users[user_id] is Some {
            after.users == self.users
        } else {
            &&& after.users.dom().contains(user_id)
            &&& after.users[user_id] matches Some(code)
            &&& host.has_made(code)
            &&& after.users == self.users.insert(user_id, Some(code))
        }
    }

    /// The database after a write: what the statements of the action do to it.
    pub open spec fn written(self, action: ActionView) -> Tables {
        match action {
            ActionView::DeleteByType { user_id, atype } => Tables {
                records: self.without_type(user_id, atype),
                ..self
            },
            ActionView::DeleteByTypes { user_id, first, second } => Tables {
                records: self.records.filter(
                    |r: TwoFactorView| !r.is_of(user_id, first) && !r.is_of(user_id, second),
                ),
                ..self
            },
            ActionView::DeleteByUuid { uuid } => Tables {
                records: self.without_uuid(uuid),
                ..self
            },
            ActionView::Insert { record } => Tables {
                records: self.records.insert(record),
                ..self
            },
            ActionView::ReplaceByType { user_id, atype, record } => Tables {
                records: self.without_type(user_id, atype).insert(record),
                ..self
            },
            ActionView::SetRecoveryCode { user_id, code } => Tables {
                users: self.with_code(user_id, Some(code)),
                ..self
            },
            ActionView::ClearRecoveryCode { user_id } => Tables {
                users: self.with_code(user_id, None),
                ..self
            },
            _ => self,
        }
    }

    /// The database after an action with that reply. A write that was not done left
    /// the database as it was.
    pub open spec fn after(self, action: ActionView, reply: ReplyView) -> Tables {
        if reply == ReplyView::Written(true) {
            self.written(action)
        } else {
            self
        }
    }

    /// Whether `reply` is a possible reply to `action`: of the right kind, and true of
    /// the database where it speaks of it.
    pub open spec fn allows(self, action: ActionView, reply: ReplyView) -> bool {
        match action {
            ActionView::CheckRateLimit { .. } => reply is RateLimit,
            ActionView::OpenDatabase => reply is Database,
            ActionView::LoadUser { user_id } => match reply {
                ReplyView::User(Ok(Some(user))) => self.users.dom().contains(user_id)
                    && user.totp_recover == self.users[user_id],
                ReplyView::User(Ok(None)) => !self.users.dom().contains(user_id),
                ReplyView::User(Err(_)) => true,
                _ => false,
            },
            ActionView::VerifyPassword { .. } => reply is Password,
            ActionView::ListTwoFactors { user_id } => match reply {
                ReplyView::TwoFactors(Ok(list)) => forall|r: TwoFactorView| #[trigger]
                    list.contains(r) <==> self.lists(user_id, r),
                ReplyView::TwoFactors(Err(_)) => true,
                _ => false,
            },
            ActionView::ListRealTwoFactors { user_id } => match reply {
                ReplyView::TwoFactors(Ok(list)) => forall|r: TwoFactorView| #[trigger]
                    list.contains(r) <==> self.lists_real(user_id, r),
                ReplyView::TwoFactors(Err(_)) => true,
                _ => false,
            },
            ActionView::FindTwoFactor { user_id, atype } => match reply {
                ReplyView::TwoFactor(Ok(Some(r))) => self.records.contains(r) && r.is_of(
                    user_id,
                    atype,
                ),
                ReplyView::TwoFactor(Ok(None)) => forall|r: TwoFactorView| #[trigger]
                    self.records.contains(r) ==> !r.is_of(user_id, atype),
                ReplyView::TwoFactor(Err(_)) => true,
                _ => false,
            },
            ActionView::DeleteByType { .. } => reply is Written,
            ActionView::DeleteByTypes { .. } => reply is Written,
            ActionView::DeleteByUuid { .. } => reply is Written,
            ActionView::Insert { .. } => reply is Written,
            ActionView::ReplaceByType { .. } => reply is Written,
            ActionView::ReadRecoveryCode { user_id } => match reply {
                ReplyView::RecoveryRow(Ok(Some(row))) => self.users.dom().contains(user_id)
                    && text_field(row, "totp_recover"@) == self.users[user_id],
                ReplyView::RecoveryRow(Ok(None)) => !self.users.dom().contains(user_id),
                ReplyView::RecoveryRow(Err(_)) => true,
                _ => false,
            },
            ActionView::SetRecoveryCode { .. } => reply is Written,
            ActionView::ClearRecoveryCode { .. } => reply is Written,
            ActionView::GenerateSecret => reply is Secret,
            ActionView::DecodeKey { .. } => reply is Key,
            ActionView::ReadDriftSetting => reply is DriftSetting,
            ActionView::ValidateCode { .. } => reply is Code,
            ActionView::GenerateRecoveryCode => reply is RecoveryCode,
            ActionView::ReadVariable { .. } => reply is Variable,
            ActionView::Fetch { .. } => reply is Page,
        }
    }
}

/// What replies to the actions of a request, and what gives it fresh identifiers.
pub struct Host {
    /// The reply to the action that comes at that place, on that database.
    pub reply: spec_fn(nat, Tables, ActionView) -> ReplyView,
    /// The fresh identifier at that place.
    pub fresh: spec_fn(nat) -> Seq<char>,
}

impl Host {
    /// The reply to the action that comes at place `k`.
    pub open spec fn answer(self, k: nat, tables: Tables, action: ActionView) -> ReplyView {
        (self.reply)(k, tables, action)
    }

    /// The fresh identifier at place `k`.
    pub open spec fn identifier(self, k: nat) -> Seq<char> {
        (self.fresh)(k)
    }

    /// Whether it replied with `code` when it was asked for a new recovery code.
    pub open spec fn has_made(self, code: Seq<char>) -> bool {
        exists|k: nat, tables: Tables|
            #[trigger] self.answer(k, tables, ActionView::GenerateRecoveryCode)
                == ReplyView::RecoveryCode(Ok(code))
    }

    /// Whether all replies are possible ones.
    pub open spec fn honest(self) -> bool {
        &&& forall|k: nat, tables: Tables, action: ActionView|
            tables.allows(action, #[trigger] self.answer(k, tables, action))
        &&& forall|k: nat| is_uuid(#[trigger] self.identifier(k))
    }

    /// Whether everything that admission asks works: no limit is reached, the database opens,
    /// and both users and passwords can be looked up.
    pub open spec fn available(self) -> bool {
        &&& forall|k: nat, tables: Tables, action: ActionView|
            action is CheckRateLimit ==> #[trigger] self.answer(k, tables, action)
                != ReplyView::RateLimit(Some(false))
        &&& forall|k: nat, tables: Tables, action: ActionView|
            action is OpenDatabase ==> #[trigger] self.answer(k, tables, action)
                == ReplyView::Database(Ok(()))
        &&& forall|k: nat, tables: Tables, action: ActionView|
            action is LoadUser ==> (#[trigger] self.answer(k, tables, action) matches
                ReplyView::User(Ok(_)))
        &&& forall|k: nat, tables: Tables, action: ActionView|
            action is VerifyPassword ==> (#[trigger] self.answer(k, tables, action) matches
                ReplyView::Password(Ok(_)))
    }

    /// Whether admission lets everyone through who has a password.
    pub open spec fn open(self) -> bool {
        &&& self.available()
        &&& forall|k: nat, tables: Tables, action: ActionView|
            action is VerifyPassword ==> #[trigger] self.answer(k, tables, action)
                == ReplyView::Password(Ok(true))
    }

    /// Whether reads of the database work.
    pub open spec fn readable(self) -> bool {
        forall|k: nat, tables: Tables, action: ActionView|
            tables.records.finite() ==> {
                let reply = #[trigger] self.answer(k, tables, action);
                &&& action is FindTwoFactor ==> (reply matches ReplyView::TwoFactor(Ok(_)))
                &&& action is ListTwoFactors ==> (reply matches ReplyView::TwoFactors(Ok(_)))
                &&& action is ListRealTwoFactors ==> (reply matches ReplyView::TwoFactors(Ok(_)))
                &&& action is ReadRecoveryCode ==> (reply matches ReplyView::RecoveryRow(Ok(_)))
            }
    }

    /// Whether writes to the database work, and recovery codes and secrets can be made.
    pub open spec fn writable(self) -> bool {
        forall|k: nat, tables: Tables, action: ActionView|
            {
                let reply = #[trigger] self.answer(k, tables, action);
                &&& reply is Written ==> reply == ReplyView::Written(true)
                &&& action is GenerateRecoveryCode ==> (reply matches ReplyView::RecoveryCode(
                    Ok(_),
                ))
                &&& action is GenerateSecret ==> (reply matches ReplyView::Secret(Ok(_)))
            }
    }

    /// Whether everything works.
    pub open spec fn willing(self) -> bool {
        self.honest() && self.open() && self.readable() && self.writable()
    }

    /// Whether a request with that password, or without one, is never found to have the
    /// right one.
    pub open spec fn denies(self, password: Option<Seq<char>>) -> bool {
        match password {
            Some(password_hash) => forall|k: nat, tables: Tables|
                #[trigger] self.answer(k, tables, ActionView::VerifyPassword { password_hash })
                    != ReplyView::Password(Ok(true)),
            None => true,
        }
    }

    /// Whether it gave that identifier as a fresh one.
    pub open spec fn has_drawn(self, uuid: Seq<char>) -> bool {
        exists|k: nat| #[trigger] self.identifier(k) == uuid
    }

    /// Whether no password is ever found right.
    pub open spec fn locked(self) -> bool {
        forall|k: nat, tables: Tables, action: ActionView|
            action is VerifyPassword ==> #[trigger] self.answer(k, tables, action)
                != ReplyView::Password(Ok(true))
    }
}

/// A kind of request, or of a part of one.
pub trait Machine: Sized {
    /// What it finishes with.
    type Answer;

    /// The request after a reply, with a fresh identifier.
    spec fn after_reply(self, reply: ReplyView, fresh: Seq<char>) -> StepView<Self, Self::Answer>;
}

impl Machine for GetTwofactorView {
    type Answer = Seq<TwoFactorView>;

    open spec fn after_reply(self, reply: ReplyView, fresh: Seq<char>) -> StepView<
        Self,
        Self::Answer,
    > {
        self.next(reply)
    }
}

impl Machine for GetAuthenticatorView {
    type Answer = ResponseView;

    open spec fn after_reply(self, reply: ReplyView, fresh: Seq<char>) -> StepView<
        Self,
        Self::Answer,
    > {
        self.next(reply)
    }
}

impl Machine for ActivateAuthenticatorView {
    type Answer = ResponseView;

    open spec fn after_reply(self, reply: ReplyView, fresh: Seq<char>) -> StepView<
        Self,
        Self::Answer,
    > {
        self.next(reply, fresh)
    }
}

impl Machine for DisableAuthenticatorView {
    type Answer = ResponseView;

    open spec fn after_reply(self, reply: ReplyView, fresh: Seq<char>) -> StepView<
        Self,
        Self::Answer,
    > {
        self.next(reply)
    }
}

impl Machine for DisableTwofactorView {
    type Answer = ResponseView;

    open spec fn after_reply(self, reply: ReplyView, fresh: Seq<char>) -> StepView<
        Self,
        Self::Answer,
    > {
        self.next(reply)
    }
}

impl Machine for GetRecoverView {
    type Answer = ResponseView;

    open spec fn after_reply(self, reply: ReplyView, fresh: Seq<char>) -> StepView<
        Self,
        Self::Answer,
    > {
        self.next(reply)
    }
}

impl Machine for ActivateYubikeyView {
    type Answer = ResponseView;

    open spec fn after_reply(self, reply: ReplyView, fresh: Seq<char>) -> StepView<
        Self,
        Self::Answer,
    > {
        self.next(reply, fresh)
    }
}

impl Machine for GetYubikeyView {
    type Answer = ResponseView;

    open spec fn after_reply(self, reply: ReplyView, fresh: Seq<char>) -> StepView<
        Self,
        Self::Answer,
    > {
        self.next(reply)
    }
}

impl Machine for ListTwofactors {
    type Answer = Seq<TwoFactorView>;

    open spec fn after_reply(self, reply: ReplyView, fresh: Seq<char>) -> StepView<
        Self,
        Self::Answer,
    > {
        self.next(reply)
    }
}

impl Machine for GenerateRecoveryView {
    type Answer = ();

    open spec fn after_reply(self, reply: ReplyView, fresh: Seq<char>) -> StepView<
        Self,
        Self::Answer,
    > {
        self.next(reply)
    }
}

impl Machine for ClearRecoveryView {
    type Answer = ();

    open spec fn after_reply(self, reply: ReplyView, fresh: Seq<char>) -> StepView<
        Self,
        Self::Answer,
    > {
        self.next(reply)
    }
}

impl Machine for VerifyOtpView {
    type Answer = Seq<char>;

    open spec fn after_reply(self, reply: ReplyView, fresh: Seq<char>) -> StepView<
        Self,
        Self::Answer,
    > {
        self.next(reply, fresh)
    }
}

/// How a request ended, and what the database was then.
pub struct Outcome<T> {
    pub result: Result<T, AppErrorView>,
    pub tables: Tables,
}

/// The end of a request that stands at `step`, its next action being the one at place
/// `k`; nothing where it takes more than `limit` actions.
pub open spec fn run<M: Machine>(
    limit: nat,
    k: nat,
    step: StepView<M, M::Answer>,
    tables: Tables,
    host: Host,
) -> Option<Outcome<M::Answer>>
    decreases limit,
{
    match step {
        StepView::Finish { result } => Some(Outcome { result, tables }),
        StepView::Perform { state, action } => if limit == 0 {
            None
        } else {
            let reply = host.answer(k, tables, action);
            run(
                (limit - 1) as nat,
                k + 1,
                state.after_reply(reply, host.identifier(k)),
                tables.after(action, reply),
                host,
            )
        },
    }
}

} // verus!
