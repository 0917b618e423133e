//! Second factors of every kind: the list of them, disabling one, and the recovery
//! code.

use vstd::prelude::*;

use crate::error::{AppError, AppErrorView};
use crate::admission::{Admission, AdmissionView};
use crate::handlers::response::{Response, ResponseView};
use crate::models::{
    record_views, DisableTwoFactorData, PasswordOrOtpData, TwoFactor, TwoFactorList,
    TwoFactorType, TwoFactorView, User, UserView,
};
use crate::protocol::{Action, ActionView, Reply, ReplyView, Step, StepView};
use crate::recovery::{clear_recovery_if_no_twofactor, ClearRecovery, ClearRecoveryView};
use crate::text::opt_text;

verus! {

/// Whether a record is a second factor in its own right: an enabled authenticator app.
pub open spec fn is_second_factor(record: TwoFactorView) -> bool {
    record.enabled && record.atype == TwoFactorType::Authenticator.number()
}

/// Whether a user with those records has two-factor authentication.
pub open spec fn has_second_factor(records: Seq<TwoFactorView>) -> bool {
    exists|i: int| 0 <= i < records.len() && is_second_factor(#[trigger] records[i])
}

/// Whether the user has two-factor authentication enabled.
///
/// Only an authenticator app counts as a second factor here. A remembered device is
/// never a second factor by itself.
pub fn is_twofactor_enabled(twofactors: &[TwoFactor]) -> (enabled: bool)
    ensures
        enabled == has_second_factor(record_views(twofactors@)),
{
    for i in 0..twofactors.len()
        invariant
            forall|j: int|
                0 <= j < i ==> !is_second_factor(#[trigger] record_views(twofactors@)[j]),
    {
        let record = &twofactors[i];
        if record.enabled && record.atype == TwoFactorType::Authenticator.as_i32() {
            assert(is_second_factor(record_views(twofactors@)[i as int]));
            return true;
        }
    }
    false
}

/// A read of all records of a user but the server's own.
#[derive(Debug, PartialEq, Eq)]
pub struct ListTwofactors;

impl View for ListTwofactors {
    type V = ListTwofactors;

    open spec fn view(&self) -> ListTwofactors {
        *self
    }
}

impl ListTwofactors {
    /// The read starts with its one action.
    pub open spec fn start(user_id: Seq<char>) -> StepView<ListTwofactors, Seq<TwoFactorView>> {
        StepView::Perform {
            state: ListTwofactors,
            action: ActionView::ListTwoFactors { user_id },
        }
    }

    /// The read ends with the reply.
    pub open spec fn next(self, reply: ReplyView) -> StepView<ListTwofactors, Seq<TwoFactorView>> {
        match reply {
            ReplyView::TwoFactors(Ok(records)) => StepView::done(records),
            ReplyView::TwoFactors(Err(e)) => StepView::fail(e.of_list()),
            _ => StepView::fail(AppErrorView::Internal),
        }
    }

    /// The read after the reply.
    pub fn resume(self, reply: Reply) -> (step: Step<ListTwofactors, TwoFactorList>)
        ensures
            step@ == self@.next(reply@),
    {
        match reply {
            Reply::TwoFactors(Ok(records)) => Step::done(TwoFactorList { records }),
            Reply::TwoFactors(Err(e)) => Step::fail(e.of_list()),
            _ => Step::fail(AppError::Internal),
        }
    }
}

/// Reads all records of a user but the server's own.
pub fn list_user_twofactors(user_id: String) -> (step: Step<ListTwofactors, TwoFactorList>)
    ensures
        step@ == ListTwofactors::start(user_id@),
{
    Step::ask(ListTwofactors, Action::ListTwoFactors { user_id })
}

/// The enabled ones of a list of records, in their order.
pub open spec fn enabled_records(records: Seq<TwoFactorView>) -> Seq<TwoFactorView> {
    records.filter(|r: TwoFactorView| r.enabled)
}

/// The enabled ones of a list of records, in their order.
pub fn keep_enabled(list: TwoFactorList) -> (kept: TwoFactorList)
    ensures
        kept@ == enabled_records(list@),
{
    let ghost all = list@;
    let mut kept: Vec<TwoFactor> = Vec::new();
    proof {
        reveal(Seq::filter);
    }
    for record in iter: list.records
        invariant
            all == record_views(iter.seq()),
            record_views(kept@) == enabled_records(all.take(iter.index())),
    {
        let ghost i = iter.index();
        let ghost before = record_views(kept@);
        proof {
            reveal(Seq::filter);
            assert(all.take(i + 1).drop_last() == all.take(i));
            assert(all.take(i + 1).last() == record@);
        }
        if record.enabled {
            kept.push(record);
            assert(record_views(kept@) == before.push(record@));
        }
    }
    assert(all.take(all.len() as int) == all);
    TwoFactorList { records: kept }
}

/// A request for the list of the user's second factors.
#[derive(Debug, PartialEq, Eq)]
pub enum GetTwofactor {
    /// It waits for the database.
    Opening { user_id: String },
    /// It waits for the records.
    Listing { list: ListTwofactors },
}

/// What a [`GetTwofactor`] holds.
pub enum GetTwofactorView {
    Opening { user_id: Seq<char> },
    Listing { list: ListTwofactors },
}

impl View for GetTwofactor {
    type V = GetTwofactorView;

    open spec fn view(&self) -> GetTwofactorView {
        match self {
            GetTwofactor::Opening { user_id } => GetTwofactorView::Opening { user_id: user_id@ },
            GetTwofactor::Listing { list } => GetTwofactorView::Listing { list: list@ },
        }
    }
}

impl GetTwofactorView {
    /// What follows a step of the read: at its end, the enabled ones of the records.
    pub open spec fn after_list(step: StepView<ListTwofactors, Seq<TwoFactorView>>) -> StepView<
        GetTwofactorView,
        Seq<TwoFactorView>,
    > {
        match step {
            StepView::Perform { state, action } => StepView::Perform {
                state: GetTwofactorView::Listing { list: state },
                action,
            },
            StepView::Finish { result: Err(e) } => StepView::fail(e),
            StepView::Finish { result: Ok(records) } => StepView::done(enabled_records(records)),
        }
    }

    /// The request starts with the database.
    pub open spec fn start(user_id: Seq<char>) -> StepView<GetTwofactorView, Seq<TwoFactorView>> {
        StepView::Perform {
            state: GetTwofactorView::Opening { user_id },
            action: ActionView::OpenDatabase,
        }
    }

    /// The request after a reply.
    pub open spec fn next(self, reply: ReplyView) -> StepView<
        GetTwofactorView,
        Seq<TwoFactorView>,
    > {
        match (self, reply) {
            (
                GetTwofactorView::Opening { user_id },
                ReplyView::Database(Ok(_)),
            ) => GetTwofactorView::after_list(ListTwofactors::start(user_id)),
            (GetTwofactorView::Opening { .. }, ReplyView::Database(Err(e))) => StepView::fail(e),
            (GetTwofactorView::Listing { list }, _) => GetTwofactorView::after_list(
                list.next(reply),
            ),
            _ => StepView::fail(AppErrorView::Internal),
        }
    }
}

/// `GET /api/two-factor`: the list of the user's enabled second factors. It finishes with
/// their records, in the order in which the database gave them.
pub fn get_twofactor(user_id: String) -> (step: Step<GetTwofactor, TwoFactorList>)
    ensures
        step@ == GetTwofactorView::start(user_id@),
{
    Step::ask(GetTwofactor::Opening { user_id }, Action::OpenDatabase)
}

impl GetTwofactor {
    fn after_list(step: Step<ListTwofactors, TwoFactorList>) -> (r: Step<
        GetTwofactor,
        TwoFactorList,
    >)
        ensures
            r@ == GetTwofactorView::after_list(step@),
    {
        match step {
            Step::Perform { state, action } => Step::ask(
                GetTwofactor::Listing { list: state },
                action,
            ),
            Step::Finish { result: Err(e) } => Step::fail(e),
            Step::Finish { result: Ok(list) } => Step::done(keep_enabled(list)),
        }
    }

    /// The request after a reply.
    pub fn resume(self, reply: Reply) -> (step: Step<GetTwofactor, TwoFactorList>)
        ensures
            step@ == self@.next(reply@),
    {
        match (self, reply) {
            (
                GetTwofactor::Opening { user_id },
                Reply::Database(Ok(_)),
            ) => GetTwofactor::after_list(list_user_twofactors(user_id)),
            (GetTwofactor::Opening { .. }, Reply::Database(Err(e))) => Step::fail(e),
            (GetTwofactor::Listing { list }, reply) => GetTwofactor::after_list(
                list.resume(reply),
            ),
            _ => Step::fail(AppError::Internal),
        }
    }
}

/// A request to disable one kind of second factor.
#[derive(Debug, PartialEq, Eq)]
pub enum DisableTwofactor {
    Admitting { admission: Admission, user_id: String, type_: i32 },
    /// It waits for the deletion of the records.
    Deleting { user_id: String, type_: i32 },
    /// It sees to the recovery code.
    Clearing { clear: ClearRecovery, type_: i32 },
}

/// What a [`DisableTwofactor`] holds.
pub enum DisableTwofactorView {
    Admitting { admission: AdmissionView, user_id: Seq<char>, type_: i32 },
    Deleting { user_id: Seq<char>, type_: i32 },
    Clearing { clear: ClearRecoveryView, type_: i32 },
}

impl View for DisableTwofactor {
    type V = DisableTwofactorView;

    open spec fn view(&self) -> DisableTwofactorView {
        match self {
            DisableTwofactor::Admitting { admission, user_id, type_ } => DisableTwofactorView::Admitting {
                admission: admission@,
                user_id: user_id@,
                type_: *type_,
            },
            DisableTwofactor::Deleting { user_id, type_ } => DisableTwofactorView::Deleting {
                user_id: user_id@,
                type_: *type_,
            },
            DisableTwofactor::Clearing { clear, type_ } => DisableTwofactorView::Clearing {
                clear: clear@,
                type_: *type_,
            },
        }
    }
}

impl DisableTwofactorView {
    /// What follows a step of admission.
    pub open spec fn after_admission(
        step: StepView<AdmissionView, UserView>,
        user_id: Seq<char>,
        type_: i32,
    ) -> StepView<DisableTwofactorView, ResponseView> {
        match step {
            StepView::Perform { state, action } => StepView::Perform {
                state: DisableTwofactorView::Admitting { admission: state, user_id, type_ },
                action,
            },
            StepView::Finish { result: Err(e) } => StepView::fail(e),
            StepView::Finish { result: Ok(_) } => StepView::Perform {
                state: DisableTwofactorView::Deleting { user_id, type_ },
                action: ActionView::DeleteByType { user_id, atype: type_ },
            },
        }
    }

    /// What follows a step of the clearing of the recovery code.
    pub open spec fn after_clear(
        step: StepView<ClearRecoveryView, ()>,
        type_: i32,
    ) -> StepView<DisableTwofactorView, ResponseView> {
        match step {
            StepView::Perform { state, action } => StepView::Perform {
                state: DisableTwofactorView::Clearing { clear: state, type_ },
                action,
            },
            StepView::Finish { result: Err(e) } => StepView::fail(e),
            StepView::Finish { result: Ok(_) } => StepView::done(
                ResponseView::Provider { enabled: false, type_ },
            ),
        }
    }

    /// The request starts with admission.
    pub open spec fn start(
        user_id: Seq<char>,
        password: Option<Seq<char>>,
        type_: i32,
    ) -> StepView<DisableTwofactorView, ResponseView> {
        DisableTwofactorView::after_admission(AdmissionView::opening(user_id, password), user_id, type_)
    }

    /// The request after a reply: all records of the kind go, whether or not there are
    /// any.
    pub open spec fn next(self, reply: ReplyView) -> StepView<DisableTwofactorView, ResponseView> {
        match (self, reply) {
            (
                DisableTwofactorView::Admitting { admission, user_id, type_ },
                _,
            ) => DisableTwofactorView::after_admission(admission.next(reply), user_id, type_),
            (
                DisableTwofactorView::Deleting { user_id, type_ },
                ReplyView::Written(true),
            ) => DisableTwofactorView::after_clear(ClearRecoveryView::start(user_id), type_),
            (DisableTwofactorView::Deleting { .. }, ReplyView::Written(false)) => StepView::fail(
                AppErrorView::Database,
            ),
            (
                DisableTwofactorView::Clearing { clear, type_ },
                _,
            ) => DisableTwofactorView::after_clear(clear.next(reply), type_),
            _ => StepView::fail(AppErrorView::Internal),
        }
    }
}

/// `POST /api/two-factor/disable`: disables one kind of second factor.
pub fn disable_twofactor(user_id: String, data: DisableTwoFactorData) -> (step: Step<
    DisableTwofactor,
    Response,
>)
    ensures
        step@ == DisableTwofactorView::start(
            user_id@,
            opt_text(data.master_password_hash),
            data.type_,
        ),
{
    let admission = Admission::opening(user_id.clone(), data.master_password_hash);
    DisableTwofactor::after_admission(admission, user_id, data.type_)
}

/// `PUT /api/two-factor/disable`: the same as `POST`.
pub fn disable_twofactor_put(user_id: String, data: DisableTwoFactorData) -> (step: Step<
    DisableTwofactor,
    Response,
>)
    ensures
        step@ == DisableTwofactorView::start(
            user_id@,
            opt_text(data.master_password_hash),
            data.type_,
        ),
{
    disable_twofactor(user_id, data)
}

impl DisableTwofactor {
    fn after_admission(step: Step<Admission, User>, user_id: String, type_: i32) -> (r: Step<
        DisableTwofactor,
        Response,
    >)
        ensures
            r@ == DisableTwofactorView::after_admission(step@, user_id@, type_),
    {
        match step {
            Step::Perform { state, action } => Step::ask(
                DisableTwofactor::Admitting { admission: state, user_id, type_ },
                action,
            ),
            Step::Finish { result: Err(e) } => Step::fail(e),
            Step::Finish { result: Ok(_) } => {
                let action = Action::DeleteByType { user_id: user_id.clone(), atype: type_ };
                Step::ask(DisableTwofactor::Deleting { user_id, type_ }, action)
            },
        }
    }

    fn after_clear(step: Step<ClearRecovery, ()>, type_: i32) -> (r: Step<
        DisableTwofactor,
        Response,
    >)
        ensures
            r@ == DisableTwofactorView::after_clear(step@, type_),
    {
        match step {
            Step::Perform { state, action } => Step::ask(
                DisableTwofactor::Clearing { clear: state, type_ },
                action,
            ),
            Step::Finish { result: Err(e) } => Step::fail(e),
            Step::Finish { result: Ok(_) } => Step::done(
                Response::Provider { enabled: false, type_ },
            ),
        }
    }

    /// The request after a reply.
    pub fn resume(self, reply: Reply) -> (step: Step<DisableTwofactor, Response>)
        ensures
            step@ == self@.next(reply@),
    {
        match (self, reply) {
            (
                DisableTwofactor::Admitting { admission, user_id, type_ },
                reply,
            ) => DisableTwofactor::after_admission(admission.resume(reply), user_id, type_),
            (
                DisableTwofactor::Deleting { user_id, type_ },
                Reply::Written(true),
            ) => DisableTwofactor::after_clear(clear_recovery_if_no_twofactor(user_id), type_),
            (DisableTwofactor::Deleting { .. }, Reply::Written(false)) => Step::fail(
                AppError::Database,
            ),
            (DisableTwofactor::Clearing { clear, type_ }, reply) => DisableTwofactor::after_clear(
                clear.resume(reply),
                type_,
            ),
            _ => Step::fail(AppError::Internal),
        }
    }
}

/// A request for the recovery code.
#[derive(Debug, PartialEq, Eq)]
pub struct GetRecover {
    pub admission: Admission,
}

/// What a [`GetRecover`] holds.
pub struct GetRecoverView {
    pub admission: AdmissionView,
}

impl View for GetRecover {
    type V = GetRecoverView;

    open spec fn view(&self) -> GetRecoverView {
        GetRecoverView { admission: self.admission@ }
    }
}

impl GetRecoverView {
    /// What follows a step of admission: past it, the answer is the user's code.
    pub open spec fn after_admission(step: StepView<AdmissionView, UserView>) -> StepView<
        GetRecoverView,
        ResponseView,
    > {
        match step {
            StepView::Perform { state, action } => StepView::Perform {
                state: GetRecoverView { admission: state },
                action,
            },
            StepView::Finish { result: Err(e) } => StepView::fail(e),
            StepView::Finish { result: Ok(user) } => StepView::done(
                ResponseView::Recover { code: user.totp_recover },
            ),
        }
    }

    /// The request starts with admission.
    pub open spec fn start(user_id: Seq<char>, password: Option<Seq<char>>) -> StepView<
        GetRecoverView,
        ResponseView,
    > {
        GetRecoverView::after_admission(AdmissionView::opening(user_id, password))
    }

    /// The request after a reply.
    pub open spec fn next(self, reply: ReplyView) -> StepView<GetRecoverView, ResponseView> {
        GetRecoverView::after_admission(self.admission.next(reply))
    }
}

/// `POST /api/two-factor/get-recover`: the recovery code.
pub fn get_recover(user_id: String, data: PasswordOrOtpData) -> (step: Step<GetRecover, Response>)
    ensures
        step@ == GetRecoverView::start(user_id@, opt_text(data.master_password_hash)),
{
    GetRecover::after_admission(Admission::opening(user_id, data.master_password_hash))
}

impl GetRecover {
    fn after_admission(step: Step<Admission, User>) -> (r: Step<GetRecover, Response>)
        ensures
            r@ == GetRecoverView::after_admission(step@),
    {
        match step {
            Step::Perform { state, action } => Step::ask(GetRecover { admission: state }, action),
            Step::Finish { result: Err(e) } => Step::fail(e),
            Step::Finish { result: Ok(user) } => Step::done(
                Response::Recover { code: user.totp_recover },
            ),
        }
    }

    /// The request after a reply.
    pub fn resume(self, reply: Reply) -> (step: Step<GetRecover, Response>)
        ensures
            step@ == self@.next(reply@),
    {
        GetRecover::after_admission(self.admission.resume(reply))
    }
}

} // verus!
