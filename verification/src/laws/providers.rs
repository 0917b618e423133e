//! Second factors of every kind.

use vstd::prelude::*;

use crate::handlers::providers::{
    enabled_records, has_second_factor, is_second_factor, DisableTwofactorView, GetRecoverView,
    GetTwofactorView, ListTwofactors,
};
use crate::handlers::response::ResponseView;
use crate::laws::lists::{enabled_records_keep_their_order, is_picked};
use crate::models::{TwoFactorType, TwoFactorView};
use crate::protocol::{ActionView, ReplyView};
use crate::world::{run, Host, Tables};

verus! {

/// The kinds of records have the numbers of the Bitwarden API.
pub proof fn kinds_have_their_numbers()
    ensures
        TwoFactorType::Authenticator.number() == 0,
        TwoFactorType::YubiKey.number() == 3,
        TwoFactorType::Remember.number() == 5,
{
}

/// A new record is enabled and never used, and has what it was made of.
pub proof fn new_records_are_enabled(
    uuid: Seq<char>,
    user_uuid: Seq<char>,
    kind: TwoFactorType,
    data: Seq<char>,
)
    ensures
        ({
            let record = TwoFactorView::new(uuid, user_uuid, kind, data);
            &&& record.enabled
            &&& record.last_used == 0
            &&& record.uuid == uuid
            &&& record.user_uuid == user_uuid
            &&& record.data == data
            &&& kind == TwoFactorType::Authenticator ==> record.atype == 0
            &&& kind == TwoFactorType::YubiKey ==> record.atype == 3
            &&& kind == TwoFactorType::Remember ==> record.atype == 5
        }),
{
}

/// A user has two-factor authentication exactly if some record of theirs is that of an
/// authenticator app, and enabled. Nothing else counts, and where it stands does not matter.
pub proof fn second_factors_are_enabled_apps(records: Seq<TwoFactorView>)
    ensures
        has_second_factor(records) <==> exists|r: TwoFactorView| #[trigger]
            records.contains(r) && r.enabled && r.atype == 0,
{
    if has_second_factor(records) {
        let i = choose|i: int| 0 <= i < records.len() && is_second_factor(#[trigger] records[i]);
        assert(records.contains(records[i]));
    }
    if exists|r: TwoFactorView| #[trigger] records.contains(r) && r.enabled && r.atype == 0 {
        let r = choose|r: TwoFactorView| #[trigger]
            records.contains(r) && r.enabled && r.atype == 0;
        let i = choose|i: int| 0 <= i < records.len() && records[i] == r;
        assert(is_second_factor(records[i]));
    }
}

/// A remembered device, or any number of them, is no second factor.
pub proof fn remembered_devices_are_no_second_factor(records: Seq<TwoFactorView>)
    requires
        forall|i: int|
            0 <= i < records.len() ==> #[trigger] records[i].atype == 5,
    ensures
        !has_second_factor(records),
{
}

/// Whether a user has a second factor does not depend on the order of their records, nor
/// on records that are no second factor.
pub proof fn second_factor_is_found_anywhere(
    records: Seq<TwoFactorView>,
    others: Seq<TwoFactorView>,
)
    requires
        forall|r: TwoFactorView|
            is_second_factor(r) ==> (#[trigger] records.contains(r) <==> others.contains(r)),
    ensures
        has_second_factor(records) == has_second_factor(others),
{
    if has_second_factor(records) {
        let i = choose|i: int| 0 <= i < records.len() && is_second_factor(#[trigger] records[i]);
        assert(records.contains(records[i]));
        let j = choose|j: int| 0 <= j < others.len() && others[j] == records[i];
        assert(is_second_factor(others[j]));
    }
    if has_second_factor(others) {
        let i = choose|i: int| 0 <= i < others.len() && is_second_factor(#[trigger] others[i]);
        assert(others.contains(others[i]));
        assert(records.contains(others[i]));
        let j = choose|j: int| 0 <= j < records.len() && records[j] == others[i];
        assert(is_second_factor(records[j]));
    }
}

/// Of a list of records, the enabled ones are kept, and no others.
pub proof fn enabled_records_are_those_enabled(records: Seq<TwoFactorView>)
    ensures
        forall|r: TwoFactorView| #[trigger]
            enabled_records(records).contains(r) <==> records.contains(r) && r.enabled,
    decreases records.len(),
{
    reveal(Seq::filter);
    if records.len() > 0 {
        let before = records.drop_last();
        let last = records.last();
        enabled_records_are_those_enabled(before);
        assert forall|r: TwoFactorView| #[trigger]
            enabled_records(records).contains(r) <==> records.contains(r) && r.enabled by {
            let kept = enabled_records(before);
            if records.contains(r) && r != last {
                let i = choose|i: int| 0 <= i < records.len() && records[i] == r;
                assert(before[i] == r);
            }
            if before.contains(r) {
                let i = choose|i: int| 0 <= i < before.len() && before[i] == r;
                assert(records[i] == r);
            }
            assert(records[records.len() - 1] == last);
            if last.enabled {
                let more = kept.push(last);
                assert(enabled_records(records) == more);
                assert(more[kept.len() as int] == last);
                if kept.contains(r) {
                    let i = choose|i: int| 0 <= i < kept.len() && kept[i] == r;
                    assert(more[i] == r);
                }
                if more.contains(r) && r != last {
                    let i = choose|i: int| 0 <= i < more.len() && more[i] == r;
                    assert(kept[i] == r);
                }
            }
        }
    }
}

/// A read of the user's records gives all of them but the server's own, enabled or not, as
/// the database gave them, and changes nothing. Where everything works, they are given.
pub proof fn list_user_twofactors_reads_the_records(
    limit: nat,
    k: nat,
    user_id: Seq<char>,
    tables: Tables,
    host: Host,
)
    requires
        host.honest(),
    ensures
        limit >= 1 && host.willing() && tables.records.finite() ==> (run(
            limit,
            k,
            ListTwofactors::start(user_id),
            tables,
            host,
        ) matches Some(end) && end.result is Ok),
        limit >= 1 ==> run(limit, k, ListTwofactors::start(user_id), tables, host) is Some,
        run(limit, k, ListTwofactors::start(user_id), tables, host) matches Some(end) ==> {
            &&& end.tables == tables
            &&& end.result matches Ok(list) ==> {
                &&& host.answer(k, tables, ActionView::ListTwoFactors { user_id })
                    == ReplyView::TwoFactors(Ok(list))
                &&& forall|r: TwoFactorView| #[trigger]
                    list.contains(r) <==> tables.lists(user_id, r)
            }
        },
{
    reveal_with_fuel(run, 2);
}

/// The list of second factors holds the user's enabled records but the server's own, in the
/// order in which the database gave them, and reading it changes nothing. Where everything works, the list is given.
pub proof fn get_twofactor_lists_the_records(
    limit: nat,
    user_id: Seq<char>,
    tables: Tables,
    host: Host,
)
    requires
        host.honest(),
    ensures
        limit >= 2 && host.willing() && tables.records.finite() ==> (run(
            limit,
            0,
            GetTwofactorView::start(user_id),
            tables,
            host,
        ) matches Some(end) && end.result is Ok),
        limit >= 2 ==> run(limit, 0, GetTwofactorView::start(user_id), tables, host) is Some,
        run(limit, 0, GetTwofactorView::start(user_id), tables, host) matches Some(end) ==> {
            &&& end.tables == tables
            &&& end.result matches Ok(list) ==> {
                &&& forall|r: TwoFactorView| #[trigger]
                    list.contains(r) <==> tables.lists(user_id, r) && r.enabled
                &&& host.answer(1, tables, ActionView::ListTwoFactors { user_id }) matches
                    ReplyView::TwoFactors(Ok(records))
                &&& is_picked(
                    records,
                    |r: TwoFactorView|
                        if r.enabled {
                            Some(r)
                        } else {
                            None
                        },
                    list,
                )
            }
        },
{
    reveal_with_fuel(run, 3);
    if let ReplyView::TwoFactors(Ok(records)) = host.answer(
        1,
        tables,
        ActionView::ListTwoFactors { user_id },
    ) {
        enabled_records_are_those_enabled(records);
        enabled_records_keep_their_order(records);
    }
}

/// A request for the recovery code changes nothing, and is answered with the user's
/// code. Where everything works, it is answered.
pub proof fn get_recover_reads_the_code(
    limit: nat,
    user_id: Seq<char>,
    password: Option<Seq<char>>,
    tables: Tables,
    host: Host,
)
    requires
        host.honest(),
    ensures
        limit >= 3 && host.willing() && tables.users.dom().contains(user_id) && password is Some ==> (run(
            limit,
            0,
            GetRecoverView::start(user_id, password),
            tables,
            host,
        ) matches Some(end) && end.result is Ok),
        limit >= 3 ==> run(limit, 0, GetRecoverView::start(user_id, password), tables, host)
            is Some,
        run(limit, 0, GetRecoverView::start(user_id, password), tables, host) matches Some(end)
            ==> {
            &&& end.tables == tables
            &&& end.result matches Ok(answer) ==> tables.users.dom().contains(user_id) && answer == (
            ResponseView::Recover { code: tables.users[user_id] })
        },
{
    reveal_with_fuel(run, 4);
}

/// A true list of real second factors is empty exactly if there is none.
pub proof fn listed_real(tables: Tables, user_id: Seq<char>, reply: ReplyView)
    requires
        tables.allows(ActionView::ListRealTwoFactors { user_id }, reply),
    ensures
        reply matches ReplyView::TwoFactors(Ok(list)) ==> (list.len() == 0 <==> tables.no_real(
            user_id,
        )),
{
    if let ReplyView::TwoFactors(Ok(list)) = reply {
        if list.len() > 0 {
            assert(list.contains(list[0]));
        }
        assert forall|r: TwoFactorView| list.len() == 0 implies !#[trigger] tables.lists_real(
            user_id,
            r,
        ) by {
            assert(!list.contains(r));
        }
    }
}

/// Disabling one kind of second factor takes all of the user's records of that kind and
/// no other record; and it takes the recovery code where, and only where, no real second
/// factor is left. Where everything works, it is done.
pub proof fn disable_twofactor_takes_the_kind(
    limit: nat,
    user_id: Seq<char>,
    password: Option<Seq<char>>,
    type_: i32,
    tables: Tables,
    host: Host,
)
    requires
        host.honest(),
    ensures
        limit >= 6 && host.willing() && tables.users.dom().contains(user_id) && password is Some && tables.records.finite() ==> (run(
            limit,
            0,
            DisableTwofactorView::start(user_id, password, type_),
            tables,
            host,
        ) matches Some(end) && end.result is Ok),
        limit >= 6 ==> run(
            limit,
            0,
            DisableTwofactorView::start(user_id, password, type_),
            tables,
            host,
        ) is Some,
        run(limit, 0, DisableTwofactorView::start(user_id, password, type_), tables, host) matches
            Some(end) ==> {
            &&& end.result matches Ok(answer) ==> {
                &&& answer == (ResponseView::Provider { enabled: false, type_ })
                &&& end.tables.records == tables.without_type(user_id, type_)
                &&& end.tables.users == (Tables {
                    records: tables.without_type(user_id, type_),
                    ..tables
                }).cleared_users(user_id)
            }
            &&& end.result is Err ==> end.tables.users == tables.users && (end.tables.records
                == tables.records || end.tables.records == tables.without_type(user_id, type_))
            &&& end.tables.same_for_others(tables, user_id)
            &&& tables.all_enabled() ==> end.tables.all_enabled()
        },
{
    reveal_with_fuel(run, 7);
    let left = tables.written(ActionView::DeleteByType { user_id, atype: type_ });
    listed_real(left, user_id, host.answer(4, left, ActionView::ListRealTwoFactors { user_id }));
}

/// Once the user's authenticator apps are disabled, the user has no two-factor
/// authentication any more.
pub proof fn disabling_apps_disables_two_factor(
    before: Tables,
    after: Tables,
    user_id: Seq<char>,
    list: Seq<TwoFactorView>,
)
    requires
        after.records == before.without_type(user_id, 0),
        forall|r: TwoFactorView| #[trigger] list.contains(r) <==> after.lists(user_id, r),
    ensures
        !has_second_factor(list),
{
    assert forall|i: int| 0 <= i < list.len() implies !is_second_factor(#[trigger] list[i]) by {
        assert(list.contains(list[i]));
        assert(after.lists(user_id, list[i]));
    }
}

} // verus!
