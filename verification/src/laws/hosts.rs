//! There are hosts of the kinds that the other laws speak of.

use vstd::prelude::*;

use crate::error::StoreErrorView;
use crate::fresh::{is_hyphen_place, is_uuid};
use crate::json::Json;
use crate::models::{TwoFactorView, UserView};
use crate::protocol::{ActionView, FetchedView, ReplyView};
use crate::world::{Host, Tables};

verus! {

/// Whether a list holds the records of a set.
spec fn is_list_of(list: Seq<TwoFactorView>, set: Set<TwoFactorView>) -> bool {
    forall|r: TwoFactorView| #[trigger] list.contains(r) <==> set.contains(r)
}

/// A finite set of records can be listed.
proof fn finite_set_has_list(set: Set<TwoFactorView>)
    requires
        set.finite(),
    ensures
        exists|list: Seq<TwoFactorView>| is_list_of(list, set),
    decreases set.len(),
{
    if set.len() == 0 {
        let list = Seq::<TwoFactorView>::empty();
        assert(set =~= Set::empty());
        assert(is_list_of(list, set));
    } else {
        let one = set.choose();
        finite_set_has_list(set.remove(one));
        let rest = choose|list: Seq<TwoFactorView>| is_list_of(list, set.remove(one));
        let list = rest.push(one);
        assert forall|r: TwoFactorView| #[trigger] list.contains(r) <==> set.contains(r) by {
            if list.contains(r) && r != one {
                let i = choose|i: int| 0 <= i < list.len() && list[i] == r;
                assert(rest[i] == r);
                assert(rest.contains(r));
            }
            if set.contains(r) && r != one {
                assert(rest.contains(r));
                let i = choose|i: int| 0 <= i < rest.len() && rest[i] == r;
                assert(list[i] == r);
            }
            assert(list[list.len() - 1] == one);
        }
        assert(is_list_of(list, set));
    }
}

/// Whether a reply is true, and says that all went well where it can; `right` is whether
/// passwords are.
spec fn is_good(tables: Tables, action: ActionView, reply: ReplyView, right: bool) -> bool {
    &&& tables.allows(action, reply)
    &&& reply is Written ==> reply == ReplyView::Written(true)
    &&& match action {
        ActionView::CheckRateLimit { .. } => reply == ReplyView::RateLimit(None),
        ActionView::OpenDatabase => reply == ReplyView::Database(Ok(())),
        ActionView::LoadUser { .. } => reply matches ReplyView::User(Ok(_)),
        ActionView::VerifyPassword { .. } => reply == ReplyView::Password(Ok(right)),
        ActionView::ListTwoFactors { .. } => tables.records.finite() ==> (reply matches
            ReplyView::TwoFactors(Ok(_))),
        ActionView::ListRealTwoFactors { .. } => tables.records.finite() ==> (reply matches
            ReplyView::TwoFactors(Ok(_))),
        ActionView::FindTwoFactor { .. } => reply matches ReplyView::TwoFactor(Ok(_)),
        ActionView::ReadRecoveryCode { .. } => reply matches ReplyView::RecoveryRow(Ok(_)),
        ActionView::GenerateSecret => reply matches ReplyView::Secret(Ok(_)),
        ActionView::GenerateRecoveryCode => reply matches ReplyView::RecoveryCode(Ok(_)),
        _ => true,
    }
}

/// To every action there is such a reply.
proof fn good_reply_exists(tables: Tables, action: ActionView, right: bool)
    ensures
        exists|reply: ReplyView| is_good(tables, action, reply, right),
{
    let reply = match action {
        ActionView::CheckRateLimit { .. } => ReplyView::RateLimit(None),
        ActionView::OpenDatabase => ReplyView::Database(Ok(())),
        ActionView::LoadUser { user_id } => ReplyView::User(
            Ok(
                if tables.users.dom().contains(user_id) {
                    Some(UserView { totp_recover: tables.users[user_id] })
                } else {
                    None
                },
            ),
        ),
        ActionView::VerifyPassword { .. } => ReplyView::Password(Ok(right)),
        ActionView::ListTwoFactors { user_id } => {
            let set = tables.records.filter(|r: TwoFactorView| tables.lists(user_id, r));
            if tables.records.finite() {
                finite_set_has_list(set);
                ReplyView::TwoFactors(
                    Ok(
                        choose|list: Seq<TwoFactorView>| is_list_of(list, set),
                    ),
                )
            } else {
                ReplyView::TwoFactors(Err(StoreErrorView::Query))
            }
        },
        ActionView::ListRealTwoFactors { user_id } => {
            let set = tables.records.filter(|r: TwoFactorView| tables.lists_real(user_id, r));
            if tables.records.finite() {
                finite_set_has_list(set);
                ReplyView::TwoFactors(
                    Ok(
                        choose|list: Seq<TwoFactorView>| is_list_of(list, set),
                    ),
                )
            } else {
                ReplyView::TwoFactors(Err(StoreErrorView::Query))
            }
        },
        ActionView::FindTwoFactor { user_id, atype } => ReplyView::TwoFactor(
            Ok(
                if exists|r: TwoFactorView| #[trigger]
                    tables.records.contains(r) && r.is_of(user_id, atype) {
                    Some(
                        choose|r: TwoFactorView| #[trigger]
                            tables.records.contains(r) && r.is_of(user_id, atype),
                    )
                } else {
                    None
                },
            ),
        ),
        ActionView::ReadRecoveryCode { user_id } => ReplyView::RecoveryRow(
            Ok(
                if tables.users.dom().contains(user_id) {
                    Some(
                        Json::Object(
                            map!["totp_recover"@ => match tables.users[user_id] {
                            Some(code) => Json::Text(code),
                            None => Json::Null,
                        }],
                        ),
                    )
                } else {
                    None
                },
            ),
        ),
        ActionView::GenerateSecret => ReplyView::Secret(Ok(Seq::empty())),
        ActionView::DecodeKey { .. } => ReplyView::Key(Ok(Seq::empty())),
        ActionView::ReadDriftSetting => ReplyView::DriftSetting(true),
        ActionView::ValidateCode { .. } => ReplyView::Code(Ok(0)),
        ActionView::GenerateRecoveryCode => ReplyView::RecoveryCode(Ok(Seq::empty())),
        ActionView::ReadVariable { .. } => ReplyView::Variable(None),
        ActionView::Fetch { .. } => ReplyView::Page(FetchedView::Failed),
        _ => ReplyView::Written(true),
    };
    assert(is_good(tables, action, reply, right));
}

/// A host that replies so.
spec fn good_host(right: bool) -> Host {
    Host {
        reply: |k: nat, tables: Tables, action: ActionView|
            choose|reply: ReplyView| is_good(tables, action, reply, right),
        fresh: |k: nat|
            Seq::new(
                36,
                |i: int|
                    if is_hyphen_place(i) {
                        '-'
                    } else if i == 14 {
                        '4'
                    } else {
                        '8'
                    },
            ),
    }
}

proof fn good_host_is_good(right: bool)
    ensures
        good_host(right).honest(),
        good_host(right).available(),
        good_host(right).readable(),
        good_host(right).writable(),
        right ==> good_host(right).open(),
        !right ==> good_host(right).locked(),
{
    let host = good_host(right);
    assert forall|k: nat, tables: Tables, action: ActionView|
        is_good(tables, action, #[trigger] host.answer(k, tables, action), right) by {
        good_reply_exists(tables, action, right);
    }
    assert forall|k: nat| is_uuid(#[trigger] host.identifier(k)) by {}
}

/// There is a host with which everything works.
pub proof fn some_host_is_willing()
    ensures
        exists|host: Host| host.willing(),
{
    good_host_is_good(true);
    assert(good_host(true).willing());
}

/// There is a host that finds every password wrong, but with which everything else works.
pub proof fn some_host_is_locked()
    ensures
        exists|host: Host| host.honest() && host.available() && #[trigger] host.locked(),
{
    good_host_is_good(false);
    assert(good_host(false).locked());
}

/// A host that finds every password wrong denies each of them.
pub proof fn locked_hosts_deny_all(host: Host, password: Option<Seq<char>>)
    requires
        host.locked(),
    ensures
        host.denies(password),
{
}

} // verus!
