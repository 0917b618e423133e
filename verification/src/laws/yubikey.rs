//! YubiKeys.

use vstd::prelude::*;

use crate::error::AppErrorView;
use crate::fresh::{is_hex, is_uuid, uuid_digits, without_hyphens};
use crate::handlers::providers::DisableTwofactorView;
use crate::handlers::response::ResponseView;
use crate::handlers::yubikey::{
    bind, provided, slots, stored_devices, yubikey_record, ActivateYubikeyView, GetYubikeyView,
};
use crate::json::{
    all_plain, is_json_strings, json_strings, json_strings_round_trip, other_json_strings,
};
use crate::laws::lists::{is_picked, picked_of_none, picked_of_one_more, picks};
use crate::laws::providers::disable_twofactor_takes_the_kind;
use crate::laws::strings::occurring_is_standing_between;
use crate::models::{EnableYubikeyData, TwoFactorView};
use crate::protocol::{ActionView, FetchedView, ReplyView, StepView};
use crate::text::{
    all_modhex, byte_len, is_modhex, modhex_is_ascii, modhex_letters, occurs, opt_text, trimmed,
};
use crate::world::{run, Host, Outcome, Tables};
use crate::yubico::{
    all_device_ids, device_ids_are_plain, is_device_id, is_otp, otp_format, verdict,
    VerifyOtpView,
};

verus! {

/// The number of YubiKeys.
pub open spec fn yubi() -> i32 {
    3
}

/// The web address that asks Yubico about a one-time password.
pub open spec fn question(client_id: Seq<char>, otp: Seq<char>, nonce: Seq<char>) -> Seq<char> {
    "https://api.yubico.com/wsapi/2.0/verify?id="@ + client_id + "&otp="@ + otp + "&nonce="@ + nonce
}

/// Whether what came back from Yubico vouches for a one-time password: it is a page, and in
/// it stand the good status, the password and the nonce of the question.
pub open spec fn vouches(page: FetchedView, otp: Seq<char>, nonce: Seq<char>) -> bool {
    page matches FetchedView::Body(Some(body)) && occurs("status=OK"@, body) && occurs(
        "otp="@ + otp,
        body,
    ) && occurs("nonce="@ + nonce, body)
}

/// What is answered where what came back from Yubico does not vouch for the password.
pub open spec fn doubt(page: FetchedView) -> AppErrorView {
    match page {
        FetchedView::Unsendable => AppErrorView::Internal,
        FetchedView::Failed => AppErrorView::BadRequest(
            "Yubico verification network timeout or exception"@,
        ),
        FetchedView::Body(_) => AppErrorView::BadRequest(
            "Yubico verification failed (Invalid OTP or abnormal response)"@,
        ),
    }
}

/// What comes back from Yubico confirms a one-time password exactly if it vouches for it: the
/// status is good, and password and nonce are there. Then the device is the first twelve
/// characters of the password; otherwise it is said what went wrong.
pub proof fn only_vouching_pages_confirm(page: FetchedView, otp: Seq<char>, nonce: Seq<char>)
    ensures
        verdict(page, otp, nonce) == if vouches(page, otp, nonce) {
            Ok(otp.take(12))
        } else {
            Err(doubt(page))
        },
{
    if page == FetchedView::Body(None) {
        reveal_strlit("status=OK");
        assert("status=OK"@.len() == 9);
        assert(!occurs("status=OK"@, Seq::empty()));
    }
}

/// A page in which the text `status=OK` stands nowhere confirms no one-time password,
/// whatever else it holds; nor does one without the password, or without the nonce.
pub proof fn without_good_status_nothing_is_confirmed(
    body: Seq<char>,
    otp: Seq<char>,
    nonce: Seq<char>,
)
    ensures
        (forall|before: Seq<char>, after: Seq<char>|
            body != #[trigger] (before + "status=OK"@ + after)) ==> verdict(
            FetchedView::Body(Some(body)),
            otp,
            nonce,
        ) is Err,
        (forall|before: Seq<char>, after: Seq<char>|
            body != #[trigger] (before + ("otp="@ + otp) + after)) ==> verdict(
            FetchedView::Body(Some(body)),
            otp,
            nonce,
        ) is Err,
        (forall|before: Seq<char>, after: Seq<char>|
            body != #[trigger] (before + ("nonce="@ + nonce) + after)) ==> verdict(
            FetchedView::Body(Some(body)),
            otp,
            nonce,
        ) is Err,
{
    only_vouching_pages_confirm(FetchedView::Body(Some(body)), otp, nonce);
    occurring_is_standing_between("status=OK"@, body);
    occurring_is_standing_between("otp="@ + otp, body);
    occurring_is_standing_between("nonce="@ + nonce, body);
}

/// One of the sixteen letters of YubiKeys.
pub open spec fn is_yubikey_letter(c: char) -> bool {
    c == 'c' || c == 'b' || c == 'd' || c == 'e' || c == 'f' || c == 'g' || c == 'h' || c == 'i'
        || c == 'j' || c == 'k' || c == 'l' || c == 'n' || c == 'r' || c == 't' || c == 'u' || c
        == 'v'
}

/// Identifiers of devices are twelve of the sixteen letters of YubiKeys, and one-time
/// passwords are forty-four of them.
pub proof fn keys_are_made_of_letters(s: Seq<char>)
    ensures
        is_device_id(s) <==> s.len() == 12 && forall|i: int|
            0 <= i < s.len() ==> is_yubikey_letter(#[trigger] s[i]),
        is_otp(s) <==> s.len() == 44 && forall|i: int|
            0 <= i < s.len() ==> is_yubikey_letter(#[trigger] s[i]),
{
    assert forall|i: int| 0 <= i < s.len() implies is_modhex(#[trigger] s[i])
        == is_yubikey_letter(s[i]) by {
        modhex_letters(s[i]);
    }
}

/// Whether the host, with the identifier under which Yubico knows it, got an answer of Yubico
/// that vouches for a one-time password, to a question with a nonce of its own.
pub open spec fn is_vouched(host: Host, tables: Tables, otp: Seq<char>) -> bool {
    exists|k: nat, client_id: Seq<char>|
        #![trigger host.answer(
            k + 1,
            tables,
            ActionView::Fetch {
                url: question(client_id, otp, without_hyphens(host.identifier(k))),
            },
        )]
        {
            let nonce = without_hyphens(host.identifier(k));
            &&& host.answer(k, tables, ActionView::ReadVariable { name: "YUBICO_CLIENT_ID"@ })
                == ReplyView::Variable(Some(client_id))
            &&& host.answer(
                k + 1,
                tables,
                ActionView::Fetch { url: question(client_id, otp, nonce) },
            ) matches ReplyView::Page(page)
            &&& vouches(page, otp, nonce)
        }
}

/// Whether a key can be bound: it is the identifier of a device, or a one-time password
/// that Yubico confirmed.
pub open spec fn is_good(host: Host, tables: Tables, item: Seq<char>) -> bool {
    is_device_id(item) || (is_otp(item) && is_vouched(host, tables, item))
}

/// Whether all keys can be bound.
pub open spec fn all_good(host: Host, tables: Tables, items: Seq<Seq<char>>) -> bool {
    forall|i: int| 0 <= i < items.len() ==> is_good(host, tables, #[trigger] items[i])
}

/// The device of a key: the key itself, or the first twelve characters of a one-time
/// password.
pub open spec fn device_of(item: Seq<char>) -> Seq<char> {
    if is_device_id(item) {
        item
    } else {
        item.take(12)
    }
}

/// The devices of all keys after `devices`, in their order, each in its first place.
pub open spec fn bind_all(devices: Seq<Seq<char>>, items: Seq<Seq<char>>) -> Seq<Seq<char>>
    decreases items.len(),
{
    if items.len() == 0 {
        devices
    } else {
        bind_all(bind(devices, device_of(items[0])), items.drop_first())
    }
}

/// The devices of all keys.
pub open spec fn devices_of(items: Seq<Seq<char>>) -> Seq<Seq<char>> {
    bind_all(Seq::empty(), items)
}

/// Whether `after` has the record of those devices in the place of all records of YubiKeys
/// that the user had.
pub open spec fn keys_replaced(
    before: Tables,
    after: Tables,
    user_id: Seq<char>,
    devices: Seq<Seq<char>>,
    uuid: Seq<char>,
) -> bool {
    &&& is_uuid(uuid)
    &&& after.records == before.without_type(user_id, yubi()).insert(
        TwoFactorView {
            uuid,
            user_uuid: user_id,
            atype: 3,
            enabled: true,
            data: json_strings(devices),
            last_used: 0,
        },
    )
}

/// Binding a device keeps a list of distinct device identifiers one, and makes it longer
/// by one at most.
proof fn bind_keeps(devices: Seq<Seq<char>>, id: Seq<char>)
    requires
        all_device_ids(devices),
        devices.no_duplicates(),
        is_device_id(id),
    ensures
        all_device_ids(bind(devices, id)),
        bind(devices, id).no_duplicates(),
        devices.len() <= bind(devices, id).len() <= devices.len() + 1,
        bind(devices, id).contains(id),
        forall|d: Seq<char>| devices.contains(d) ==> bind(devices, id).contains(d),
        forall|d: Seq<char>|
            bind(devices, id).contains(d) ==> devices.contains(d) || d == id,
{
    if !devices.contains(id) {
        let more = devices.push(id);
        assert(more[devices.len() as int] == id);
        assert forall|d: Seq<char>| devices.contains(d) implies more.contains(d) by {
            let i = choose|i: int| 0 <= i < devices.len() && devices[i] == d;
            assert(more[i] == d);
        }
        assert forall|d: Seq<char>| more.contains(d) implies devices.contains(d) || d == id by {
            let i = choose|i: int| 0 <= i < more.len() && more[i] == d;
            if i < devices.len() {
                assert(devices[i] == d);
            }
        }
        assert forall|i: int, j: int|
            0 <= i < more.len() && 0 <= j < more.len() && i != j implies more[i] != more[j] by {
            if i == devices.len() {
                assert(devices.contains(devices[j]));
            } else if j == devices.len() {
                assert(devices.contains(devices[i]));
            }
        }
    }
}

/// The identifier in a one-time password is one.
proof fn otp_device_is_device_id(otp: Seq<char>)
    requires
        is_otp(otp),
    ensures
        is_device_id(otp.take(12)),
        device_of(otp) == otp.take(12),
{
    let id = otp.take(12);
    assert forall|i: int| 0 <= i < id.len() implies is_modhex(#[trigger] id[i]) by {
        assert(id[i] == otp[i]);
    }
}

/// Binding the devices of good keys after distinct device identifiers gives distinct
/// device identifiers, one more for each key at most.
proof fn bind_all_keeps(
    host: Host,
    tables: Tables,
    devices: Seq<Seq<char>>,
    items: Seq<Seq<char>>,
)
    requires
        all_good(host, tables, items),
        all_device_ids(devices),
        devices.no_duplicates(),
    ensures
        all_device_ids(bind_all(devices, items)),
        bind_all(devices, items).no_duplicates(),
        devices.len() <= bind_all(devices, items).len() <= devices.len() + items.len(),
    decreases items.len(),
{
    if items.len() > 0 {
        let item = items[0];
        assert(is_good(host, tables, item));
        if is_otp(item) {
            otp_device_is_device_id(item);
        }
        bind_keeps(devices, device_of(item));
        let rest = items.drop_first();
        assert forall|i: int| 0 <= i < rest.len() implies is_good(
            host,
            tables,
            #[trigger] rest[i],
        ) by {
            assert(rest[i] == items[i + 1]);
        }
        bind_all_keeps(host, tables, bind(devices, device_of(item)), rest);
    }
}

/// What is true of the end of a request that had to bind `items` and then to store
/// `devices`.
pub open spec fn ends_right(
    host: Host,
    before: Tables,
    user_id: Seq<char>,
    items: Seq<Seq<char>>,
    devices: Seq<Seq<char>>,
    end: Outcome<ResponseView>,
) -> bool {
    &&& end.result matches Ok(answer) ==> {
        &&& all_good(host, before, items)
        &&& answer == (ResponseView::YubiKey { enabled: true, keys: devices })
        &&& exists|uuid: Seq<char>| #[trigger]
            keys_replaced(before, end.tables, user_id, devices, uuid) && host.has_drawn(uuid)
        &&& before.code_given(end.tables, user_id, host)
    }
    &&& end.result is Err ==> {
        &&& end.tables.users == before.users
        &&& end.tables == before || (all_good(host, before, items) && exists|uuid: Seq<char>|
            #[trigger] keys_replaced(before, end.tables, user_id, devices, uuid)
            && host.has_drawn(uuid))
    }
    &&& end.tables.same_for_others(before, user_id)
    &&& before.all_enabled() ==> end.tables.all_enabled()
}

/// The end of a request that has all devices and goes on to store them.
proof fn store_ends_right(
    limit: nat,
    k: nat,
    user_id: Seq<char>,
    devices: Seq<Seq<char>>,
    fresh: Seq<char>,
    tables: Tables,
    host: Host,
)
    requires
        host.honest(),
        is_uuid(fresh),
        devices.len() <= 5,
        host.has_drawn(fresh),
    ensures
        ({
            let step = ActivateYubikeyView::advance(user_id, devices, Seq::empty(), fresh);
            &&& limit >= 4 ==> run(limit, k, step, tables, host) is Some
            &&& run(limit, k, step, tables, host) matches Some(end) ==> ends_right(
                host,
                tables,
                user_id,
                Seq::empty(),
                devices,
                end,
            )
            &&& limit >= 4 && host.willing() && tables.records.finite()
                && tables.users.dom().contains(user_id) ==> (run(
                limit,
                k,
                step,
                tables,
                host,
            ) matches Some(end) && end.result is Ok)
        }),
{
    reveal_with_fuel(run, 5);
    let step = ActivateYubikeyView::advance(user_id, devices, Seq::empty(), fresh);
    let record = yubikey_record(fresh, user_id, devices);
    let replaced = tables.written(
        ActionView::ReplaceByType { user_id, atype: yubi(), record },
    );
    assert(keys_replaced(tables, replaced, user_id, devices, fresh));
    if let Some(end) = run(limit, k, step, tables, host) {
        if end.tables != tables {
            assert(keys_replaced(tables, end.tables, user_id, devices, fresh));
        }
    }
}

/// Whether the host can ask Yubico, and Yubico confirms that one-time password whenever
/// it is asked.
pub open spec fn is_sure(host: Host, tables: Tables, otp: Seq<char>) -> bool {
    &&& forall|k: nat|
        (#[trigger] host.answer(
            k,
            tables,
            ActionView::ReadVariable { name: "YUBICO_CLIENT_ID"@ },
        ) matches ReplyView::Variable(Some(_)))
    &&& forall|k: nat, client_id: Seq<char>, fresh: Seq<char>|
        is_uuid(fresh) ==> (#[trigger] host.answer(
            k,
            tables,
            ActionView::Fetch {
                url: question(client_id, otp, without_hyphens(fresh)),
            },
        ) matches ReplyView::Page(page) && vouches(page, otp, without_hyphens(fresh)))
}

/// Whether all keys are sure to be bound.
pub open spec fn all_sure(host: Host, tables: Tables, items: Seq<Seq<char>>) -> bool {
    forall|i: int|
        0 <= i < items.len() ==> is_device_id(#[trigger] items[i]) || (is_otp(items[i])
            && is_sure(host, tables, items[i]))
}

/// Why a key is neither the identifier of a device nor a one-time password, if it is neither.
pub open spec fn key_format_error(item: Seq<char>) -> Option<AppErrorView> {
    if byte_len(item) == 12 {
        if all_modhex(item) {
            None
        } else {
            Some(AppErrorView::BadRequest("Contains invalid YubiKey device ID."@))
        }
    } else if byte_len(item) == 44 {
        if all_modhex(item) {
            None
        } else {
            Some(AppErrorView::BadRequest("YubiKey OTP contains invalid characters"@))
        }
    } else {
        Some(
            AppErrorView::BadRequest(
                "Invalid YubiKey format, expected 12-char ID or 44-char OTP."@,
            ),
        )
    }
}

/// Whether the host can not ask Yubico for want of an identifier, whenever it would.
pub open spec fn is_unconfigured(host: Host, tables: Tables) -> bool {
    forall|k: nat|
        #[trigger] host.answer(
            k,
            tables,
            ActionView::ReadVariable { name: "YUBICO_CLIENT_ID"@ },
        ) == ReplyView::Variable(None)
}

/// Whether the host can ask Yubico, and what comes back of that one-time password comes to
/// `error` whenever it is asked about.
pub open spec fn is_doubted(
    host: Host,
    tables: Tables,
    otp: Seq<char>,
    error: AppErrorView,
) -> bool {
    &&& forall|k: nat|
        (#[trigger] host.answer(
            k,
            tables,
            ActionView::ReadVariable { name: "YUBICO_CLIENT_ID"@ },
        ) matches ReplyView::Variable(Some(_)))
    &&& forall|k: nat, client_id: Seq<char>, fresh: Seq<char>|
        is_uuid(fresh) ==> (#[trigger] host.answer(
            k,
            tables,
            ActionView::Fetch {
                url: question(client_id, otp, without_hyphens(fresh)),
            },
        ) matches ReplyView::Page(page) && !vouches(page, otp, without_hyphens(fresh)) && doubt(
            page,
        ) == error)
}

/// Whether a key is sure to be refused with `error`: it is malformed, or it is a one-time
/// password that can not be asked about or that Yubico does not confirm.
pub open spec fn is_refused(
    host: Host,
    tables: Tables,
    item: Seq<char>,
    error: AppErrorView,
) -> bool {
    ||| key_format_error(item) == Some(error)
    ||| is_otp(item) && is_doubted(host, tables, item, error)
    ||| is_otp(item) && is_unconfigured(host, tables) && error == AppErrorView::BadRequest(
        "Administrator has not configured this feature"@,
    )
}

/// Whether the key at place `i` is sure to be refused with `error`, and all keys before it
/// are sure to be bound.
pub open spec fn first_refused(
    host: Host,
    tables: Tables,
    items: Seq<Seq<char>>,
    i: int,
    error: AppErrorView,
) -> bool {
    &&& 0 <= i < items.len()
    &&& all_sure(host, tables, items.take(i))
    &&& is_refused(host, tables, items[i], error)
}

/// A request that still has to bind `items`, one of which is refused, ends with the refusal
/// and leaves the database as it was.
proof fn advance_refuses(
    limit: nat,
    k: nat,
    user_id: Seq<char>,
    devices: Seq<Seq<char>>,
    items: Seq<Seq<char>>,
    i: int,
    error: AppErrorView,
    fresh: Seq<char>,
    tables: Tables,
    host: Host,
)
    requires
        host.honest(),
        first_refused(host, tables, items, i, error),
        limit >= 2 * (i + 1),
    ensures
        run(
            limit,
            k,
            ActivateYubikeyView::advance(user_id, devices, items, fresh),
            tables,
            host,
        ) == Some(Outcome::<ResponseView> { result: Err(error), tables }),
    decreases items.len(),
{
    let step = ActivateYubikeyView::advance(user_id, devices, items, fresh);
    let item = items[0];
    let rest = items.drop_first();
    reveal_with_fuel(run, 3);
    otp_format(item);
    if all_modhex(item) {
        modhex_is_ascii(item);
    }
    if i > 0 {
        let head = items.take(i);
        assert(head[0] == item);
        assert(is_device_id(item) || (is_otp(item) && is_sure(host, tables, item)));
        let fewer = rest.take(i - 1);
        assert forall|j: int| 0 <= j < fewer.len() implies is_device_id(#[trigger] fewer[j]) || (
        is_otp(fewer[j]) && is_sure(host, tables, fewer[j])) by {
            assert(fewer[j] == head[j + 1]);
        }
        assert(rest[i - 1] == items[i]);
        assert(first_refused(host, tables, rest, i - 1, error));
        if is_device_id(item) {
            advance_refuses(
                limit,
                k,
                user_id,
                bind(devices, item),
                rest,
                i - 1,
                error,
                fresh,
                tables,
                host,
            );
        } else {
            let asked = host.answer(
                k,
                tables,
                ActionView::ReadVariable { name: "YUBICO_CLIENT_ID"@ },
            );
            let client_id = asked->Variable_0->Some_0;
            let nonce = without_hyphens(host.identifier(k));
            let page = host.answer(
                k + 1,
                tables,
                ActionView::Fetch { url: question(client_id, item, nonce) },
            );
            assert(is_uuid(host.identifier(k)));
            only_vouching_pages_confirm(page->Page_0, item, nonce);
            assert(verdict(page->Page_0, item, nonce) is Ok);
            let id = item.take(12);
            advance_refuses(
                (limit - 2) as nat,
                k + 2,
                user_id,
                bind(devices, id),
                rest,
                i - 1,
                error,
                host.identifier(k + 1),
                tables,
                host,
            );
            assert(run(limit, k, step, tables, host) == run(
                (limit - 2) as nat,
                k + 2,
                ActivateYubikeyView::advance(
                    user_id,
                    bind(devices, id),
                    rest,
                    host.identifier(k + 1),
                ),
                tables,
                host,
            ));
        }
    } else if is_otp(item) {
        assert(is_uuid(host.identifier(k)));
        let asked = host.answer(
            k,
            tables,
            ActionView::ReadVariable { name: "YUBICO_CLIENT_ID"@ },
        );
        if let ReplyView::Variable(Some(client_id)) = asked {
            let nonce = without_hyphens(host.identifier(k));
            let page = host.answer(
                k + 1,
                tables,
                ActionView::Fetch { url: question(client_id, item, nonce) },
            );
            only_vouching_pages_confirm(page->Page_0, item, nonce);
            assert(verdict(page->Page_0, item, nonce) == Err::<Seq<char>, AppErrorView>(error));
        }
    }
}

/// The end of a request that has `devices` and still has to bind `items`.
proof fn advance_ends_right(
    limit: nat,
    k: nat,
    user_id: Seq<char>,
    devices: Seq<Seq<char>>,
    items: Seq<Seq<char>>,
    fresh: Seq<char>,
    tables: Tables,
    host: Host,
)
    requires
        host.honest(),
        is_uuid(fresh),
        host.has_drawn(fresh),
        all_device_ids(devices),
        devices.no_duplicates(),
        devices.len() + items.len() <= 5,
    ensures
        ({
            let step = ActivateYubikeyView::advance(user_id, devices, items, fresh);
            &&& limit >= 2 * items.len() + 4 ==> run(limit, k, step, tables, host) is Some
            &&& run(limit, k, step, tables, host) matches Some(end) ==> ends_right(
                host,
                tables,
                user_id,
                items,
                bind_all(devices, items),
                end,
            )
            &&& limit >= 2 * items.len() + 4 && host.willing() && tables.records.finite()
                && tables.users.dom().contains(user_id) && all_sure(host, tables, items) ==> (run(
                limit,
                k,
                step,
                tables,
                host,
            ) matches Some(end) && end.result is Ok)
        }),
    decreases items.len(),
{
    let step = ActivateYubikeyView::advance(user_id, devices, items, fresh);
    if items.len() == 0 {
        assert(items =~= Seq::empty());
        store_ends_right(limit, k, user_id, devices, fresh, tables, host);
    } else {
        let item = items[0];
        let rest = items.drop_first();
        assert(all_good(host, tables, items) <==> is_good(host, tables, item) && all_good(
            host,
            tables,
            rest,
        )) by {
            assert forall|i: int| 0 <= i < rest.len() implies #[trigger] rest[i] == items[i + 1] by {}
            if is_good(host, tables, item) && all_good(host, tables, rest) {
                assert forall|i: int| 0 <= i < items.len() implies is_good(
                    host,
                    tables,
                    #[trigger] items[i],
                ) by {
                    if i > 0 {
                        assert(rest[i - 1] == items[i]);
                    }
                }
            }
        }
        assert(all_sure(host, tables, items) ==> all_sure(host, tables, rest)) by {
            assert forall|i: int| 0 <= i < rest.len() implies #[trigger] rest[i] == items[i + 1] by {}
        }
        if all_modhex(item) {
            modhex_is_ascii(item);
        }
        if byte_len(item) == 12 && all_modhex(item) {
            assert(is_device_id(item));
            bind_keeps(devices, item);
            advance_ends_right(
                limit,
                k,
                user_id,
                bind(devices, item),
                rest,
                fresh,
                tables,
                host,
            );
        } else if byte_len(item) == 44 && all_modhex(item) {
            otp_format(item);
            otp_device_is_device_id(item);
            let id = item.take(12);
            bind_keeps(devices, id);
            reveal_with_fuel(run, 3);
            let asked = host.answer(
                k,
                tables,
                ActionView::ReadVariable { name: "YUBICO_CLIENT_ID"@ },
            );
            if let ReplyView::Variable(Some(client_id)) = asked {
                let nonce = without_hyphens(host.identifier(k));
                let page = host.answer(
                    k + 1,
                    tables,
                    ActionView::Fetch { url: question(client_id, item, nonce) },
                );
                assert(page is Page);
                only_vouching_pages_confirm(page->Page_0, item, nonce);
                if verdict(page->Page_0, item, nonce) is Ok {
                    assert(is_vouched(host, tables, item));
                    if limit >= 2 {
                        assert(host.has_drawn(host.identifier(k + 1)));
                        advance_ends_right(
                            (limit - 2) as nat,
                            k + 2,
                            user_id,
                            bind(devices, id),
                            rest,
                            host.identifier(k + 1),
                            tables,
                            host,
                        );
                        assert(run(limit, k, step, tables, host) == run(
                            (limit - 2) as nat,
                            k + 2,
                            ActivateYubikeyView::advance(
                                user_id,
                                bind(devices, id),
                                rest,
                                host.identifier(k + 1),
                            ),
                            tables,
                            host,
                        ));
                    }
                }
            }
        } else {
            otp_format(item);
            assert(!is_good(host, tables, item));
            reveal_with_fuel(run, 2);
        }
    }
}

/// What a slot of a request holds: its text without white space around it, if anything is
/// left then.
pub open spec fn filled(slot: Option<Seq<char>>) -> Option<Seq<char>> {
    match slot {
        Some(text) => if trimmed(text).len() > 0 {
            Some(trimmed(text))
        } else {
            None
        },
        None => None,
    }
}

/// The keys that a request sends are what its slots hold: one for each slot that is neither
/// absent nor blank, in the order of the slots, whatever the other slots hold.
pub proof fn provided_are_the_filled_slots(slots: Seq<Option<Seq<char>>>)
    ensures
        is_picked(slots, |slot: Option<Seq<char>>| filled(slot), provided(slots)),
        forall|i: int|
            0 <= i < slots.len() && (filled(#[trigger] slots[i]) is Some) ==> provided(
                slots,
            ).contains(filled(slots[i])->Some_0),
    decreases slots.len(),
{
    let pick = |slot: Option<Seq<char>>| filled(slot);
    if slots.len() == 0 {
        picked_of_none::<Option<Seq<char>>, Seq<char>>(pick);
        assert(slots =~= Seq::empty());
    } else {
        let before = slots.drop_last();
        provided_are_the_filled_slots(before);
        picked_of_one_more(before, pick, provided(before), slots.last());
        assert(before.push(slots.last()) =~= slots);
    }
    let places = choose|places: Seq<int>| picks(places, slots, pick, provided(slots));
    assert forall|i: int|
        0 <= i < slots.len() && (filled(#[trigger] slots[i]) is Some) implies provided(
        slots,
    ).contains(filled(slots[i])->Some_0) by {
        assert(pick(slots[i]) is Some);
        let a = choose|a: int| 0 <= a < places.len() && places[a] == i;
        assert(pick(slots[places[a]]) == Some(provided(slots)[a]));
    }
}

/// The slots of a request are its five keys, from the first to the fifth.
pub proof fn slots_are_the_five_keys(data: EnableYubikeyData)
    ensures
        slots(data).len() == 5,
        slots(data)[0] == opt_text(data.key1),
        slots(data)[1] == opt_text(data.key2),
        slots(data)[2] == opt_text(data.key3),
        slots(data)[3] == opt_text(data.key4),
        slots(data)[4] == opt_text(data.key5),
{
}

/// Whether `devices` are those of the keys at `places`: of every key the device is there,
/// once, at the first key that has it, and in the order of those keys.
pub open spec fn in_first_places(
    items: Seq<Seq<char>>,
    devices: Seq<Seq<char>>,
    places: Seq<int>,
) -> bool {
    &&& places.len() == devices.len()
    &&& forall|a: int, b: int|
        0 <= a < b < places.len() ==> #[trigger] places[a] < #[trigger] places[b]
    &&& forall|a: int|
        0 <= a < places.len() ==> 0 <= #[trigger] places[a] < items.len() && device_of(
            items[places[a]],
        ) == devices[a]
    &&& forall|a: int, j: int|
        0 <= a < places.len() && 0 <= j < places[a] ==> device_of(#[trigger] items[j])
            != #[trigger] devices[a]
    &&& forall|j: int| 0 <= j < items.len() ==> devices.contains(device_of(#[trigger] items[j]))
}

proof fn bind_all_keeps_the_order(
    items: Seq<Seq<char>>,
    n: int,
    devices: Seq<Seq<char>>,
    places: Seq<int>,
)
    requires
        0 <= n <= items.len(),
        in_first_places(items.take(n), devices, places),
    ensures
        exists|places: Seq<int>| #[trigger]
            in_first_places(items, bind_all(devices, items.skip(n)), places),
    decreases items.len() - n,
{
    let rest = items.skip(n);
    if n == items.len() {
        assert(items.take(n) =~= items);
        assert(in_first_places(items, bind_all(devices, rest), places));
    } else {
        let done = items.take(n);
        let more = items.take(n + 1);
        let id = device_of(items[n]);
        assert(rest[0] == items[n]);
        assert(rest.drop_first() =~= items.skip(n + 1));
        assert forall|j: int| 0 <= j < n implies #[trigger] more[j] == done[j] by {}
        assert(more[n] == items[n]);
        if devices.contains(id) {
            assert forall|a: int| 0 <= a < places.len() implies 0 <= #[trigger] places[a]
                < more.len() && device_of(more[places[a]]) == devices[a] by {
                assert(more[places[a]] == done[places[a]]);
            }
            assert forall|a: int, j: int|
                0 <= a < places.len() && 0 <= j < places[a] implies device_of(#[trigger] more[j])
                != #[trigger] devices[a] by {
                assert(more[j] == done[j]);
            }
            assert forall|j: int| 0 <= j < more.len() implies devices.contains(
                device_of(#[trigger] more[j]),
            ) by {
                if j < n {
                    assert(more[j] == done[j]);
                }
            }
            assert(in_first_places(more, devices, places));
            bind_all_keeps_the_order(items, n + 1, devices, places);
            assert(bind_all(devices, rest) == bind_all(devices, items.skip(n + 1)));
        } else {
            let longer = devices.push(id);
            let further = places.push(n);
            assert forall|a: int, b: int| 0 <= a < b < further.len() implies #[trigger] further[a]
                < #[trigger] further[b] by {
                assert(further[a] == places[a]);
                if b < places.len() {
                    assert(further[b] == places[b]);
                }
            }
            assert forall|a: int| 0 <= a < further.len() implies 0 <= #[trigger] further[a]
                < more.len() && device_of(more[further[a]]) == longer[a] by {
                if a < places.len() {
                    assert(further[a] == places[a]);
                    assert(more[places[a]] == done[places[a]]);
                }
            }
            assert forall|a: int, j: int|
                0 <= a < further.len() && 0 <= j < further[a] implies device_of(#[trigger] more[j])
                != #[trigger] longer[a] by {
                assert(more[j] == done[j]);
                if a < places.len() {
                    assert(further[a] == places[a]);
                    assert(longer[a] == devices[a]);
                } else {
                    assert(devices.contains(device_of(done[j])));
                }
            }
            assert forall|j: int| 0 <= j < more.len() implies longer.contains(
                device_of(#[trigger] more[j]),
            ) by {
                if j < n {
                    assert(more[j] == done[j]);
                    let a = choose|a: int|
                        0 <= a < devices.len() && devices[a] == device_of(done[j]);
                    assert(longer[a] == device_of(more[j]));
                } else {
                    assert(longer[devices.len() as int] == id);
                }
            }
            assert(in_first_places(more, longer, further));
            bind_all_keeps_the_order(items, n + 1, longer, further);
            assert(bind_all(devices, rest) == bind_all(longer, items.skip(n + 1)));
        }
    }
}

/// The devices of a list of keys stand in the order of the keys: each once, at the place of
/// the first key that has it.
pub proof fn devices_keep_the_order_of_the_keys(items: Seq<Seq<char>>)
    ensures
        exists|places: Seq<int>| #[trigger] in_first_places(items, devices_of(items), places),
{
    assert(in_first_places(items.take(0), Seq::empty(), Seq::empty()));
    assert(items.skip(0) =~= items);
    bind_all_keeps_the_order(items, 0, Seq::empty(), Seq::empty());
    assert(bind_all(Seq::empty(), items.skip(0)) == devices_of(items));
}

/// No more than five devices are stored: with more, the request is refused.
pub proof fn sixth_device_is_refused(
    user_id: Seq<char>,
    devices: Seq<Seq<char>>,
    fresh: Seq<char>,
)
    ensures
        ActivateYubikeyView::advance(user_id, devices, Seq::empty(), fresh) is Finish <==> devices.len()
            > 5,
        devices.len() > 5 ==> ActivateYubikeyView::advance(user_id, devices, Seq::empty(), fresh)
            == StepView::<ActivateYubikeyView, ResponseView>::fail(
            AppErrorView::BadRequest("A maximum of 5 YubiKeys can be bound."@),
        ),
{
}

/// The devices on record are the strings of the list that the data is read as, all of them in
/// their order, and none where the data is no list: what was written is read back, and any
/// other text goes by the parser.
pub proof fn stored_devices_are_those_read(data: Seq<char>, list: Seq<Seq<char>>)
    ensures
        all_plain(list) && data == json_strings(list) ==> stored_devices(data) == list,
        !is_json_strings(data) ==> match other_json_strings(data) {
            Some(other) => stored_devices(data) == other,
            None => stored_devices(data).len() == 0,
        },
{
    if all_plain(list) && data == json_strings(list) {
        json_strings_round_trip(list);
    }
}

/// There are no more keys than slots.
proof fn provided_fit(slots: Seq<Option<Seq<char>>>)
    ensures
        provided(slots).len() <= slots.len(),
    decreases slots.len(),
{
    if slots.len() > 0 {
        provided_fit(slots.drop_last());
    }
}

/// Binding YubiKeys is all or nothing. A request that ends well had at least one key, and
/// every key was the identifier of a device or a one-time password that Yubico confirmed.
/// It leaves the user with one record of YubiKeys, which holds the devices in the order of
/// the slots, each once, five at most; and with a recovery code, the one they had or a new
/// one. It is answered with the devices.
///
/// A request that ends in an error leaves the record as it was, or has replaced it by the
/// new one; at no time is the user without either. However it ends, nothing changes of
/// other users.
pub proof fn activate_yubikey_binds_the_keys(
    limit: nat,
    user_id: Seq<char>,
    password: Option<Seq<char>>,
    slots: Seq<Option<Seq<char>>>,
    tables: Tables,
    host: Host,
)
    requires
        host.honest(),
        slots.len() <= 5,
    ensures
        limit >= 2 * 5 + 8 ==> run(
            limit,
            0,
            ActivateYubikeyView::start(user_id, password, slots),
            tables,
            host,
        ) is Some,
        run(limit, 0, ActivateYubikeyView::start(user_id, password, slots), tables, host) matches
            Some(end) ==> {
            let keys = devices_of(provided(slots));
            &&& ends_right(host, tables, user_id, provided(slots), keys, end)
            &&& end.result is Ok ==> {
                &&& 1 <= keys.len() <= 5
                &&& all_device_ids(keys)
                &&& keys.no_duplicates()
            }
        },
{
    let items = provided(slots);
    let keys = devices_of(items);
    provided_fit(slots);
    reveal_with_fuel(run, 5);
    let step = ActivateYubikeyView::start(user_id, password, slots);
    if limit >= 4 {
        let rest = (limit - 4) as nat;
        assert(host.has_drawn(host.identifier(3)));
        advance_ends_right(
            rest,
            4,
            user_id,
            Seq::empty(),
            items,
            host.identifier(3),
            tables,
            host,
        );
        let advanced = ActivateYubikeyView::advance(
            user_id,
            Seq::empty(),
            items,
            host.identifier(3),
        );
        let end = run(limit, 0, step, tables, host);
        assert(end matches Some(e) && e.result is Err && e.tables == tables || (items.len() > 0
            && end == run(rest, 4, advanced, tables, host)));
    }
    if all_good(host, tables, items) {
        bind_all_keeps(host, tables, Seq::empty(), items);
        if items.len() > 0 {
            let item = items[0];
            assert(is_good(host, tables, item));
            if is_otp(item) {
                otp_device_is_device_id(item);
            }
            bind_keeps(Seq::empty(), device_of(item));
            let others = items.drop_first();
            assert forall|i: int| 0 <= i < others.len() implies is_good(
                host,
                tables,
                #[trigger] others[i],
            ) by {
                assert(others[i] == items[i + 1]);
            }
            bind_all_keeps(host, tables, bind(Seq::empty(), device_of(item)), others);
        }
    }
}

/// Where everything works, YubiKeys are bound if there is one and Yubico confirms all
/// one-time passwords. A request without any key is answered so. A request with a key that
/// can not be bound ends in an error: that of the first such key, where it is malformed, or
/// a one-time password that can not be asked about or that Yubico does not confirm. Then
/// nothing changes.
pub proof fn activate_yubikey_goes_by_the_keys(
    limit: nat,
    user_id: Seq<char>,
    password: Seq<char>,
    slots: Seq<Option<Seq<char>>>,
    tables: Tables,
    host: Host,
)
    requires
        limit >= 2 * 5 + 8,
        host.willing(),
        tables.users.dom().contains(user_id),
        tables.records.finite(),
        slots.len() <= 5,
    ensures
        run(
            limit,
            0,
            ActivateYubikeyView::start(user_id, Some(password), slots),
            tables,
            host,
        ) matches Some(end) && {
            &&& provided(slots).len() == 0 ==> end == (Outcome::<ResponseView> {
                result: Err(
                    AppErrorView::BadRequest("At least one YubiKey OTP must be provided."@),
                ),
                tables,
            })
            &&& provided(slots).len() > 0 && all_sure(host, tables, provided(slots))
                ==> end.result is Ok
            &&& !all_good(host, tables, provided(slots)) ==> end.result is Err && end.tables
                == tables
            &&& forall|i: int, error: AppErrorView| #[trigger]
                first_refused(host, tables, provided(slots), i, error) ==> end == (Outcome::<
                    ResponseView,
                > { result: Err(error), tables })
        },
{
    let items = provided(slots);
    provided_fit(slots);
    reveal_with_fuel(run, 5);
    assert(host.has_drawn(host.identifier(3)));
    advance_ends_right(
        (limit - 4) as nat,
        4,
        user_id,
        Seq::empty(),
        items,
        host.identifier(3),
        tables,
        host,
    );
    let advanced = ActivateYubikeyView::advance(
        user_id,
        Seq::empty(),
        items,
        host.identifier(3),
    );
    let end = run(
        limit,
        0,
        ActivateYubikeyView::start(user_id, Some(password), slots),
        tables,
        host,
    );
    assert(items.len() > 0 ==> end == run((limit - 4) as nat, 4, advanced, tables, host));
    assert forall|i: int, error: AppErrorView| #[trigger]
        first_refused(host, tables, items, i, error) implies end == Some(
        Outcome::<ResponseView> { result: Err(error), tables },
    ) by {
        advance_refuses(
            (limit - 4) as nat,
            4,
            user_id,
            Seq::empty(),
            items,
            i,
            error,
            host.identifier(3),
            tables,
            host,
        );
    }
}

/// The devices of a list of good keys are those of the single keys, and no others.
pub proof fn devices_are_those_of_the_keys(
    host: Host,
    tables: Tables,
    items: Seq<Seq<char>>,
    id: Seq<char>,
)
    requires
        all_good(host, tables, items),
    ensures
        devices_of(items).contains(id) <==> exists|i: int|
            0 <= i < items.len() && device_of(#[trigger] items[i]) == id,
{
    bind_all_holds(host, tables, Seq::empty(), items, id);
}

proof fn bind_all_holds(
    host: Host,
    tables: Tables,
    devices: Seq<Seq<char>>,
    items: Seq<Seq<char>>,
    id: Seq<char>,
)
    requires
        all_good(host, tables, items),
        all_device_ids(devices),
        devices.no_duplicates(),
    ensures
        bind_all(devices, items).contains(id) <==> devices.contains(id) || exists|i: int|
            0 <= i < items.len() && device_of(#[trigger] items[i]) == id,
    decreases items.len(),
{
    if items.len() > 0 {
        let item = items[0];
        let rest = items.drop_first();
        assert(is_good(host, tables, item));
        if is_otp(item) {
            otp_device_is_device_id(item);
        }
        bind_keeps(devices, device_of(item));
        assert forall|i: int| 0 <= i < rest.len() implies is_good(
            host,
            tables,
            #[trigger] rest[i],
        ) by {
            assert(rest[i] == items[i + 1]);
        }
        bind_all_holds(host, tables, bind(devices, device_of(item)), rest, id);
        if exists|i: int| 0 <= i < rest.len() && device_of(#[trigger] rest[i]) == id {
            let i = choose|i: int| 0 <= i < rest.len() && device_of(#[trigger] rest[i]) == id;
            assert(items[i + 1] == rest[i]);
        }
        if exists|i: int| 0 <= i < items.len() && device_of(#[trigger] items[i]) == id {
            let i = choose|i: int| 0 <= i < items.len() && device_of(#[trigger] items[i]) == id;
            if i > 0 {
                assert(rest[i - 1] == items[i]);
            }
        }
    }
}

/// Whether the user has a record of YubiKeys.
pub open spec fn has_yubikeys(tables: Tables, user_id: Seq<char>) -> bool {
    exists|r: TwoFactorView| #[trigger] tables.records.contains(r) && r.is_of(user_id, yubi())
}

/// A request for the bound YubiKeys changes nothing, and is answered with the devices on
/// record, or with none where there is no record. Where everything works, it is answered.
pub proof fn get_yubikey_reads_the_keys(
    limit: nat,
    user_id: Seq<char>,
    password: Option<Seq<char>>,
    tables: Tables,
    host: Host,
)
    requires
        host.honest(),
    ensures
        limit >= 5 && host.willing() && tables.users.dom().contains(user_id) && password is Some && tables.records.finite() ==> (run(
            limit,
            0,
            GetYubikeyView::start(user_id, password),
            tables,
            host,
        ) matches Some(end) && end.result is Ok),
        limit >= 5 ==> run(limit, 0, GetYubikeyView::start(user_id, password), tables, host)
            is Some,
        run(limit, 0, GetYubikeyView::start(user_id, password), tables, host) matches Some(end)
            ==> {
            &&& end.tables == tables
            &&& end.result matches Ok(answer) ==> {
                &&& answer matches ResponseView::YubiKey { enabled, keys }
                &&& enabled <==> has_yubikeys(tables, user_id)
                &&& !enabled ==> keys == Seq::<Seq<char>>::empty()
                &&& enabled ==> exists|r: TwoFactorView| #[trigger]
                    tables.records.contains(r) && r.is_of(user_id, yubi()) && keys
                        == stored_devices(r.data)
            }
        },
{
    reveal_with_fuel(run, 6);
    let found = host.answer(4, tables, ActionView::FindTwoFactor { user_id, atype: yubi() });
    if let ReplyView::TwoFactor(Ok(Some(r))) = found {
        assert(tables.records.contains(r));
    }
}

/// What a request to bind YubiKeys wrote, a request for them gives back: both are answered
/// with the same.
pub proof fn get_yubikey_gives_back_the_bound_keys(
    limit: nat,
    user_id: Seq<char>,
    password: Option<Seq<char>>,
    slots: Seq<Option<Seq<char>>>,
    tables: Tables,
    host: Host,
    later_limit: nat,
    later_password: Option<Seq<char>>,
    later_host: Host,
)
    requires
        host.honest(),
        later_host.honest(),
        slots.len() <= 5,
    ensures
        run(limit, 0, ActivateYubikeyView::start(user_id, password, slots), tables, host) matches
            Some(end) ==> (end.result matches Ok(answer) ==> (run(
            later_limit,
            0,
            GetYubikeyView::start(user_id, later_password),
            end.tables,
            later_host,
        ) matches Some(later) ==> (later.result matches Ok(later_answer) ==> later_answer
            == answer))),
{
    activate_yubikey_binds_the_keys(limit, user_id, password, slots, tables, host);
    if let Some(end) = run(
        limit,
        0,
        ActivateYubikeyView::start(user_id, password, slots),
        tables,
        host,
    ) {
        if end.result is Ok {
            let keys = devices_of(provided(slots));
            let uuid = choose|uuid: Seq<char>| #[trigger]
                keys_replaced(tables, end.tables, user_id, keys, uuid);
            let record = yubikey_record(uuid, user_id, keys);
            assert(end.tables.records.contains(record));
            device_ids_are_plain(keys);
            json_strings_round_trip(keys);
            get_yubikey_reads_the_keys(
                later_limit,
                user_id,
                later_password,
                end.tables,
                later_host,
            );
        }
    }
}

/// The check of a one-time password changes nothing. It ends well only if the password is one
/// and Yubico confirmed it, and gives the first twelve characters of it then. Where Yubico
/// confirms it, it ends well; where the password is malformed, can not be asked about or is
/// not confirmed, that is the answer.
pub proof fn verify_yubico_otp_goes_by_the_answer(
    limit: nat,
    k: nat,
    otp: Seq<char>,
    tables: Tables,
    host: Host,
)
    requires
        host.honest(),
    ensures
        limit >= 2 ==> run(limit, k, VerifyOtpView::start(otp), tables, host) is Some,
        run(limit, k, VerifyOtpView::start(otp), tables, host) matches Some(end) ==> {
            &&& end.tables == tables
            &&& end.result matches Ok(id) ==> {
                &&& is_otp(otp)
                &&& is_vouched(host, tables, otp)
                &&& id == otp.take(12)
                &&& is_device_id(id)
            }
            &&& is_otp(otp) && is_sure(host, tables, otp) ==> end.result is Ok
            &&& byte_len(otp) != 44 ==> end.result == Err::<Seq<char>, AppErrorView>(
                AppErrorView::BadRequest("Invalid YubiKey OTP format, expected 44 characters"@),
            )
            &&& byte_len(otp) == 44 && !all_modhex(otp) ==> end.result == Err::<
                Seq<char>,
                AppErrorView,
            >(AppErrorView::BadRequest("YubiKey OTP contains invalid characters"@))
            &&& is_otp(otp) && is_unconfigured(host, tables) ==> end.result == Err::<
                Seq<char>,
                AppErrorView,
            >(AppErrorView::BadRequest("Administrator has not configured this feature"@))
            &&& forall|error: AppErrorView|
                is_otp(otp) && #[trigger] is_doubted(host, tables, otp, error) ==> end.result
                    == Err::<Seq<char>, AppErrorView>(error)
        },
{
    reveal_with_fuel(run, 3);
    otp_format(otp);
    if is_otp(otp) {
        otp_device_is_device_id(otp);
        assert(is_uuid(host.identifier(k)));
        let asked = host.answer(
            k,
            tables,
            ActionView::ReadVariable { name: "YUBICO_CLIENT_ID"@ },
        );
        if let ReplyView::Variable(Some(client_id)) = asked {
            let nonce = without_hyphens(host.identifier(k));
            let page = host.answer(
                k + 1,
                tables,
                ActionView::Fetch { url: question(client_id, otp, nonce) },
            );
            assert(page is Page);
            only_vouching_pages_confirm(page->Page_0, otp, nonce);
            if verdict(page->Page_0, otp, nonce) is Ok {
                assert(is_vouched(host, tables, otp));
            }
        }
    }
}

/// A one-time password is asked about only if it is 44 modhex characters, in an address in
/// which it stands as it is, next to a nonce of 32 hexadecimal digits.
pub proof fn questions_are_well_formed(otp: Seq<char>, client_id: Seq<char>, fresh: Seq<char>)
    requires
        is_uuid(fresh),
    ensures
        VerifyOtpView::start(otp) is Perform <==> is_otp(otp),
        VerifyOtpView::start(otp) matches StepView::Perform { state, action } ==> {
            let nonce = without_hyphens(fresh);
            let asked = state.next(ReplyView::Variable(Some(client_id)), fresh);
            &&& asked == (StepView::<VerifyOtpView, Seq<char>>::Perform {
                state: VerifyOtpView::Asking { otp, nonce },
                action: ActionView::Fetch { url: question(client_id, otp, nonce) },
            })
            &&& nonce.len() == 32
            &&& forall|i: int| 0 <= i < 32 ==> is_hex(#[trigger] nonce[i])
        },
{
    otp_format(otp);
    uuid_digits(fresh);
}

/// Once YubiKeys are disabled, a request for them is answered with none.
pub proof fn get_yubikey_shows_none_after_disabling(
    limit: nat,
    user_id: Seq<char>,
    password: Option<Seq<char>>,
    tables: Tables,
    host: Host,
    later_limit: nat,
    later_password: Option<Seq<char>>,
    later_host: Host,
)
    requires
        host.honest(),
        later_host.honest(),
    ensures
        run(limit, 0, DisableTwofactorView::start(user_id, password, yubi()), tables, host) matches
            Some(end) ==> (end.result is Ok ==> (run(
            later_limit,
            0,
            GetYubikeyView::start(user_id, later_password),
            end.tables,
            later_host,
        ) matches Some(later) ==> (later.result matches Ok(answer) ==> answer == (ResponseView::YubiKey {
            enabled: false,
            keys: Seq::empty(),
        })))),
{
    disable_twofactor_takes_the_kind(limit, user_id, password, yubi(), tables, host);
    if let Some(end) = run(
        limit,
        0,
        DisableTwofactorView::start(user_id, password, yubi()),
        tables,
        host,
    ) {
        get_yubikey_reads_the_keys(later_limit, user_id, later_password, end.tables, later_host);
    }
}

} // verus!
