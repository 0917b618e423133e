//! YubiKeys.

use vstd::prelude::*;

use crate::error::{AppError, AppErrorView};
use crate::fresh::{is_uuid, new_uuid};
use crate::admission::{Admission, AdmissionView};
use crate::handlers::response::{Response, ResponseView};
use crate::json::{json_strings, parse_strings, parsed_strings};
use crate::models::{
    EnableYubikeyData, PasswordOrOtpData, TwoFactor, TwoFactorType, TwoFactorView, User, UserView,
};
use crate::protocol::{Action, ActionView, Reply, ReplyView, Step, StepView};
use crate::recovery::{
    generate_recovery_code_for_user, GenerateRecovery, GenerateRecoveryView,
};
use crate::text::{
    all_modhex, byte_len, ct_eq, len_in_bytes, modhex_is_ascii, opt_text, texts, trim, trimmed,
};
use crate::yubico::{
    device_json, device_strings, device_texts, verify_yubico_otp, DeviceId, VerifyOtp,
    VerifyOtpView, DEVICE_ID_LEN, OTP_LEN,
};

verus! {

/// How many YubiKeys a user can bind.
pub const MAX_YUBIKEYS: usize = 5;

/// The five slots of a request, as they were sent.
pub open spec fn slots(data: EnableYubikeyData) -> Seq<Option<Seq<char>>> {
    seq![
        opt_text(data.key1),
        opt_text(data.key2),
        opt_text(data.key3),
        opt_text(data.key4),
        opt_text(data.key5),
    ]
}

/// What the slots hold, in their order: without white space around it, and without
/// the slots that then hold nothing.
pub open spec fn provided(slots: Seq<Option<Seq<char>>>) -> Seq<Seq<char>>
    decreases slots.len(),
{
    if slots.len() == 0 {
        Seq::empty()
    } else {
        let before = provided(slots.drop_last());
        match slots.last() {
            Some(s) => if trimmed(s).len() == 0 {
                before
            } else {
                before.push(trimmed(s))
            },
            None => before,
        }
    }
}

/// The devices once `id` is among them, each in its first place.
pub open spec fn bind(devices: Seq<Seq<char>>, id: Seq<char>) -> Seq<Seq<char>> {
    if devices.contains(id) {
        devices
    } else {
        devices.push(id)
    }
}

/// How far a list of keys can be bound without asking anyone.
pub enum Progress {
    /// One of them is neither a device identifier nor as long as a one-time password.
    Rejected(AppErrorView),
    /// One of them may be a one-time password.
    Pending { devices: Seq<Seq<char>>, otp: Seq<char>, rest: Seq<Seq<char>> },
    /// All of them are bound.
    Bound(Seq<Seq<char>>),
}

/// Binds `items` after `devices`, as far as nobody has to be asked. The identifier of
/// a device is taken as it is: the device was bound before.
pub open spec fn scan(devices: Seq<Seq<char>>, items: Seq<Seq<char>>) -> Progress
    decreases items.len(),
{
    if items.len() == 0 {
        Progress::Bound(devices)
    } else {
        let item = items[0];
        let rest = items.drop_first();
        if byte_len(item) == DEVICE_ID_LEN {
            if all_modhex(item) {
                scan(bind(devices, item), rest)
            } else {
                Progress::Rejected(
                    AppErrorView::BadRequest("Contains invalid YubiKey device ID."@),
                )
            }
        } else if byte_len(item) == OTP_LEN {
            Progress::Pending { devices, otp: item, rest }
        } else {
            Progress::Rejected(
                AppErrorView::BadRequest(
                    "Invalid YubiKey format, expected 12-char ID or 44-char OTP."@,
                ),
            )
        }
    }
}

/// The record of a user's YubiKeys.
pub open spec fn yubikey_record(
    uuid: Seq<char>,
    user_id: Seq<char>,
    devices: Seq<Seq<char>>,
) -> TwoFactorView {
    TwoFactorView::new(uuid, user_id, TwoFactorType::YubiKey, json_strings(devices))
}

/// A request to bind YubiKeys. `items` are the keys that are still to be bound, and
/// `devices` those that are.
#[derive(Debug, PartialEq, Eq)]
pub enum ActivateYubikey {
    Admitting { admission: Admission, user_id: String, items: Vec<String> },
    /// It checks a one-time password.
    Verifying {
        check: VerifyOtp,
        user_id: String,
        devices: Vec<DeviceId>,
        items: Vec<String>,
    },
    /// It waits for the new record to take the place of the old.
    Replacing { user_id: String, devices: Vec<DeviceId> },
    /// It sees to the recovery code.
    Recovering { recovery: GenerateRecovery, devices: Vec<DeviceId> },
}

/// What an [`ActivateYubikey`] holds.
pub enum ActivateYubikeyView {
    Admitting { admission: AdmissionView, user_id: Seq<char>, items: Seq<Seq<char>> },
    Verifying {
        check: VerifyOtpView,
        user_id: Seq<char>,
        devices: Seq<Seq<char>>,
        items: Seq<Seq<char>>,
    },
    Replacing { user_id: Seq<char>, devices: Seq<Seq<char>> },
    Recovering { recovery: GenerateRecoveryView, devices: Seq<Seq<char>> },
}

impl View for ActivateYubikey {
    type V = ActivateYubikeyView;

    open spec fn view(&self) -> ActivateYubikeyView {
        match self {
            ActivateYubikey::Admitting { admission, user_id, items } => ActivateYubikeyView::Admitting {
                admission: admission@,
                user_id: user_id@,
                items: texts(items@),
            },
            ActivateYubikey::Verifying {
                check,
                user_id,
                devices,
                items,
            } => ActivateYubikeyView::Verifying {
                check: check@,
                user_id: user_id@,
                devices: device_texts(devices@),
                items: texts(items@),
            },
            ActivateYubikey::Replacing { user_id, devices } => ActivateYubikeyView::Replacing {
                user_id: user_id@,
                devices: device_texts(devices@),
            },
            ActivateYubikey::Recovering { recovery, devices } => ActivateYubikeyView::Recovering {
                recovery: recovery@,
                devices: device_texts(devices@),
            },
        }
    }
}

impl ActivateYubikeyView {
    /// What follows the start of the check of a one-time password. A check never ends
    /// well before it has asked.
    pub open spec fn suspend(
        step: StepView<VerifyOtpView, Seq<char>>,
        user_id: Seq<char>,
        devices: Seq<Seq<char>>,
        items: Seq<Seq<char>>,
    ) -> StepView<ActivateYubikeyView, ResponseView> {
        match step {
            StepView::Perform { state, action } => StepView::Perform {
                state: ActivateYubikeyView::Verifying { check: state, user_id, devices, items },
                action,
            },
            StepView::Finish { result: Err(e) } => StepView::fail(e),
            StepView::Finish { result: Ok(_) } => StepView::fail(AppErrorView::Internal),
        }
    }

    /// Binds `items` after `devices`, up to the next one-time password or to the end.
    /// At the end the record of all devices takes the place of the old one.
    pub open spec fn advance(
        user_id: Seq<char>,
        devices: Seq<Seq<char>>,
        items: Seq<Seq<char>>,
        fresh: Seq<char>,
    ) -> StepView<ActivateYubikeyView, ResponseView> {
        match scan(devices, items) {
            Progress::Rejected(e) => StepView::fail(e),
            Progress::Pending { devices, otp, rest } => ActivateYubikeyView::suspend(
                VerifyOtpView::start(otp),
                user_id,
                devices,
                rest,
            ),
            Progress::Bound(devices) => if devices.len() > MAX_YUBIKEYS {
                StepView::fail(
                    AppErrorView::BadRequest("A maximum of 5 YubiKeys can be bound."@),
                )
            } else {
                StepView::Perform {
                    state: ActivateYubikeyView::Replacing { user_id, devices },
                    action: ActionView::ReplaceByType {
                        user_id,
                        atype: TwoFactorType::YubiKey.number(),
                        record: yubikey_record(fresh, user_id, devices),
                    },
                }
            },
        }
    }

    /// What follows a step of admission.
    pub open spec fn after_admission(
        step: StepView<AdmissionView, UserView>,
        user_id: Seq<char>,
        items: Seq<Seq<char>>,
        fresh: Seq<char>,
    ) -> StepView<ActivateYubikeyView, ResponseView> {
        match step {
            StepView::Perform { state, action } => StepView::Perform {
                state: ActivateYubikeyView::Admitting { admission: state, user_id, items },
                action,
            },
            StepView::Finish { result: Err(e) } => StepView::fail(e),
            StepView::Finish { result: Ok(_) } => if items.len() == 0 {
                StepView::fail(
                    AppErrorView::BadRequest("At least one YubiKey OTP must be provided."@),
                )
            } else {
                ActivateYubikeyView::advance(user_id, Seq::empty(), items, fresh)
            },
        }
    }

    /// What follows a step of the check of a one-time password.
    pub open spec fn after_check(
        step: StepView<VerifyOtpView, Seq<char>>,
        user_id: Seq<char>,
        devices: Seq<Seq<char>>,
        items: Seq<Seq<char>>,
        fresh: Seq<char>,
    ) -> StepView<ActivateYubikeyView, ResponseView> {
        match step {
            StepView::Perform { state, action } => StepView::Perform {
                state: ActivateYubikeyView::Verifying { check: state, user_id, devices, items },
                action,
            },
            StepView::Finish { result: Err(e) } => StepView::fail(e),
            StepView::Finish { result: Ok(id) } => ActivateYubikeyView::advance(
                user_id,
                bind(devices, id),
                items,
                fresh,
            ),
        }
    }

    /// What follows a step of the making of a recovery code.
    pub open spec fn after_recovery(
        step: StepView<GenerateRecoveryView, ()>,
        devices: Seq<Seq<char>>,
    ) -> StepView<ActivateYubikeyView, ResponseView> {
        match step {
            StepView::Perform { state, action } => StepView::Perform {
                state: ActivateYubikeyView::Recovering { recovery: state, devices },
                action,
            },
            StepView::Finish { result: Err(e) } => StepView::fail(e),
            StepView::Finish { result: Ok(_) } => StepView::done(
                ResponseView::YubiKey { enabled: true, keys: devices },
            ),
        }
    }

    /// The request starts with admission, and that with the rate limit.
    pub open spec fn start(
        user_id: Seq<char>,
        password: Option<Seq<char>>,
        slots: Seq<Option<Seq<char>>>,
    ) -> StepView<ActivateYubikeyView, ResponseView> {
        ActivateYubikeyView::after_admission(
            AdmissionView::limited(user_id, password),
            user_id,
            provided(slots),
            Seq::empty(),
        )
    }

    /// The request after a reply, with `fresh` as a new identifier.
    pub open spec fn next(self, reply: ReplyView, fresh: Seq<char>) -> StepView<
        ActivateYubikeyView,
        ResponseView,
    > {
        match (self, reply) {
            (
                ActivateYubikeyView::Admitting { admission, user_id, items },
                _,
            ) => ActivateYubikeyView::after_admission(admission.next(reply), user_id, items, fresh),
            (
                ActivateYubikeyView::Verifying { check, user_id, devices, items },
                _,
            ) => ActivateYubikeyView::after_check(
                check.next(reply, fresh),
                user_id,
                devices,
                items,
                fresh,
            ),
            (
                ActivateYubikeyView::Replacing { user_id, devices },
                ReplyView::Written(true),
            ) => ActivateYubikeyView::after_recovery(
                GenerateRecoveryView::start(user_id),
                devices,
            ),
            (ActivateYubikeyView::Replacing { .. }, ReplyView::Written(false)) => StepView::fail(
                AppErrorView::Database,
            ),
            (
                ActivateYubikeyView::Recovering { recovery, devices },
                _,
            ) => ActivateYubikeyView::after_recovery(recovery.next(reply), devices),
            _ => StepView::fail(AppErrorView::Internal),
        }
    }
}

/// What the slots of a request hold, without white space around it, and without the
/// slots that then hold nothing.
fn collect_provided(slots: Vec<Option<String>>) -> (items: Vec<String>)
    ensures
        texts(items@) == provided(slots@.map_values(|o: Option<String>| opt_text(o))),
{
    let ghost all = slots@.map_values(|o: Option<String>| opt_text(o));
    let mut items: Vec<String> = Vec::new();
    assert(texts(items@) == provided(all.take(0)));
    for i in 0..slots.len()
        invariant
            all == slots@.map_values(|o: Option<String>| opt_text(o)),
            texts(items@) == provided(all.take(i as int)),
    {
        let ghost before = texts(items@);
        assert(all.take(i + 1).drop_last() == all.take(i as int));
        assert(all.take(i + 1).last() == opt_text(slots@[i as int]));
        if let Some(s) = &slots[i] {
            let t = trim(s.as_str());
            if !t.as_str().is_empty() {
                items.push(t);
                assert(texts(items@) == before.push(t@));
            }
        }
    }
    assert(all.take(slots@.len() as int) == all);
    items
}

/// Whether a device is among those of a list.
fn device_bound(devices: &Vec<DeviceId>, id: &DeviceId) -> (r: bool)
    ensures
        r == device_texts(devices@).contains(id@),
{
    for i in 0..devices.len()
        invariant
            forall|j: int| 0 <= j < i ==> #[trigger] device_texts(devices@)[j] != id@,
    {
        if ct_eq(devices[i].as_str(), id.as_str()) {
            assert(device_texts(devices@)[i as int] == id@);
            return true;
        }
    }
    false
}

/// Adds a device at the end of a list, if it is not in it.
fn bind_device(devices: &mut Vec<DeviceId>, id: DeviceId)
    ensures
        device_texts(final(devices)@) == bind(device_texts(old(devices)@), id@),
{
    if !device_bound(devices, &id) {
        devices.push(id);
        assert(device_texts(devices@) == device_texts(old(devices)@).push(id@));
    }
}

/// `POST /api/two-factor/yubikey`: binds YubiKeys in place of those bound before.
pub fn activate_yubikey(user_id: String, data: EnableYubikeyData) -> (step: Step<
    ActivateYubikey,
    Response,
>)
    ensures
        step@ == ActivateYubikeyView::start(
            user_id@,
            opt_text(data.master_password_hash),
            slots(data),
        ),
{
    let ghost all = slots(data);
    let EnableYubikeyData { key1, key2, key3, key4, key5, master_password_hash } = data;
    let mut keys: Vec<Option<String>> = Vec::new();
    keys.push(key1);
    keys.push(key2);
    keys.push(key3);
    keys.push(key4);
    keys.push(key5);
    assert(keys@.map_values(|o: Option<String>| opt_text(o)) == all);
    let items = collect_provided(keys);
    let admission = Admission::limited(user_id.clone(), master_password_hash);
    ActivateYubikey::after_admission(admission, user_id, items, String::new())
}

impl ActivateYubikey {
    fn suspend(
        step: Step<VerifyOtp, DeviceId>,
        user_id: String,
        devices: Vec<DeviceId>,
        items: Vec<String>,
    ) -> (r: Step<ActivateYubikey, Response>)
        ensures
            r@ == ActivateYubikeyView::suspend(
                step@,
                user_id@,
                device_texts(devices@),
                texts(items@),
            ),
    {
        match step {
            Step::Perform { state, action } => Step::ask(
                ActivateYubikey::Verifying { check: state, user_id, devices, items },
                action,
            ),
            Step::Finish { result: Err(e) } => Step::fail(e),
            Step::Finish { result: Ok(_) } => Step::fail(AppError::Internal),
        }
    }

    /// The end of the binding: the record of all devices takes the place of the old.
    fn store(user_id: String, devices: Vec<DeviceId>, fresh: String) -> (r: Step<
        ActivateYubikey,
        Response,
    >)
        ensures
            r@ == ActivateYubikeyView::advance(
                user_id@,
                device_texts(devices@),
                Seq::empty(),
                fresh@,
            ),
    {
        if devices.len() > MAX_YUBIKEYS {
            return Step::fail(AppError::bad_request("A maximum of 5 YubiKeys can be bound."));
        }
        match device_json(&devices) {
            Ok(data) => {
                let record = TwoFactor::with_uuid(
                    fresh,
                    user_id.clone(),
                    TwoFactorType::YubiKey,
                    data,
                );
                let action = Action::ReplaceByType {
                    user_id: user_id.clone(),
                    atype: TwoFactorType::YubiKey.as_i32(),
                    record,
                };
                Step::ask(ActivateYubikey::Replacing { user_id, devices }, action)
            },
            Err(e) => Step::fail(e),
        }
    }

    /// Binds `items` after `devices`, up to the next one-time password or to the end.
    fn advance(
        user_id: String,
        devices: Vec<DeviceId>,
        items: Vec<String>,
        fresh: String,
    ) -> (r: Step<ActivateYubikey, Response>)
        ensures
            r@ == ActivateYubikeyView::advance(
                user_id@,
                device_texts(devices@),
                texts(items@),
                fresh@,
            ),
    {
        let ghost goal = scan(device_texts(devices@), texts(items@));
        let mut devices = devices;
        let mut items = items;
        #[verifier::loop_isolation(false)]
        while items.len() > 0
            invariant
                scan(device_texts(devices@), texts(items@)) == goal,
            decreases items.len(),
        {
            let ghost before = texts(items@);
            let item = items.remove(0);
            assert(item@ == before[0]);
            assert(texts(items@) == before.drop_first());
            let n = len_in_bytes(item.as_str());
            if n == DEVICE_ID_LEN {
                proof {
                    if all_modhex(item@) {
                        modhex_is_ascii(item@);
                    }
                }
                match DeviceId::parse(item) {
                    Some(id) => {
                        bind_device(&mut devices, id);
                    },
                    None => {
                        return Step::fail(
                            AppError::bad_request("Contains invalid YubiKey device ID."),
                        );
                    },
                }
            } else if n == OTP_LEN {
                return ActivateYubikey::suspend(
                    verify_yubico_otp(item),
                    user_id,
                    devices,
                    items,
                );
            } else {
                return Step::fail(
                    AppError::bad_request(
                        "Invalid YubiKey format, expected 12-char ID or 44-char OTP.",
                    ),
                );
            }
        }
        assert(texts(items@) == Seq::<Seq<char>>::empty());
        ActivateYubikey::store(user_id, devices, fresh)
    }

    fn after_admission(
        step: Step<Admission, User>,
        user_id: String,
        items: Vec<String>,
        fresh: String,
    ) -> (r: Step<ActivateYubikey, Response>)
        ensures
            r@ == ActivateYubikeyView::after_admission(step@, user_id@, texts(items@), fresh@),
    {
        match step {
            Step::Perform { state, action } => Step::ask(
                ActivateYubikey::Admitting { admission: state, user_id, items },
                action,
            ),
            Step::Finish { result: Err(e) } => Step::fail(e),
            Step::Finish { result: Ok(_) } => {
                if items.len() == 0 {
                    return Step::fail(
                        AppError::bad_request("At least one YubiKey OTP must be provided."),
                    );
                }
                let devices: Vec<DeviceId> = Vec::new();
                assert(device_texts(devices@) == Seq::<Seq<char>>::empty());
                ActivateYubikey::advance(user_id, devices, items, fresh)
            },
        }
    }

    fn after_check(
        step: Step<VerifyOtp, DeviceId>,
        user_id: String,
        devices: Vec<DeviceId>,
        items: Vec<String>,
        fresh: String,
    ) -> (r: Step<ActivateYubikey, Response>)
        ensures
            r@ == ActivateYubikeyView::after_check(
                step@,
                user_id@,
                device_texts(devices@),
                texts(items@),
                fresh@,
            ),
    {
        match step {
            Step::Perform { state, action } => Step::ask(
                ActivateYubikey::Verifying { check: state, user_id, devices, items },
                action,
            ),
            Step::Finish { result: Err(e) } => Step::fail(e),
            Step::Finish { result: Ok(id) } => {
                let mut devices = devices;
                bind_device(&mut devices, id);
                ActivateYubikey::advance(user_id, devices, items, fresh)
            },
        }
    }

    fn after_recovery(step: Step<GenerateRecovery, ()>, devices: Vec<DeviceId>) -> (r: Step<
        ActivateYubikey,
        Response,
    >)
        ensures
            r@ == ActivateYubikeyView::after_recovery(step@, device_texts(devices@)),
    {
        match step {
            Step::Perform { state, action } => Step::ask(
                ActivateYubikey::Recovering { recovery: state, devices },
                action,
            ),
            Step::Finish { result: Err(e) } => Step::fail(e),
            Step::Finish { result: Ok(_) } => Step::done(
                Response::YubiKey { enabled: true, keys: device_strings(&devices) },
            ),
        }
    }

    /// The request after a reply, with `fresh` as a new identifier.
    pub fn resume_with(self, reply: Reply, fresh: String) -> (step: Step<
        ActivateYubikey,
        Response,
    >)
        ensures
            step@ == self@.next(reply@, fresh@),
    {
        match (self, reply) {
            (
                ActivateYubikey::Admitting { admission, user_id, items },
                reply,
            ) => ActivateYubikey::after_admission(admission.resume(reply), user_id, items, fresh),
            (ActivateYubikey::Verifying { check, user_id, devices, items }, reply) => {
                let step = check.resume_with(reply, fresh.as_str());
                ActivateYubikey::after_check(step, user_id, devices, items, fresh)
            },
            (
                ActivateYubikey::Replacing { user_id, devices },
                Reply::Written(true),
            ) => ActivateYubikey::after_recovery(
                generate_recovery_code_for_user(user_id),
                devices,
            ),
            (ActivateYubikey::Replacing { .. }, Reply::Written(false)) => Step::fail(
                AppError::Database,
            ),
            (
                ActivateYubikey::Recovering { recovery, devices },
                reply,
            ) => ActivateYubikey::after_recovery(recovery.resume(reply), devices),
            _ => Step::fail(AppError::Internal),
        }
    }

    /// The request after a reply. Each question to Yubico, and a new record, gets an
    /// identifier of its own.
    pub fn resume(self, reply: Reply) -> (step: Step<ActivateYubikey, Response>)
        ensures
            exists|fresh: Seq<char>|
                is_uuid(fresh) && step@ == #[trigger] self@.next(reply@, fresh),
    {
        let fresh = new_uuid();
        self.resume_with(reply, fresh)
    }
}

/// A request for the bound YubiKeys.
#[derive(Debug, PartialEq, Eq)]
pub enum GetYubikey {
    Admitting { admission: Admission, user_id: String },
    /// It waits for the record.
    Finding,
}

/// What a [`GetYubikey`] holds.
pub enum GetYubikeyView {
    Admitting { admission: AdmissionView, user_id: Seq<char> },
    Finding,
}

impl View for GetYubikey {
    type V = GetYubikeyView;

    open spec fn view(&self) -> GetYubikeyView {
        match self {
            GetYubikey::Admitting { admission, user_id } => GetYubikeyView::Admitting {
                admission: admission@,
                user_id: user_id@,
            },
            GetYubikey::Finding => GetYubikeyView::Finding,
        }
    }
}

/// The devices in the data of a record; none where the data is no list.
pub open spec fn stored_devices(data: Seq<char>) -> Seq<Seq<char>> {
    parsed_strings(data).unwrap_or(Seq::empty())
}

/// The devices of a list that was read, and none where none could be read.
pub fn devices_or_none(parsed: Option<Vec<String>>) -> (keys: Vec<String>)
    ensures
        match parsed {
            Some(list) => texts(keys@) == texts(list@),
            None => texts(keys@) == Seq::<Seq<char>>::empty(),
        },
{
    match parsed {
        Some(list) => list,
        None => {
            let keys: Vec<String> = Vec::new();
            assert(texts(keys@) == Seq::<Seq<char>>::empty());
            keys
        },
    }
}

/// The devices in the data of a record; none where the data is no list.
pub fn read_devices(data: &str) -> (keys: Vec<String>)
    ensures
        texts(keys@) == stored_devices(data@),
{
    devices_or_none(parse_strings(data))
}

impl GetYubikeyView {
    /// What follows a step of admission.
    pub open spec fn after_admission(
        step: StepView<AdmissionView, UserView>,
        user_id: Seq<char>,
    ) -> StepView<GetYubikeyView, ResponseView> {
        match step {
            StepView::Perform { state, action } => StepView::Perform {
                state: GetYubikeyView::Admitting { admission: state, user_id },
                action,
            },
            StepView::Finish { result: Err(e) } => StepView::fail(e),
            StepView::Finish { result: Ok(_) } => StepView::Perform {
                state: GetYubikeyView::Finding,
                action: ActionView::FindTwoFactor {
                    user_id,
                    atype: TwoFactorType::YubiKey.number(),
                },
            },
        }
    }

    /// The request starts with admission, and that with the rate limit.
    pub open spec fn start(user_id: Seq<char>, password: Option<Seq<char>>) -> StepView<
        GetYubikeyView,
        ResponseView,
    > {
        GetYubikeyView::after_admission(AdmissionView::limited(user_id, password), user_id)
    }

    /// The request after a reply: the devices on record, if there is a record.
    pub open spec fn next(self, reply: ReplyView) -> StepView<GetYubikeyView, ResponseView> {
        match (self, reply) {
            (GetYubikeyView::Admitting { admission, user_id }, _) => GetYubikeyView::after_admission(
                admission.next(reply),
                user_id,
            ),
            (GetYubikeyView::Finding, ReplyView::TwoFactor(Ok(Some(record)))) => StepView::done(
                ResponseView::YubiKey { enabled: true, keys: stored_devices(record.data) },
            ),
            (GetYubikeyView::Finding, ReplyView::TwoFactor(Ok(None))) => StepView::done(
                ResponseView::YubiKey { enabled: false, keys: Seq::empty() },
            ),
            (GetYubikeyView::Finding, ReplyView::TwoFactor(Err(e))) => StepView::fail(e.of_row()),
            _ => StepView::fail(AppErrorView::Internal),
        }
    }
}

/// `GET /api/two-factor/yubikey`: the bound YubiKeys.
pub fn get_yubikey(user_id: String, data: PasswordOrOtpData) -> (step: Step<GetYubikey, Response>)
    ensures
        step@ == GetYubikeyView::start(user_id@, opt_text(data.master_password_hash)),
{
    let admission = Admission::limited(user_id.clone(), data.master_password_hash);
    GetYubikey::after_admission(admission, user_id)
}

impl GetYubikey {
    fn after_admission(step: Step<Admission, User>, user_id: String) -> (r: Step<GetYubikey, Response>)
        ensures
            r@ == GetYubikeyView::after_admission(step@, user_id@),
    {
        match step {
            Step::Perform { state, action } => Step::ask(
                GetYubikey::Admitting { admission: state, user_id },
                action,
            ),
            Step::Finish { result: Err(e) } => Step::fail(e),
            Step::Finish { result: Ok(_) } => Step::ask(
                GetYubikey::Finding,
                Action::FindTwoFactor { user_id, atype: TwoFactorType::YubiKey.as_i32() },
            ),
        }
    }

    /// The request after a reply.
    pub fn resume(self, reply: Reply) -> (step: Step<GetYubikey, Response>)
        ensures
            step@ == self@.next(reply@),
    {
        match (self, reply) {
            (GetYubikey::Admitting { admission, user_id }, reply) => GetYubikey::after_admission(
                admission.resume(reply),
                user_id,
            ),
            (GetYubikey::Finding, Reply::TwoFactor(Ok(Some(record)))) => Step::done(
                Response::YubiKey { enabled: true, keys: read_devices(record.data.as_str()) },
            ),
            (GetYubikey::Finding, Reply::TwoFactor(Ok(None))) => Step::done(
                Response::YubiKey { enabled: false, keys: devices_or_none(None) },
            ),
            (GetYubikey::Finding, Reply::TwoFactor(Err(e))) => Step::fail(e.of_row()),
            _ => Step::fail(AppError::Internal),
        }
    }
}

} // verus!
