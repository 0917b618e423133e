use twofactor::error::{AppError, StoreError};
use twofactor::handlers::authenticator::{
    activate_authenticator, activate_authenticator_put, disable_authenticator, get_authenticator,
    ActivateAuthenticator, DisableAuthenticator, GetAuthenticator,
};
use twofactor::handlers::providers::{
    disable_twofactor, disable_twofactor_put, get_recover, get_twofactor, is_twofactor_enabled,
    keep_enabled, list_user_twofactors, DisableTwofactor, GetRecover, GetTwofactor,
    ListTwofactors,
};
use twofactor::handlers::response::Response;
use twofactor::handlers::yubikey::{
    activate_yubikey, devices_or_none, get_yubikey, read_devices, ActivateYubikey, GetYubikey,
};
use twofactor::models::{
    DisableAuthenticatorData, DisableTwoFactorData, EnableAuthenticatorData, EnableYubikeyData,
    PasswordOrOtpData, TwoFactor, TwoFactorList, User,
};
use twofactor::protocol::{Action, Fetched, Reply, Step};
use twofactor::recovery::{
    clear_recovery_if_no_twofactor, generate_recovery_code_for_user, ClearRecovery,
    GenerateRecovery,
};
use twofactor::yubico::{verify_yubico_otp, VerifyOtp};

const KEY: &str = "gezdgnbvgy3tqojqgezdgnbvgy3tqojq";
const UPPER: &str = "GEZDGNBVGY3TQOJQGEZDGNBVGY3TQOJQ";
const OTP: &str = "ccccccbcgujhingjrdejhgfnuetrgigvejhhgbkugded";
const OTP_DEVICE: &str = "ccccccbcgujh";
const OTHER: &str = "cbdefghijkln";

fn s(text: &str) -> String {
    text.to_string()
}

fn copy(r: &TwoFactor) -> TwoFactor {
    TwoFactor {
        uuid: r.uuid.clone(),
        user_uuid: r.user_uuid.clone(),
        atype: r.atype,
        enabled: r.enabled,
        data: r.data.clone(),
        last_used: r.last_used,
    }
}

fn record(uuid: &str, user: &str, atype: i32, data: &str, last_used: i64) -> TwoFactor {
    TwoFactor {
        uuid: s(uuid),
        user_uuid: s(user),
        atype,
        enabled: true,
        data: s(data),
        last_used,
    }
}

/// A server with its database in memory.
struct Server {
    users: Vec<(String, Option<String>)>,
    records: Vec<TwoFactor>,
    password: String,
    within_limit: Option<bool>,
    client_id: Option<String>,
    allow_drift: bool,
    /// The new codes that were made so far.
    codes: usize,
    /// The status in the answers of Yubico.
    status: String,
    /// The place of the action that fails, if one does.
    fails_at: Option<usize>,
    asked: Vec<Action>,
}

fn server() -> Server {
    Server {
        users: vec![(s("alice"), None), (s("bob"), Some(s("BOBCODE")))],
        records: vec![
            record("b0", "bob", 0, "BOBKEY", 7),
            record("b5", "bob", 5, "device", 0),
        ],
        password: s("right"),
        within_limit: None,
        client_id: Some(s("87")),
        allow_drift: false,
        codes: 0,
        status: s("OK"),
        fails_at: None,
        asked: vec![],
    }
}

impl Server {
    fn code(&self, user: &str) -> Option<String> {
        self.users.iter().find(|u| u.0 == user).unwrap().1.clone()
    }

    fn set_code(&mut self, user: &str, code: Option<String>) {
        for u in self.users.iter_mut() {
            if u.0 == user {
                u.1 = code.clone();
            }
        }
    }

    fn of(&self, user: &str, atype: i32) -> Vec<&TwoFactor> {
        self.records.iter().filter(|r| r.user_uuid == user && r.atype == atype).collect()
    }

    fn fail(&self, action: &Action) -> Reply {
        match action {
            Action::CheckRateLimit { .. } => Reply::RateLimit(None),
            Action::OpenDatabase => Reply::Database(Err(AppError::Internal)),
            Action::LoadUser { .. } => Reply::User(Err(StoreError::Query)),
            Action::VerifyPassword { .. } => Reply::Password(Err(AppError::Internal)),
            Action::ListTwoFactors { .. } => Reply::TwoFactors(Err(StoreError::Decode)),
            Action::ListRealTwoFactors { .. } => Reply::TwoFactors(Err(StoreError::Decode)),
            Action::FindTwoFactor { .. } => Reply::TwoFactor(Err(StoreError::Decode)),
            Action::ReadRecoveryCode { .. } => {
                Reply::RecoveryRow(Err(StoreError::Bind(AppError::BadRequest(s("bind")))))
            }
            Action::GenerateSecret => Reply::Secret(Err(AppError::Internal)),
            Action::DecodeKey { .. } => Reply::Key(Err(AppError::BadRequest(s("base32")))),
            Action::ReadDriftSetting => Reply::DriftSetting(false),
            Action::ValidateCode { .. } => Reply::Code(Err(AppError::BadRequest(s("code")))),
            Action::GenerateRecoveryCode => Reply::RecoveryCode(Err(AppError::Internal)),
            Action::ReadVariable { .. } => Reply::Variable(None),
            Action::Fetch { .. } => Reply::Page(Fetched::Failed),
            _ => Reply::Written(false),
        }
    }

    fn perform(&mut self, action: Action) -> Reply {
        let place = self.asked.len();
        let reply = if self.fails_at == Some(place) {
            self.fail(&action)
        } else {
            self.obey(&action)
        };
        self.asked.push(action);
        reply
    }

    fn obey(&mut self, action: &Action) -> Reply {
        match action {
            Action::CheckRateLimit { limiter, key } => {
                assert_eq!(limiter, "LOGIN_RATE_LIMITER");
                assert!(key.starts_with("2fa-check:"));
                Reply::RateLimit(self.within_limit)
            }
            Action::OpenDatabase => Reply::Database(Ok(())),
            Action::LoadUser { user_id } => {
                let found = self.users.iter().find(|u| u.0 == *user_id);
                Reply::User(Ok(found.map(|u| User { totp_recover: u.1.clone() })))
            }
            Action::VerifyPassword { password_hash } => {
                Reply::Password(Ok(*password_hash == self.password))
            }
            Action::ListTwoFactors { user_id } => Reply::TwoFactors(Ok(self
                .records
                .iter()
                .filter(|r| r.user_uuid == *user_id && r.atype < 1000)
                .map(copy)
                .collect())),
            Action::ListRealTwoFactors { user_id } => Reply::TwoFactors(Ok(self
                .records
                .iter()
                .filter(|r| r.user_uuid == *user_id && r.atype < 1000 && r.atype != 5)
                .map(copy)
                .collect())),
            Action::FindTwoFactor { user_id, atype } => {
                Reply::TwoFactor(Ok(self.of(user_id, *atype).first().map(|r| copy(r))))
            }
            Action::DeleteByType { user_id, atype } => {
                self.records.retain(|r| !(r.user_uuid == *user_id && r.atype == *atype));
                Reply::Written(true)
            }
            Action::DeleteByTypes { user_id, first, second } => {
                self.records.retain(|r| {
                    !(r.user_uuid == *user_id && (r.atype == *first || r.atype == *second))
                });
                Reply::Written(true)
            }
            Action::DeleteByUuid { uuid } => {
                self.records.retain(|r| r.uuid != *uuid);
                Reply::Written(true)
            }
            Action::Insert { record } => {
                self.records.push(copy(record));
                Reply::Written(true)
            }
            Action::ReplaceByType { user_id, atype, record } => {
                self.records.retain(|r| !(r.user_uuid == *user_id && r.atype == *atype));
                self.records.push(copy(record));
                Reply::Written(true)
            }
            Action::ReadRecoveryCode { user_id } => {
                let found = self.users.iter().find(|u| u.0 == *user_id);
                Reply::RecoveryRow(Ok(found.map(|u| {
                    let text = match &u.1 {
                        Some(code) => format!("{{\"totp_recover\":\"{}\"}}", code),
                        None => s("{\"totp_recover\":null}"),
                    };
                    serde_json::from_str(&text).unwrap()
                })))
            }
            Action::SetRecoveryCode { user_id, code } => {
                self.set_code(user_id, Some(code.clone()));
                Reply::Written(true)
            }
            Action::ClearRecoveryCode { user_id } => {
                self.set_code(user_id, None);
                Reply::Written(true)
            }
            Action::GenerateSecret => Reply::Secret(Ok(s("NEWSECRET"))),
            Action::DecodeKey { key } => Reply::Key(Ok(vec![0; key.len() * 5 / 8])),
            Action::ReadDriftSetting => Reply::DriftSetting(self.allow_drift),
            Action::ValidateCode { token, last_used, allow_drift, .. } => {
                assert_eq!(*allow_drift, self.allow_drift);
                let step: i64 = token.parse().unwrap();
                if step > *last_used {
                    Reply::Code(Ok(step))
                } else {
                    Reply::Code(Err(AppError::BadRequest(s("used"))))
                }
            }
            Action::GenerateRecoveryCode => {
                self.codes += 1;
                Reply::RecoveryCode(Ok(match self.codes {
                    1 => s("NEWCODE"),
                    n => format!("NEWCODE{}", n),
                }))
            }
            Action::ReadVariable { name } => {
                assert_eq!(name, "YUBICO_CLIENT_ID");
                Reply::Variable(self.client_id.clone())
            }
            Action::Fetch { url } => {
                let query = url.split_once("&").unwrap().1.replace("&", "\n");
                Reply::Page(Fetched::Body(Some(format!("{}\nstatus={}", query, self.status))))
            }
        }
    }

    fn drive<S, T>(
        &mut self,
        mut step: Step<S, T>,
        resume: impl Fn(S, Reply) -> Step<S, T>,
    ) -> Result<T, AppError> {
        self.asked = vec![];
        loop {
            match step {
                Step::Finish { result } => return result,
                Step::Perform { state, action } => step = resume(state, self.perform(action)),
            }
        }
    }

    fn get_twofactor(&mut self, user: &str) -> Result<TwoFactorList, AppError> {
        self.drive(get_twofactor(s(user)), GetTwofactor::resume)
    }

    fn get_authenticator(&mut self, user: &str, password: &str) -> Result<Response, AppError> {
        self.drive(get_authenticator(s(user), credentials(password)), GetAuthenticator::resume)
    }

    fn activate(
        &mut self,
        user: &str,
        password: &str,
        key: &str,
        token: &str,
    ) -> Result<Response, AppError> {
        let data = enable(password, key, token);
        self.drive(activate_authenticator(s(user), data), ActivateAuthenticator::resume)
    }

    fn disable(&mut self, user: &str, password: &str, type_: i32) -> Result<Response, AppError> {
        let data = DisableTwoFactorData {
            type_,
            master_password_hash: credentials(password).master_password_hash,
            otp: None,
        };
        self.drive(disable_twofactor(s(user), data), DisableTwofactor::resume)
    }

    fn disable_app(
        &mut self,
        user: &str,
        password: &str,
        type_: i32,
        key: &str,
    ) -> Result<Response, AppError> {
        let data = DisableAuthenticatorData {
            type_,
            key: s(key),
            master_password_hash: credentials(password).master_password_hash,
            otp: None,
        };
        self.drive(disable_authenticator(s(user), data), DisableAuthenticator::resume)
    }

    fn get_recover(&mut self, user: &str, password: &str) -> Result<Response, AppError> {
        self.drive(get_recover(s(user), credentials(password)), GetRecover::resume)
    }

    fn bind(
        &mut self,
        user: &str,
        password: &str,
        keys: [Option<&str>; 5],
    ) -> Result<Response, AppError> {
        let data = EnableYubikeyData {
            key1: keys[0].map(s),
            key2: keys[1].map(s),
            key3: keys[2].map(s),
            key4: keys[3].map(s),
            key5: keys[4].map(s),
            master_password_hash: credentials(password).master_password_hash,
        };
        self.drive(activate_yubikey(s(user), data), ActivateYubikey::resume)
    }

    fn get_yubikey(&mut self, user: &str, password: &str) -> Result<Response, AppError> {
        self.drive(get_yubikey(s(user), credentials(password)), GetYubikey::resume)
    }
}

/// The proof of identity of a request; none where the password is empty.
fn credentials(password: &str) -> PasswordOrOtpData {
    PasswordOrOtpData {
        master_password_hash: if password.is_empty() { None } else { Some(s(password)) },
        otp: Some(s("123456")),
    }
}

fn enable(password: &str, key: &str, token: &str) -> EnableAuthenticatorData {
    EnableAuthenticatorData {
        key: s(key),
        token: s(token),
        master_password_hash: credentials(password).master_password_hash,
        otp: None,
    }
}

fn app(enabled: bool, key: &str) -> Result<Response, AppError> {
    Ok(Response::Authenticator { enabled, key: s(key) })
}

fn provider(type_: i32) -> Result<Response, AppError> {
    Ok(Response::Provider { enabled: false, type_ })
}

fn keys(enabled: bool, keys: &[&str]) -> Result<Response, AppError> {
    Ok(Response::YubiKey { enabled, keys: keys.iter().map(|k| s(k)).collect() })
}

fn bad<T>(message: &str) -> Result<T, AppError> {
    Err(AppError::BadRequest(s(message)))
}

fn unauthorized<T>(message: &str) -> Result<T, AppError> {
    Err(AppError::Unauthorized(s(message)))
}

#[test]
fn only_an_enabled_app_is_a_second_factor() {
    assert!(!is_twofactor_enabled(&[]));
    assert!(is_twofactor_enabled(&[record("1", "u", 0, "", 0)]));
    assert!(!is_twofactor_enabled(&[record("1", "u", 3, "", 0)]));
    assert!(!is_twofactor_enabled(&[record("1", "u", 5, "", 0), record("2", "u", 5, "", 0)]));
    assert!(!is_twofactor_enabled(&[record("1", "u", 1000, "", 0)]));
    let mut off = record("1", "u", 0, "", 0);
    off.enabled = false;
    assert!(!is_twofactor_enabled(&[off]));
    assert!(is_twofactor_enabled(&[record("1", "u", 5, "", 0), record("2", "u", 0, "", 0)]));
}

#[test]
fn the_list_holds_the_records_of_the_user() {
    let mut server = server();
    server.records.push(record("b1000", "bob", 1000, "", 0));
    let list = server.get_twofactor("bob").unwrap().records;
    assert_eq!(list, vec![record("b0", "bob", 0, "BOBKEY", 7), record("b5", "bob", 5, "device", 0)]);
    assert_eq!(server.get_twofactor("alice").unwrap().records, vec![]);
    assert!(matches!(list_user_twofactors(s("bob")), Step::Perform { .. }));
}

#[test]
fn the_list_holds_enabled_records_only() {
    let mut server = server();
    let off = |uuid: &str, atype: i32| {
        let mut r = record(uuid, "bob", atype, "", 0);
        r.enabled = false;
        r
    };
    server.records.insert(0, off("b1", 1));
    server.records.push(off("b3", 3));
    server.records.push(record("b7", "bob", 7, "", 0));
    let on = vec![
        record("b0", "bob", 0, "BOBKEY", 7),
        record("b5", "bob", 5, "device", 0),
        record("b7", "bob", 7, "", 0),
    ];
    assert_eq!(server.get_twofactor("bob").unwrap().records, on);
    let all = server.drive(list_user_twofactors(s("bob")), ListTwofactors::resume).unwrap();
    assert_eq!(all.records.len(), 5);
    assert_eq!(keep_enabled(all).records, on);
    server.records = vec![off("b0", 0)];
    assert_eq!(server.get_twofactor("bob").unwrap().records, vec![]);
    assert_eq!(keep_enabled(TwoFactorList { records: vec![] }).records, vec![]);
}

#[test]
fn a_list_that_can_not_be_read_is_an_error_of_the_database() {
    let mut server = server();
    server.fails_at = Some(1);
    assert_eq!(server.get_twofactor("bob"), Err(AppError::Database));
    server.fails_at = Some(0);
    assert_eq!(server.get_twofactor("bob"), Err(AppError::Internal));
}

#[test]
fn without_the_right_password_nothing_happens() {
    for password in ["", "wrong"] {
        let mut server = server();
        let refusal = "Invalid password";
        assert_eq!(server.get_authenticator("bob", password), unauthorized(refusal));
        assert_eq!(server.activate("bob", password, KEY, "9"), unauthorized(refusal));
        assert_eq!(server.disable("bob", password, 0), unauthorized(refusal));
        assert_eq!(server.disable_app("bob", password, 0, "BOBKEY"), unauthorized(refusal));
        assert_eq!(server.get_recover("bob", password), unauthorized(refusal));
        let slots = [Some(OTHER), None, None, None, None];
        assert_eq!(server.bind("bob", password, slots), unauthorized(refusal));
        assert_eq!(server.get_yubikey("bob", password), unauthorized(refusal));
        assert_eq!(server.records.len(), 2);
        assert_eq!(server.code("bob"), Some(s("BOBCODE")));
    }
}

#[test]
fn an_unknown_user_is_refused() {
    let mut server = server();
    assert_eq!(server.get_authenticator("eve", "right"), unauthorized("User not found"));
    assert_eq!(server.activate("eve", "right", KEY, "9"), unauthorized("User not found"));
    assert_eq!(server.get_yubikey("eve", "right"), unauthorized("User not found"));
    assert_eq!(server.disable("eve", "right", 0), unauthorized("User not found"));
    assert_eq!(server.disable_app("eve", "right", 0, KEY), unauthorized("User not found"));
    assert_eq!(server.get_recover("eve", "right"), unauthorized("User not found"));
    let slots = [Some(OTHER), None, None, None, None];
    assert_eq!(server.bind("eve", "right", slots), unauthorized("User not found"));
}

#[test]
fn failures_of_admission_are_passed_on() {
    let mut server = server();
    let expected = [Err(AppError::Internal), Err(AppError::Database), Err(AppError::Internal)];
    for (place, error) in expected.into_iter().enumerate() {
        server.fails_at = Some(place);
        assert_eq!(server.get_recover("bob", "right"), error);
    }
}

#[test]
fn guessing_is_limited() {
    let mut server = server();
    let refusal = Err(AppError::TooManyRequests(s(
        "Too many validation attempts. Please try again later.",
    )));
    server.within_limit = Some(false);
    assert_eq!(server.get_yubikey("bob", "right"), refusal);
    assert_eq!(
        server.asked,
        vec![Action::CheckRateLimit { limiter: s("LOGIN_RATE_LIMITER"), key: s("2fa-check:bob") }]
    );
    assert_eq!(server.bind("bob", "right", [None; 5]), refusal);
    assert_eq!(server.asked.len(), 1);
    server.within_limit = Some(true);
    assert_eq!(server.get_yubikey("bob", "right"), keys(false, &[]));
}

#[test]
fn a_new_secret_is_offered_to_a_user_without_an_app() {
    let mut server = server();
    assert_eq!(server.get_authenticator("alice", "right"), app(false, "NEWSECRET"));
    assert_eq!(server.get_authenticator("bob", "right"), app(true, "BOBKEY"));
    server.fails_at = Some(3);
    assert_eq!(server.get_authenticator("bob", "right"), Err(AppError::Internal));
    server.fails_at = Some(4);
    assert_eq!(server.get_authenticator("alice", "right"), Err(AppError::Internal));
}

#[test]
fn an_activation_stores_the_key_in_upper_case() {
    let mut server = server();
    assert_eq!(server.activate("alice", "right", KEY, "9"), app(true, UPPER));
    let stored = server.of("alice", 0);
    assert_eq!(stored.len(), 1);
    assert_eq!(stored[0].data, UPPER);
    assert_eq!(stored[0].last_used, 9);
    assert!(stored[0].enabled);
    assert_eq!(stored[0].uuid.len(), 36);
    assert_eq!(server.code("alice"), Some(s("NEWCODE")));
    assert_eq!(server.get_authenticator("alice", "right"), app(true, UPPER));
    assert!(is_twofactor_enabled(&server.get_twofactor("alice").unwrap().records));
    assert_eq!(server.of("bob", 0).len(), 1);
}

#[test]
fn a_key_and_its_upper_case_are_treated_alike() {
    for (key, token) in [(KEY, "9"), (KEY, "7"), (&KEY[..24], "9")] {
        let mut first = server();
        let mut second = server();
        assert_eq!(
            first.activate("bob", "right", key, token),
            second.activate("bob", "right", &key.to_ascii_uppercase(), token)
        );
        assert_eq!(first.asked.len(), second.asked.len());
        assert_eq!(first.of("bob", 0)[0].data, second.of("bob", 0)[0].data);
        assert_eq!(first.code("bob"), second.code("bob"));
        assert_eq!(
            first.disable_app("bob", "right", 0, key),
            second.disable_app("bob", "right", 0, &key.to_ascii_uppercase())
        );
    }
}

#[test]
fn upper_case_goes_beyond_ascii() {
    let mut server = server();
    let key = "straße-straße-straße-straße";
    assert_eq!(server.activate("alice", "right", key, "9"), bad("Invalid key length"));
    assert_eq!(
        server.asked[3],
        Action::DecodeKey { key: s("STRASSE-STRASSE-STRASSE-STRASSE") }
    );
}

#[test]
fn an_activation_replaces_app_and_remembered_devices() {
    let mut server = server();
    assert_eq!(server.activate("bob", "right", KEY, "8"), app(true, UPPER));
    assert_eq!(server.of("bob", 0).len(), 1);
    assert_eq!(server.of("bob", 5).len(), 0);
    assert_eq!(server.code("bob"), Some(s("BOBCODE")));
}

#[test]
fn a_code_can_not_be_used_twice() {
    let mut server = server();
    assert_eq!(server.activate("bob", "right", KEY, "7"), bad("used"));
    assert_eq!(server.records.len(), 2);
    assert_eq!(server.activate("bob", "right", KEY, "8"), app(true, UPPER));
    assert_eq!(server.activate("bob", "right", KEY, "8"), bad("used"));
    assert_eq!(server.activate("bob", "right", KEY, "9"), app(true, UPPER));
}

#[test]
fn a_secret_has_twenty_bytes() {
    let mut server = server();
    assert_eq!(server.activate("alice", "right", &KEY[..24], "9"), bad("Invalid key length"));
    assert_eq!(server.activate("alice", "right", "", "9"), bad("Invalid key length"));
    server.fails_at = Some(3);
    assert_eq!(server.activate("alice", "right", KEY, "9"), bad("base32"));
}

#[test]
fn failures_of_an_activation_are_passed_on() {
    let expected = [
        (4, Err(AppError::Internal)),
        (6, bad("code")),
        (7, Err(AppError::Database)),
        (8, Err(AppError::Database)),
        (9, bad("bind")),
        (10, Err(AppError::Internal)),
        (11, Err(AppError::Database)),
    ];
    for (place, error) in expected {
        let mut server = server();
        server.fails_at = Some(place);
        assert_eq!(server.activate("alice", "right", KEY, "9"), error);
        assert_eq!(server.code("alice"), None);
    }
}

#[test]
fn an_activation_that_breaks_off_adds_nothing_but_the_app() {
    for (place, apps, devices) in [(6, 1, 1), (7, 1, 1), (8, 0, 0), (9, 1, 0)] {
        let mut server = server();
        server.fails_at = Some(place);
        assert!(server.activate("bob", "right", KEY, "9").is_err());
        assert_eq!(server.of("bob", 0).len(), apps);
        assert_eq!(server.of("bob", 5).len(), devices);
        assert_eq!(server.records.len(), apps + devices);
        assert_eq!(server.code("bob"), Some(s("BOBCODE")));
    }
}

#[test]
fn codes_are_checked_by_the_drift_setting() {
    for allow_drift in [false, true] {
        let mut server = server();
        server.allow_drift = allow_drift;
        assert_eq!(server.activate("bob", "right", KEY, "9"), app(true, UPPER));
        assert_eq!(server.asked[5], Action::ReadDriftSetting);
        assert_eq!(
            server.asked[6],
            Action::ValidateCode { token: s("9"), key: s(UPPER), last_used: 7, allow_drift }
        );
    }
}

#[test]
fn a_recovery_code_is_given_once() {
    let mut server = server();
    let give = |server: &mut Server, user: &str| {
        server.drive(generate_recovery_code_for_user(s(user)), GenerateRecovery::resume)
    };
    assert_eq!(give(&mut server, "alice"), Ok(()));
    assert_eq!(server.code("alice"), Some(s("NEWCODE")));
    assert_eq!(give(&mut server, "alice"), Ok(()));
    assert_eq!(server.code("alice"), Some(s("NEWCODE")));
    assert_eq!(give(&mut server, "bob"), Ok(()));
    assert_eq!(server.code("bob"), Some(s("BOBCODE")));
    assert_eq!(give(&mut server, "eve"), unauthorized("User not found"));
    assert_eq!(server.codes, 1);
}

#[test]
fn a_recovery_code_is_taken_where_no_real_factor_is_left() {
    let mut server = server();
    let clear = |server: &mut Server| {
        server.drive(clear_recovery_if_no_twofactor(s("bob")), ClearRecovery::resume)
    };
    assert_eq!(clear(&mut server), Ok(()));
    assert_eq!(server.code("bob"), Some(s("BOBCODE")));
    server.records.remove(0);
    server.fails_at = Some(0);
    assert_eq!(clear(&mut server), Err(AppError::Database));
    assert_eq!(server.code("bob"), Some(s("BOBCODE")));
    server.fails_at = None;
    assert_eq!(clear(&mut server), Ok(()));
    assert_eq!(server.code("bob"), None);
    assert_eq!(server.records.len(), 1);
}

#[test]
fn a_password_is_checked_from_end_to_end() {
    let mut server = server();
    let id = server.drive(verify_yubico_otp(s(OTP)), VerifyOtp::resume).unwrap();
    assert_eq!(id.as_str(), OTP_DEVICE);
    server.status = s("BAD_OTP");
    assert_eq!(
        server.drive(verify_yubico_otp(s(OTP)), VerifyOtp::resume),
        bad("Yubico verification failed (Invalid OTP or abnormal response)")
    );
}

#[test]
fn put_is_the_same_as_post() {
    assert_eq!(
        activate_authenticator_put(s("bob"), enable("right", KEY, "8")),
        activate_authenticator(s("bob"), enable("right", KEY, "8"))
    );
    let data = || DisableTwoFactorData { type_: 3, master_password_hash: None, otp: None };
    assert_eq!(disable_twofactor_put(s("bob"), data()), disable_twofactor(s("bob"), data()));
}

#[test]
fn the_recovery_code_goes_with_the_last_second_factor() {
    let mut server = server();
    server.records.push(record("b3", "bob", 3, "[]", 0));
    assert_eq!(server.disable("bob", "right", 0), provider(0));
    assert_eq!(server.code("bob"), Some(s("BOBCODE")));
    assert_eq!(server.disable("bob", "right", 3), provider(3));
    assert_eq!(server.code("bob"), None);
    assert_eq!(server.of("bob", 5).len(), 1);
    assert_eq!(server.disable("bob", "right", 77), provider(77));
}

#[test]
fn what_is_disabled_is_gone() {
    let mut server = server();
    assert_eq!(server.disable("bob", "right", 0), provider(0));
    assert_eq!(server.get_authenticator("bob", "right"), app(false, "NEWSECRET"));
    assert!(!is_twofactor_enabled(&server.get_twofactor("bob").unwrap().records));
    let slots = [Some(OTHER), None, None, None, None];
    assert_eq!(server.bind("bob", "right", slots), keys(true, &[OTHER]));
    assert_eq!(server.disable("bob", "right", 3), provider(3));
    assert_eq!(server.get_yubikey("bob", "right"), keys(false, &[]));
}

#[test]
fn failures_of_disabling_are_passed_on() {
    for place in [3, 4, 5] {
        let mut server = server();
        server.fails_at = Some(place);
        assert_eq!(server.disable("bob", "right", 0), Err(AppError::Database));
        assert_eq!(server.code("bob"), Some(s("BOBCODE")));
    }
}

#[test]
fn an_app_is_disabled_with_its_key_in_either_case() {
    let mut server = server();
    assert_eq!(server.activate("bob", "right", KEY, "8"), app(true, UPPER));
    assert_eq!(server.disable_app("bob", "right", 0, KEY), provider(0));
    assert_eq!(server.of("bob", 0).len(), 0);
    assert_eq!(server.code("bob"), None);
    assert_eq!(server.activate("bob", "right", KEY, "8"), app(true, UPPER));
    assert_eq!(server.disable_app("bob", "right", 0, UPPER), provider(0));
}

#[test]
fn an_app_is_not_disabled_with_another_key() {
    let mut server = server();
    assert_eq!(
        server.disable_app("bob", "right", 0, KEY),
        bad("TOTP key does not match recorded value")
    );
    assert_eq!(server.disable_app("alice", "right", 0, KEY), bad("TOTP not configured"));
    assert_eq!(server.disable_app("bob", "right", 3, "BOBKEY"), bad("Invalid two factor type"));
    assert_eq!(server.disable_app("bob", "", 3, "BOBKEY"), bad("Invalid two factor type"));
    assert_eq!(server.records.len(), 2);
    for (place, apps) in [(4, 1), (5, 0), (6, 0)] {
        let mut server = self::server();
        server.fails_at = Some(place);
        assert_eq!(server.disable_app("bob", "right", 0, "bobkey"), Err(AppError::Database));
        assert_eq!(server.of("bob", 0).len(), apps);
        assert_eq!(server.of("bob", 5).len(), 1);
        assert_eq!(server.code("bob"), Some(s("BOBCODE")));
    }
}

#[test]
fn the_recovery_code_is_shown() {
    let mut server = server();
    assert_eq!(
        server.get_recover("bob", "right"),
        Ok(Response::Recover { code: Some(s("BOBCODE")) })
    );
    assert_eq!(server.get_recover("alice", "right"), Ok(Response::Recover { code: None }));
}

#[test]
fn yubikeys_are_bound_in_order_and_once() {
    let mut server = server();
    let slots = [Some(OTP), Some("  "), Some(OTHER), Some(" ccccccbcgujh\n"), None];
    assert_eq!(server.bind("alice", "right", slots), keys(true, &[OTP_DEVICE, OTHER]));
    let stored = server.of("alice", 3);
    assert_eq!(stored.len(), 1);
    assert_eq!(stored[0].data, "[\"ccccccbcgujh\",\"cbdefghijkln\"]");
    assert_eq!(stored[0].last_used, 0);
    assert_eq!(server.code("alice"), Some(s("NEWCODE")));
    assert_eq!(server.get_yubikey("alice", "right"), keys(true, &[OTP_DEVICE, OTHER]));
}

#[test]
fn yubikeys_replace_those_bound_before() {
    let mut server = server();
    server.records.push(record("b3", "bob", 3, "[\"ccccccccccch\"]", 0));
    let slots = [None, None, None, None, Some("\u{3000}cbdefghijkln\u{a0}\t")];
    assert_eq!(server.bind("bob", "right", slots), keys(true, &[OTHER]));
    assert_eq!(server.of("bob", 3).len(), 1);
    assert_eq!(server.get_yubikey("bob", "right"), keys(true, &[OTHER]));
    assert_eq!(server.code("bob"), Some(s("BOBCODE")));
}

#[test]
fn five_yubikeys_fit() {
    let mut server = server();
    let ids = ["cccccccccccb", "cccccccccccc", "cccccccccccd", "ccccccccccce", "cccccccccccf"];
    let slots = ids.map(Some);
    assert_eq!(server.bind("alice", "right", slots), keys(true, &ids));
    assert_eq!(server.get_yubikey("alice", "right"), keys(true, &ids));
}

#[test]
fn some_yubikey_has_to_be_given() {
    let mut server = server();
    let refusal = "At least one YubiKey OTP must be provided.";
    assert_eq!(server.bind("alice", "right", [None; 5]), bad(refusal));
    assert_eq!(server.bind("alice", "right", [Some(" \n"); 5]), bad(refusal));
}

#[test]
fn malformed_yubikeys_are_refused() {
    let cases = [
        ("cbdefghijklm", "Contains invalid YubiKey device ID."),
        ("ääääää", "Contains invalid YubiKey device ID."),
        ("cbdefghijkl", "Invalid YubiKey format, expected 12-char ID or 44-char OTP."),
        ("aaaaaaaaaaaaaaaaaaaaaaaaaaaaaaaaaaaaaaaaaaaa", "YubiKey OTP contains invalid characters"),
    ];
    for (key, message) in cases {
        let mut server = server();
        let slots = [Some(OTHER), Some(OTP), Some(key), None, None];
        assert_eq!(server.bind("alice", "right", slots), bad(message));
        assert_eq!(server.records.len(), 2);
        assert_eq!(server.code("alice"), None);
    }
}

#[test]
fn failures_of_binding_leave_the_old_keys() {
    let expected = [
        (4, bad("Administrator has not configured this feature")),
        (5, bad("Yubico verification network timeout or exception")),
        (6, Err(AppError::Database)),
    ];
    for (place, error) in expected {
        let mut server = server();
        server.records.push(record("b3", "bob", 3, "[\"ccccccccccch\"]", 0));
        server.fails_at = Some(place);
        let slots = [Some(OTP), None, None, None, None];
        assert_eq!(server.bind("bob", "right", slots), error);
        server.fails_at = None;
        assert_eq!(server.get_yubikey("bob", "right"), keys(true, &["ccccccccccch"]));
    }
}

#[test]
fn the_first_key_that_is_refused_is_answered() {
    let failure = "Yubico verification failed (Invalid OTP or abnormal response)";
    let mut server = server();
    server.status = s("REPLAYED_OTP");
    assert_eq!(
        server.bind("bob", "right", [Some(OTHER), Some(OTP), Some("x"), None, None]),
        bad(failure)
    );
    assert_eq!(
        server.bind("bob", "right", [Some(OTHER), Some("x"), Some(OTP), None, None]),
        bad("Invalid YubiKey format, expected 12-char ID or 44-char OTP.")
    );
    server.client_id = None;
    assert_eq!(
        server.bind("bob", "right", [Some(OTP), None, None, None, None]),
        bad("Administrator has not configured this feature")
    );
    assert_eq!(server.records.len(), 2);
    assert_eq!(server.code("bob"), Some(s("BOBCODE")));
}

#[test]
fn unreadable_keys_are_none() {
    let mut server = server();
    server.records.push(record("b3", "bob", 3, "no list", 0));
    assert_eq!(server.get_yubikey("bob", "right"), keys(true, &[]));
    assert_eq!(read_devices("[\"x\", \"y\"]"), vec![s("x"), s("y")]);
    assert_eq!(devices_or_none(None), Vec::<String>::new());
    assert_eq!(devices_or_none(Some(vec![s("y"), s("x")])), vec![s("y"), s("x")]);
    server.fails_at = Some(4);
    assert_eq!(server.get_yubikey("bob", "right"), Err(AppError::Internal));
}

#[test]
fn a_reply_out_of_turn_is_an_internal_error() {
    let step = get_recover(s("bob"), credentials("right"));
    let state = match step {
        Step::Perform { state, .. } => state,
        Step::Finish { .. } => panic!("it finished"),
    };
    assert_eq!(
        state.resume(Reply::Written(true)),
        Step::Finish { result: Err(AppError::Internal) }
    );
}
