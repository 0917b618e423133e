use twofactor::error::AppError;
use twofactor::protocol::{Action, Fetched, Reply, Step};
use twofactor::yubico::{
    confirms, device_json, verification_url, verify_yubico_otp, DeviceId, Otp, VerifyOtp,
};

const OTP: &str = "ccccccbcgujhingjrdejhgfnuetrgigvejhhgbkugded";
const FRESH: &str = "01234567-89ab-4cde-8f01-23456789abcd";
const NONCE: &str = "0123456789ab4cde8f0123456789abcd";

fn bad<T>(message: &str) -> Result<T, AppError> {
    Err(AppError::BadRequest(message.to_string()))
}

fn perform(step: Step<VerifyOtp, DeviceId>) -> (VerifyOtp, Action) {
    match step {
        Step::Perform { state, action } => (state, action),
        Step::Finish { .. } => panic!("it finished"),
    }
}

fn finish(step: Step<VerifyOtp, DeviceId>) -> Result<DeviceId, AppError> {
    match step {
        Step::Finish { result } => result,
        Step::Perform { .. } => panic!("it goes on"),
    }
}

fn asking() -> VerifyOtp {
    let (state, action) = perform(verify_yubico_otp(OTP.to_string()));
    assert_eq!(action, Action::ReadVariable { name: "YUBICO_CLIENT_ID".to_string() });
    let (state, action) =
        perform(state.resume_with(Reply::Variable(Some("87".to_string())), FRESH));
    assert_eq!(
        action,
        Action::Fetch {
            url: format!(
                "https://api.yubico.com/wsapi/2.0/verify?id=87&otp={}&nonce={}",
                OTP, NONCE
            )
        }
    );
    state
}

fn body(text: &str) -> Reply {
    Reply::Page(Fetched::Body(Some(text.to_string())))
}

#[test]
fn a_confirmed_password_gives_its_device() {
    let answer = format!("h=x\r\nt=1\r\notp={}\r\nnonce={}\r\nsl=100\r\nstatus=OK\r\n", OTP, NONCE);
    let id = finish(asking().resume_with(body(&answer), FRESH)).unwrap();
    assert_eq!(id.as_str(), "ccccccbcgujh");
}

#[test]
fn an_answer_without_all_parts_is_no_confirmation() {
    let failure = "Yubico verification failed (Invalid OTP or abnormal response)";
    let answers = [
        format!("otp={}\nnonce={}\nstatus=REPLAYED_OTP", OTP, NONCE),
        format!("nonce={}\nstatus=OK", NONCE),
        format!("otp={}\nstatus=OK", OTP),
        format!("otp={}\nnonce={}\nstatus=OK", OTP, "0".repeat(32)),
        format!("otp={}\nnonce={}\nstatus=OK", "c".repeat(44), NONCE),
        String::new(),
    ];
    for answer in answers {
        assert_eq!(finish(asking().resume_with(body(&answer), FRESH)), bad(failure));
    }
    assert_eq!(
        finish(asking().resume_with(Reply::Page(Fetched::Body(None)), FRESH)),
        bad(failure)
    );
}

#[test]
fn a_network_failure_is_reported() {
    assert_eq!(
        finish(asking().resume_with(Reply::Page(Fetched::Failed), FRESH)),
        bad("Yubico verification network timeout or exception")
    );
    assert_eq!(
        finish(asking().resume_with(Reply::Page(Fetched::Unsendable), FRESH)),
        Err(AppError::Internal)
    );
}

#[test]
fn a_missing_client_is_reported() {
    let (state, _) = perform(verify_yubico_otp(OTP.to_string()));
    assert_eq!(
        finish(state.resume(Reply::Variable(None))),
        bad("Administrator has not configured this feature")
    );
}

#[test]
fn the_length_of_a_password_is_checked_first() {
    for otp in ["", "cccc", "x", &OTP[1..], &"ä".repeat(44)] {
        assert_eq!(
            finish(verify_yubico_otp(otp.to_string())),
            bad("Invalid YubiKey OTP format, expected 44 characters")
        );
    }
}

#[test]
fn only_modhex_is_a_password() {
    for otp in ["a".repeat(44), "ä".repeat(22), format!("{}&", &OTP[1..]), OTP.to_uppercase()] {
        assert_eq!(
            finish(verify_yubico_otp(otp)),
            bad("YubiKey OTP contains invalid characters")
        );
    }
}

#[test]
fn a_reply_to_another_action_is_an_internal_error() {
    let (state, _) = perform(verify_yubico_otp(OTP.to_string()));
    assert_eq!(finish(state.resume(Reply::Written(true))), Err(AppError::Internal));
}

#[test]
fn every_question_has_its_own_nonce() {
    let ask = || {
        let (state, _) = perform(verify_yubico_otp(OTP.to_string()));
        match perform(state.resume(Reply::Variable(Some("1".to_string())))).1 {
            Action::Fetch { url } => url,
            other => panic!("{:?}", other),
        }
    };
    let (first, second) = (ask(), ask());
    let start = format!("https://api.yubico.com/wsapi/2.0/verify?id=1&otp={}&nonce=", OTP);
    assert!(first.starts_with(&start) && second.starts_with(&start));
    let nonce = &first[start.len()..];
    assert_eq!(nonce.len(), 32);
    assert!(nonce.chars().all(|c| matches!(c, '0'..='9' | 'a'..='f')));
    assert_eq!(&nonce[12..13], "4");
    assert!(matches!(&nonce[16..17], "8" | "9" | "a" | "b"));
    assert_ne!(first, second);
}

#[test]
fn addresses_and_confirmations() {
    assert_eq!(
        verification_url("a", "b", "c"),
        "https://api.yubico.com/wsapi/2.0/verify?id=a&otp=b&nonce=c"
    );
    assert!(confirms("status=OKotp=bnonce=c", "b", "c"));
    assert!(!confirms("status=ok otp=b nonce=c", "b", "c"));
    assert!(!confirms("status=OK otp=b nonce=", "b", "c"));
}

#[test]
fn device_identifiers() {
    assert_eq!(DeviceId::parse("cbdefghijkln".to_string()).unwrap().as_str(), "cbdefghijkln");
    assert!(DeviceId::parse("rtuvrtuvrtuv".to_string()).is_some());
    assert!(DeviceId::parse("cbdefghijklm".to_string()).is_none());
    assert!(DeviceId::parse("cbdefghijkl".to_string()).is_none());
    assert!(DeviceId::parse(String::new()).is_none());
    assert_eq!(Otp::parse(OTP.to_string()).unwrap().device_id().as_str(), "ccccccbcgujh");
    assert_eq!(Otp::parse(OTP.to_string()).unwrap().as_str(), OTP);
}

#[test]
fn device_identifiers_are_stored_as_json() {
    let ids = vec![
        DeviceId::parse("cccccccccccb".to_string()).unwrap(),
        DeviceId::parse("cccccccccccd".to_string()).unwrap(),
    ];
    assert_eq!(device_json(&ids).unwrap(), "[\"cccccccccccb\",\"cccccccccccd\"]");
    assert_eq!(device_json(&vec![]).unwrap(), "[]");
}
