//! YubiKeys: device identifiers, one-time passwords, and their check with the
//! verification service of Yubico.

use vstd::prelude::*;
use vstd::string::*;

use crate::error::{AppError, AppErrorView};
use crate::fresh::{is_uuid, new_uuid, remove_hyphens, without_hyphens};
use crate::json::{all_plain, is_plain, strings_to_json, json_strings};
use crate::protocol::{Action, ActionView, Fetched, FetchedView, Reply, ReplyView, Step, StepView};
use crate::text::{
    all_modhex, byte_len, contains, is_all_modhex, is_modhex, len_in_bytes, modhex_is_ascii,
    modhex_letters, occurs, texts,
};

verus! {

/// The length of a device identifier.
pub const DEVICE_ID_LEN: usize = 12;

/// The length of a one-time password.
pub const OTP_LEN: usize = 44;

/// Whether `s` has the form of a device identifier.
pub open spec fn is_device_id(s: Seq<char>) -> bool {
    s.len() == DEVICE_ID_LEN && all_modhex(s)
}

/// Whether `s` has the form of a one-time password.
pub open spec fn is_otp(s: Seq<char>) -> bool {
    s.len() == OTP_LEN && all_modhex(s)
}

/// The identifier of a YubiKey.
#[derive(Debug, PartialEq, Eq)]
pub struct DeviceId {
    text: String,
}

impl View for DeviceId {
    type V = Seq<char>;

    closed spec fn view(&self) -> Seq<char> {
        self.text@
    }
}

impl DeviceId {
    #[verifier::type_invariant]
    spec fn well_formed(self) -> bool {
        is_device_id(self.text@)
    }

    /// `text` as a device identifier, if it has the form of one.
    pub fn parse(text: String) -> (r: Option<DeviceId>)
        ensures
            r is Some <==> is_device_id(text@),
            r matches Some(id) ==> id@ == text@,
    {
        let modhex = is_all_modhex(text.as_str());
        proof {
            if all_modhex(text@) {
                modhex_is_ascii(text@);
            }
        }
        if modhex && len_in_bytes(text.as_str()) == DEVICE_ID_LEN {
            Some(DeviceId { text })
        } else {
            None
        }
    }

    /// The identifier as text.
    pub fn as_str(&self) -> (s: &str)
        ensures
            s@ == self@,
            is_device_id(s@),
    {
        proof {
            use_type_invariant(self);
        }
        self.text.as_str()
    }
}

/// What a list of device identifiers holds.
pub open spec fn device_texts(list: Seq<DeviceId>) -> Seq<Seq<char>> {
    list.map_values(|id: DeviceId| id@)
}

/// Whether all strings of a list are device identifiers.
pub open spec fn all_device_ids(list: Seq<Seq<char>>) -> bool {
    forall|i: int| 0 <= i < list.len() ==> is_device_id(#[trigger] list[i])
}

/// Device identifiers need no escapes in JSON.
pub proof fn device_ids_are_plain(list: Seq<Seq<char>>)
    requires
        all_device_ids(list),
    ensures
        all_plain(list),
{
    assert forall|i: int, j: int|
        0 <= i < list.len() && 0 <= j < list[i].len() implies is_plain(#[trigger] list[i][j]) by {
        assert(is_device_id(list[i]));
        assert(is_modhex(list[i][j]));
        modhex_letters(list[i][j]);
    }
}

/// The device identifiers as strings.
pub fn device_strings(list: &Vec<DeviceId>) -> (r: Vec<String>)
    ensures
        texts(r@) == device_texts(list@),
        all_device_ids(texts(r@)),
{
    let mut r: Vec<String> = Vec::new();
    for i in 0..list.len()
        invariant
            texts(r@) == device_texts(list@).take(i as int),
            all_device_ids(texts(r@)),
    {
        let ghost before = texts(r@);
        let s = list[i].as_str().to_string();
        assert(is_device_id(s@));
        r.push(s);
        assert(texts(r@) == before.push(s@));
    }
    assert(device_texts(list@).take(list@.len() as int) == device_texts(list@));
    r
}

/// The device identifiers as the JSON text in which they are stored.
pub fn device_json(list: &Vec<DeviceId>) -> (r: Result<String, AppError>)
    ensures
        r matches Ok(text) && text@ == json_strings(device_texts(list@)),
{
    let strings = device_strings(list);
    proof {
        device_ids_are_plain(texts(strings@));
    }
    match strings_to_json(&strings) {
        Ok(text) => Ok(text),
        Err(_) => Err(AppError::Internal),
    }
}

/// A one-time password of a YubiKey, not yet checked.
#[derive(Debug, PartialEq, Eq)]
pub struct Otp {
    text: String,
}

impl View for Otp {
    type V = Seq<char>;

    closed spec fn view(&self) -> Seq<char> {
        self.text@
    }
}

/// Why `s` is not a one-time password, if it is none.
pub open spec fn otp_format_error(s: Seq<char>) -> Option<AppErrorView> {
    if byte_len(s) != OTP_LEN {
        Some(AppErrorView::BadRequest("Invalid YubiKey OTP format, expected 44 characters"@))
    } else if !all_modhex(s) {
        Some(AppErrorView::BadRequest("YubiKey OTP contains invalid characters"@))
    } else {
        None
    }
}

/// A text is without an error of format exactly if it is 44 modhex characters.
pub proof fn otp_format(s: Seq<char>)
    ensures
        otp_format_error(s) is None <==> is_otp(s),
{
    if all_modhex(s) {
        modhex_is_ascii(s);
    }
}

impl Otp {
    #[verifier::type_invariant]
    spec fn well_formed(self) -> bool {
        is_otp(self.text@)
    }

    /// `text` as a one-time password. Nothing but modhex gets through, so that the
    /// password can stand in a web address as it is.
    pub fn parse(text: String) -> (r: Result<Otp, AppError>)
        ensures
            match r {
                Ok(otp) => otp_format_error(text@) is None && otp@ == text@,
                Err(e) => otp_format_error(text@) == Some(e@),
            },
    {
        if len_in_bytes(text.as_str()) != OTP_LEN {
            return Err(
                AppError::bad_request("Invalid YubiKey OTP format, expected 44 characters"),
            );
        }
        if !is_all_modhex(text.as_str()) {
            return Err(AppError::bad_request("YubiKey OTP contains invalid characters"));
        }
        proof {
            otp_format(text@);
        }
        Ok(Otp { text })
    }

    /// The password as text.
    pub fn as_str(&self) -> (s: &str)
        ensures
            s@ == self@,
            is_otp(s@),
    {
        proof {
            use_type_invariant(self);
        }
        self.text.as_str()
    }

    /// The identifier of the device that made the password: its first twelve
    /// characters.
    pub fn device_id(&self) -> (id: DeviceId)
        ensures
            id@ == self@.take(DEVICE_ID_LEN as int),
    {
        let s = self.as_str();
        let text = s.substring_char(0, DEVICE_ID_LEN).to_string();
        assert forall|i: int| 0 <= i < text@.len() implies is_modhex(#[trigger] text@[i]) by {
            assert(text@[i] == s@[i]);
        }
        assert(text@ == s@.take(DEVICE_ID_LEN as int));
        DeviceId { text }
    }
}

/// The address that asks Yubico about a one-time password.
pub open spec fn verification_address(
    client_id: Seq<char>,
    otp: Seq<char>,
    nonce: Seq<char>,
) -> Seq<char> {
    "https://api.yubico.com/wsapi/2.0/verify?id="@ + client_id + "&otp="@ + otp + "&nonce="@ + nonce
}

/// The address that asks Yubico about a one-time password.
pub fn verification_url(client_id: &str, otp: &str, nonce: &str) -> (url: String)
    ensures
        url@ == verification_address(client_id@, otp@, nonce@),
{
    let mut url = "https://api.yubico.com/wsapi/2.0/verify?id=".to_string();
    url.append(client_id);
    url.append("&otp=");
    url.append(otp);
    url.append("&nonce=");
    url.append(nonce);
    url
}

/// Whether an answer of Yubico confirms a one-time password: its status is good, and
/// it names the password and the nonce that it was asked with.
pub open spec fn is_confirmed(body: Seq<char>, otp: Seq<char>, nonce: Seq<char>) -> bool {
    &&& occurs("status=OK"@, body)
    &&& occurs("otp="@ + otp, body)
    &&& occurs("nonce="@ + nonce, body)
}

/// Whether an answer of Yubico confirms a one-time password.
pub fn confirms(body: &str, otp: &str, nonce: &str) -> (r: bool)
    ensures
        r == is_confirmed(body@, otp@, nonce@),
{
    let mut otp_part = "otp=".to_string();
    otp_part.append(otp);
    let mut nonce_part = "nonce=".to_string();
    nonce_part.append(nonce);
    contains(body, "status=OK") && contains(body, otp_part.as_str()) && contains(
        body,
        nonce_part.as_str(),
    )
}

/// The device that an answer of the network vouches for.
pub open spec fn verdict(page: FetchedView, otp: Seq<char>, nonce: Seq<char>) -> Result<
    Seq<char>,
    AppErrorView,
> {
    match page {
        FetchedView::Unsendable => Err(AppErrorView::Internal),
        FetchedView::Failed => Err(
            AppErrorView::BadRequest("Yubico verification network timeout or exception"@),
        ),
        FetchedView::Body(text) => {
            let body = text.unwrap_or(Seq::empty());
            if is_confirmed(body, otp, nonce) {
                Ok(otp.take(DEVICE_ID_LEN as int))
            } else {
                Err(
                    AppErrorView::BadRequest(
                        "Yubico verification failed (Invalid OTP or abnormal response)"@,
                    ),
                )
            }
        },
    }
}

/// A check of a one-time password with Yubico. It finishes with the identifier of the
/// device that made the password.
#[derive(Debug, PartialEq, Eq)]
pub enum VerifyOtp {
    /// It waits for the identifier under which Yubico knows this server.
    Configuring { otp: Otp },
    /// It waits for the answer of Yubico.
    Asking { otp: Otp, nonce: String },
}

/// What a [`VerifyOtp`] holds.
pub enum VerifyOtpView {
    Configuring { otp: Seq<char> },
    Asking { otp: Seq<char>, nonce: Seq<char> },
}

impl View for VerifyOtp {
    type V = VerifyOtpView;

    open spec fn view(&self) -> VerifyOtpView {
        match self {
            VerifyOtp::Configuring { otp } => VerifyOtpView::Configuring { otp: otp@ },
            VerifyOtp::Asking { otp, nonce } => VerifyOtpView::Asking { otp: otp@, nonce: nonce@ },
        }
    }
}

impl VerifyOtpView {
    /// The check of `otp` starts with its format.
    pub open spec fn start(otp: Seq<char>) -> StepView<VerifyOtpView, Seq<char>> {
        match otp_format_error(otp) {
            Some(e) => StepView::fail(e),
            None => StepView::Perform {
                state: VerifyOtpView::Configuring { otp },
                action: ActionView::ReadVariable { name: "YUBICO_CLIENT_ID"@ },
            },
        }
    }

    /// The check after a reply, with `fresh` as the identifier of the question.
    pub open spec fn next(self, reply: ReplyView, fresh: Seq<char>) -> StepView<
        VerifyOtpView,
        Seq<char>,
    > {
        match (self, reply) {
            (
                VerifyOtpView::Configuring { otp },
                ReplyView::Variable(Some(client_id)),
            ) => StepView::Perform {
                state: VerifyOtpView::Asking { otp, nonce: without_hyphens(fresh) },
                action: ActionView::Fetch {
                    url: verification_address(client_id, otp, without_hyphens(fresh)),
                },
            },
            (VerifyOtpView::Configuring { .. }, ReplyView::Variable(None)) => StepView::fail(
                AppErrorView::BadRequest("Administrator has not configured this feature"@),
            ),
            (VerifyOtpView::Asking { otp, nonce }, ReplyView::Page(page)) => StepView::Finish {
                result: verdict(page, otp, nonce),
            },
            _ => StepView::fail(AppErrorView::Internal),
        }
    }
}

/// Checks a one-time password with Yubico.
pub fn verify_yubico_otp(otp: String) -> (step: Step<VerifyOtp, DeviceId>)
    ensures
        step@ == VerifyOtpView::start(otp@),
{
    match Otp::parse(otp) {
        Ok(otp) => Step::ask(
            VerifyOtp::Configuring { otp },
            Action::ReadVariable { name: "YUBICO_CLIENT_ID".to_string() },
        ),
        Err(e) => Step::fail(e),
    }
}

impl VerifyOtp {
    /// The check after a reply, with `fresh` as the identifier of the question.
    pub fn resume_with(self, reply: Reply, fresh: &str) -> (step: Step<VerifyOtp, DeviceId>)
        ensures
            step@ == self@.next(reply@, fresh@),
    {
        match (self, reply) {
            (VerifyOtp::Configuring { otp }, Reply::Variable(Some(client_id))) => {
                let nonce = remove_hyphens(fresh);
                let url = verification_url(client_id.as_str(), otp.as_str(), nonce.as_str());
                Step::ask(VerifyOtp::Asking { otp, nonce }, Action::Fetch { url })
            },
            (VerifyOtp::Configuring { .. }, Reply::Variable(None)) => Step::fail(
                AppError::bad_request("Administrator has not configured this feature"),
            ),
            (VerifyOtp::Asking { otp, nonce }, Reply::Page(page)) => VerifyOtp::judge(
                page,
                otp,
                nonce,
            ),
            _ => Step::fail(AppError::Internal),
        }
    }

    /// The end of a check: what the answer of the network says.
    fn judge(page: Fetched, otp: Otp, nonce: String) -> (step: Step<VerifyOtp, DeviceId>)
        ensures
            step@ == (StepView::<VerifyOtpView, Seq<char>>::Finish {
                result: verdict(page@, otp@, nonce@),
            }),
    {
        match page {
            Fetched::Unsendable => Step::fail(AppError::Internal),
            Fetched::Failed => Step::fail(
                AppError::bad_request("Yubico verification network timeout or exception"),
            ),
            Fetched::Body(text) => {
                let body = match text {
                    Some(body) => body,
                    None => String::new(),
                };
                if confirms(body.as_str(), otp.as_str(), nonce.as_str()) {
                    Step::done(otp.device_id())
                } else {
                    Step::fail(
                        AppError::bad_request(
                            "Yubico verification failed (Invalid OTP or abnormal response)",
                        ),
                    )
                }
            },
        }
    }

    /// The check after a reply. Each question to Yubico has an identifier of its own.
    pub fn resume(self, reply: Reply) -> (step: Step<VerifyOtp, DeviceId>)
        ensures
            exists|fresh: Seq<char>|
                is_uuid(fresh) && step@ == #[trigger] self@.next(reply@, fresh),
    {
        let fresh = new_uuid();
        self.resume_with(reply, fresh.as_str())
    }
}

} // verus!
