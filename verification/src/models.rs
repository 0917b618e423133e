//! Two-factor records, users, and the bodies of requests.

use vstd::prelude::*;

use crate::text::opt_text;

verus! {

/// Kinds of two-factor records, by their numbers in the Bitwarden API.
#[derive(Debug, Clone, Copy, PartialEq, Eq)]
pub enum TwoFactorType {
    /// Codes of an authenticator app (TOTP).
    Authenticator,
    /// One-time passwords of YubiKeys.
    YubiKey,
    /// A token of a device that need not give a second factor again.
    Remember,
}

impl TwoFactorType {
    /// The number of this kind.
    pub open spec fn number(self) -> i32 {
        match self {
            TwoFactorType::Authenticator => 0,
            TwoFactorType::YubiKey => 3,
            TwoFactorType::Remember => 5,
        }
    }

    /// The number of this kind.
    pub fn as_i32(self) -> (n: i32)
        ensures
            n == self.number(),
    {
        match self {
            TwoFactorType::Authenticator => 0,
            TwoFactorType::YubiKey => 3,
            TwoFactorType::Remember => 5,
        }
    }
}

/// The first number of the records that serve the server itself. They are no second
/// factor of the user's, and are never listed.
pub const FIRST_INTERNAL_TYPE: i32 = 1000;

/// A two-factor record.
#[derive(Debug, PartialEq, Eq)]
pub struct TwoFactor {
    pub uuid: String,
    pub user_uuid: String,
    pub atype: i32,
    pub enabled: bool,
    pub data: String,
    pub last_used: i64,
}

/// What a [`TwoFactor`] holds.
pub struct TwoFactorView {
    pub uuid: Seq<char>,
    pub user_uuid: Seq<char>,
    pub atype: i32,
    pub enabled: bool,
    pub data: Seq<char>,
    pub last_used: i64,
}

impl View for TwoFactor {
    type V = TwoFactorView;

    open spec fn view(&self) -> TwoFactorView {
        TwoFactorView {
            uuid: self.uuid@,
            user_uuid: self.user_uuid@,
            atype: self.atype,
            enabled: self.enabled,
            data: self.data@,
            last_used: self.last_used,
        }
    }
}

/// What a list of records holds.
pub open spec fn record_views(list: Seq<TwoFactor>) -> Seq<TwoFactorView> {
    list.map_values(|record: TwoFactor| record@)
}

/// What an optional record holds.
pub open spec fn opt_record(o: Option<TwoFactor>) -> Option<TwoFactorView> {
    match o {
        Some(record) => Some(record@),
        None => None,
    }
}

impl TwoFactorView {
    /// A new record: enabled, and never used.
    pub open spec fn new(
        uuid: Seq<char>,
        user_uuid: Seq<char>,
        kind: TwoFactorType,
        data: Seq<char>,
    ) -> TwoFactorView {
        TwoFactorView {
            uuid,
            user_uuid,
            atype: kind.number(),
            enabled: true,
            data,
            last_used: 0,
        }
    }

    /// Whether this is a record of that user and of that kind.
    pub open spec fn is_of(self, user_id: Seq<char>, atype: i32) -> bool {
        self.user_uuid == user_id && self.atype == atype
    }
}

impl TwoFactor {
    /// A new record with that identifier: enabled, and never used.
    pub fn with_uuid(uuid: String, user_uuid: String, kind: TwoFactorType, data: String) -> (record:
        TwoFactor)
        ensures
            record@ == TwoFactorView::new(uuid@, user_uuid@, kind, data@),
    {
        TwoFactor { uuid, user_uuid, atype: kind.as_i32(), enabled: true, data, last_used: 0 }
    }
}

/// A list of two-factor records.
#[derive(Debug, PartialEq, Eq)]
pub struct TwoFactorList {
    pub records: Vec<TwoFactor>,
}

impl View for TwoFactorList {
    type V = Seq<TwoFactorView>;

    open spec fn view(&self) -> Seq<TwoFactorView> {
        record_views(self.records@)
    }
}

/// What the two-factor endpoints read of a user.
#[derive(Debug, PartialEq, Eq)]
pub struct User {
    /// The code with which the user gets in without their second factor.
    pub totp_recover: Option<String>,
}

/// What a [`User`] holds.
pub struct UserView {
    pub totp_recover: Option<Seq<char>>,
}

impl View for User {
    type V = UserView;

    open spec fn view(&self) -> UserView {
        UserView { totp_recover: opt_text(self.totp_recover) }
    }
}

/// What an optional user holds.
pub open spec fn opt_user(o: Option<User>) -> Option<UserView> {
    match o {
        Some(user) => Some(user@),
        None => None,
    }
}

/// The proof of identity that goes with a request.
#[derive(Debug, PartialEq, Eq)]
pub struct PasswordOrOtpData {
    pub master_password_hash: Option<String>,
    pub otp: Option<String>,
}

/// A request to activate an authenticator app.
#[derive(Debug, PartialEq, Eq)]
pub struct EnableAuthenticatorData {
    pub key: String,
    pub token: String,
    pub master_password_hash: Option<String>,
    pub otp: Option<String>,
}

/// A request to disable one kind of second factor.
#[derive(Debug, PartialEq, Eq)]
pub struct DisableTwoFactorData {
    pub type_: i32,
    pub master_password_hash: Option<String>,
    pub otp: Option<String>,
}

/// A request to disable the authenticator app that has a given key.
#[derive(Debug, PartialEq, Eq)]
pub struct DisableAuthenticatorData {
    pub type_: i32,
    pub key: String,
    pub master_password_hash: Option<String>,
    pub otp: Option<String>,
}

/// A request to bind up to five YubiKeys, each by its device identifier or by a
/// one-time password.
#[derive(Debug, PartialEq, Eq)]
pub struct EnableYubikeyData {
    pub key1: Option<String>,
    pub key2: Option<String>,
    pub key3: Option<String>,
    pub key4: Option<String>,
    pub key5: Option<String>,
    pub master_password_hash: Option<String>,
}

} // verus!
