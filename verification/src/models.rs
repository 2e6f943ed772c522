//! Plain data carried across the library boundary: requests coming in from a
//! routing layer, responses going back, the stored records, and the payload
//! handed to the outbound delivery collaborator.

use vstd::prelude::*;

verus! {

/// Request naming an account and a shared key.
#[derive(Debug)]
pub struct ProductRequest {
    pub username: String,
    pub shared_key: String,
}

/// Request to start a password reset for the account owning this email.
#[derive(Debug)]
pub struct RequestPassword {
    pub email: String,
}

/// Submission of a one-time code together with the replacement password.
#[derive(Debug)]
pub struct OTPSubmit {
    pub otp: String,
    pub email: String,
    pub password: String,
}

/// The stored reset challenge: the code and the second of its issuance
/// (seconds since the Unix epoch).
#[derive(Debug)]
pub struct OTPData {
    pub otp: String,
    pub date: u64,
}

/// Login request. `version` is the client's version number; logins below the
/// published minimum are rejected regardless of the credentials.
#[derive(Debug)]
pub struct LoginRequest {
    pub username: String,
    pub password: String,
    pub version: u32,
}

/// Successful registration or login: the bearer token and the account name.
#[derive(Debug)]
pub struct LoginResponse {
    pub session_key: String,
    pub username: String,
}

/// Request to read a profile, authorized by a session token.
#[derive(Debug)]
pub struct UserDataRequest {
    pub session_key: String,
    pub username: String,
}

/// The stored session record: the account's single valid bearer token.
#[derive(Debug)]
pub struct SessionData {
    pub session_key: String,
}

/// Registration request.
#[derive(Debug)]
pub struct RegisterUser {
    pub username: String,
    pub email: String,
    pub password: String,
}

/// The profile as shown to its owner.
#[derive(Debug)]
pub struct UserData {
    pub username: String,
    pub email: Option<String>,
    pub avatar: Option<String>,
}

/// The durable credential record of one account. `username` is the canonical
/// (lower-cased) key; `guid` is an opaque identifier minted at creation;
/// `password` holds the hexadecimal digest of the password.
#[derive(Debug)]
pub struct FullUserData {
    pub username: String,
    pub guid: u128,
    pub email: Option<String>,
    pub avatar: Option<String>,
    pub password: String,
}

/// Profile patch, authorized by a session token. Present fields overwrite;
/// absent fields keep their prior value.
#[derive(Debug)]
pub struct UserDataUpdate {
    pub username: String,
    pub new_username: Option<String>,
    pub email: Option<String>,
    pub avatar: Option<String>,
    pub session_key: String,
}

/// Payload for the outbound mail collaborator.
#[derive(Debug)]
pub struct SendGridEmail {
    pub personalizations: Vec<Personalization>,
    pub from: EmailAddress,
    pub template_id: String,
}

/// One recipient block of the mail payload. The template data is a list of
/// key/value pairs in insertion order.
#[derive(Debug)]
pub struct Personalization {
    pub to: Vec<EmailAddress>,
    pub dynamic_template_data: Vec<(String, String)>,
}

/// A bare email address.
#[derive(Debug)]
pub struct EmailAddress {
    pub email: String,
}

/// A rejection message for the routing layer.
#[derive(Debug)]
pub struct CustomRejection(pub String);

/// The views of an optional string.
pub open spec fn opt_view(o: Option<String>) -> Option<Seq<char>> {
    match o {
        Some(s) => Some(s@),
        None => None,
    }
}

/// The mathematical content of a shown profile: username, email and avatar,
/// each as a sequence of characters.
pub open spec fn user_data_model(d: UserData) -> (Seq<char>, Option<Seq<char>>, Option<Seq<char>>) {
    (d.username@, opt_view(d.email), opt_view(d.avatar))
}

} // verus!
