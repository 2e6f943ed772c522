//! End-to-end exercises of the credential core: registration uniqueness,
//! login, sessions, profiles, and the password-reset flow.

use std::collections::HashSet;

use auth_core::errors::{AuthError, ResetOutcome};
use auth_core::models::{
    LoginRequest, OTPSubmit, RegisterUser, RequestPassword, UserDataRequest, UserDataUpdate,
};
use auth_core::store::AuthStore;

fn reg(username: &str, email: &str, password: &str) -> RegisterUser {
    RegisterUser {
        username: username.to_string(),
        email: email.to_string(),
        password: password.to_string(),
    }
}

fn login_req(username: &str, password: &str, version: u32) -> LoginRequest {
    LoginRequest {
        username: username.to_string(),
        password: password.to_string(),
        version,
    }
}

fn store_with_alice() -> AuthStore {
    let mut s = AuthStore::new();
    s.register(reg("alice", "a@x.com", "pw1")).unwrap();
    s
}

#[test]
fn register_distinct_pairs_both_succeed() {
    let mut s = AuthStore::new();
    assert!(s.register(reg("alice", "a@x.com", "pw1")).is_ok());
    assert!(s.register(reg("bob", "b@x.com", "pw2")).is_ok());
}

#[test]
fn register_same_email_conflicts() {
    let mut s = store_with_alice();
    let r = s.register(reg("someoneelse", "a@x.com", "pw2"));
    assert!(matches!(r, Err(AuthError::Conflict)));
}

#[test]
fn register_same_username_conflicts() {
    let mut s = store_with_alice();
    let r = s.register(reg("alice", "other@x.com", "pw2"));
    assert!(matches!(r, Err(AuthError::Conflict)));
}

#[test]
fn register_is_case_insensitive_on_both_keys() {
    let mut s = store_with_alice();
    assert!(matches!(
        s.register(reg("ALICE", "fresh@x.com", "pw2")),
        Err(AuthError::Conflict)
    ));
    assert!(matches!(
        s.register(reg("carol", "A@X.COM", "pw2")),
        Err(AuthError::Conflict)
    ));
}

#[test]
fn register_response_has_empty_session_key() {
    let mut s = AuthStore::new();
    let resp = s.register(reg("alice", "a@x.com", "pw1")).unwrap();
    assert_eq!(resp.session_key, "");
    assert_eq!(resp.username, "alice");
}

#[test]
fn login_with_correct_password_succeeds() {
    let mut s = store_with_alice();
    let resp = s.login(login_req("alice", "pw1", 1)).unwrap();
    assert_eq!(resp.username, "alice");
    assert_eq!(resp.session_key.len(), 32);
}

#[test]
fn login_with_email_identifier_succeeds() {
    let mut s = store_with_alice();
    let resp = s.login(login_req("a@x.com", "pw1", 1)).unwrap();
    assert_eq!(resp.username, "alice");
}

#[test]
fn login_with_wrong_password_is_unauthorized() {
    let mut s = store_with_alice();
    let r = s.login(login_req("alice", "pw2", 1));
    assert!(matches!(r, Err(AuthError::Unauthorized)));
}

#[test]
fn login_with_unknown_account_is_unauthorized() {
    let mut s = store_with_alice();
    assert!(matches!(
        s.login(login_req("mallory", "pw1", 1)),
        Err(AuthError::Unauthorized)
    ));
    assert!(matches!(
        s.login(login_req("nobody@x.com", "pw1", 1)),
        Err(AuthError::Unauthorized)
    ));
}

#[test]
fn login_with_stale_client_is_version_rejected() {
    let mut s = store_with_alice();
    let r = s.login(login_req("alice", "pw1", 0));
    assert!(matches!(r, Err(AuthError::VersionRejected)));
}

#[test]
fn session_tokens_are_fixed_length_alphanumeric_and_distinct() {
    let mut s = store_with_alice();
    let mut seen: HashSet<String> = HashSet::new();
    for _ in 0..10_000 {
        let t = s.issue("alice");
        assert_eq!(t.len(), 32);
        assert!(t.bytes().all(|b| b.is_ascii_alphanumeric()));
        assert!(seen.insert(t), "a session token repeated");
    }
}

#[test]
fn validate_accepts_only_the_latest_token() {
    let mut s = store_with_alice();
    let t1 = s.issue("alice");
    assert!(s.validate("alice", &t1));
    let t2 = s.issue("alice");
    assert!(!s.validate("alice", &t1));
    assert!(s.validate("alice", &t2));
    assert!(!s.validate("alice", "not-a-token"));
    assert!(!s.validate("bob", &t2));
}

#[test]
fn login_invalidates_the_previous_session() {
    let mut s = store_with_alice();
    let first = s.login(login_req("alice", "pw1", 1)).unwrap();
    let second = s.login(login_req("alice", "pw1", 1)).unwrap();
    assert_ne!(first.session_key, second.session_key);
    assert!(!s.validate("alice", &first.session_key));
    assert!(s.validate("alice", &second.session_key));
}

#[test]
fn get_profile_returns_registered_fields() {
    let mut s = store_with_alice();
    let token = s.login(login_req("alice", "pw1", 1)).unwrap().session_key;
    let d = s
        .get_profile(UserDataRequest {
            session_key: token,
            username: "alice".to_string(),
        })
        .unwrap();
    assert_eq!(d.username, "alice");
    assert_eq!(d.email.as_deref(), Some("a@x.com"));
    assert_eq!(d.avatar, None);
}

#[test]
fn get_profile_is_idempotent() {
    let mut s = store_with_alice();
    let token = s.login(login_req("alice", "pw1", 1)).unwrap().session_key;
    let q = || UserDataRequest {
        session_key: token.clone(),
        username: "alice".to_string(),
    };
    let d1 = s.get_profile(q()).unwrap();
    let d2 = s.get_profile(q()).unwrap();
    assert_eq!(d1.username, d2.username);
    assert_eq!(d1.email, d2.email);
    assert_eq!(d1.avatar, d2.avatar);
}

#[test]
fn get_profile_with_bad_token_is_unauthorized() {
    let mut s = store_with_alice();
    s.login(login_req("alice", "pw1", 1)).unwrap();
    let r = s.get_profile(UserDataRequest {
        session_key: "wrong".to_string(),
        username: "alice".to_string(),
    });
    assert!(matches!(r, Err(AuthError::Unauthorized)));
}

#[test]
fn update_profile_overwrites_present_fields_and_keeps_absent_ones() {
    let mut s = store_with_alice();
    let token = s.login(login_req("alice", "pw1", 1)).unwrap().session_key;
    let d = s
        .update_profile(UserDataUpdate {
            username: "alice".to_string(),
            new_username: None,
            email: Some("new@x.com".to_string()),
            avatar: Some("portrait".to_string()),
            session_key: token.clone(),
        })
        .unwrap();
    assert_eq!(d.username, "alice");
    assert_eq!(d.email.as_deref(), Some("new@x.com"));
    assert_eq!(d.avatar.as_deref(), Some("portrait"));
    let again = s
        .get_profile(UserDataRequest {
            session_key: token,
            username: "alice".to_string(),
        })
        .unwrap();
    assert_eq!(again.email.as_deref(), Some("new@x.com"));
    assert_eq!(again.avatar.as_deref(), Some("portrait"));
}

#[test]
fn update_profile_echoes_a_rename_without_moving_the_account() {
    let mut s = store_with_alice();
    let token = s.login(login_req("alice", "pw1", 1)).unwrap().session_key;
    let d = s
        .update_profile(UserDataUpdate {
            username: "alice".to_string(),
            new_username: Some("queen".to_string()),
            email: None,
            avatar: None,
            session_key: token.clone(),
        })
        .unwrap();
    assert_eq!(d.username, "queen");
    // the stored record stays under its canonical key
    let still = s
        .get_profile(UserDataRequest {
            session_key: token,
            username: "alice".to_string(),
        })
        .unwrap();
    assert_eq!(still.username, "alice");
    assert!(s.login(login_req("alice", "pw1", 1)).is_ok());
}

#[test]
fn update_profile_with_bad_token_changes_nothing() {
    let mut s = store_with_alice();
    let token = s.login(login_req("alice", "pw1", 1)).unwrap().session_key;
    let r = s.update_profile(UserDataUpdate {
        username: "alice".to_string(),
        new_username: None,
        email: Some("evil@x.com".to_string()),
        avatar: None,
        session_key: "forged".to_string(),
    });
    assert!(matches!(r, Err(AuthError::Unauthorized)));
    let d = s
        .get_profile(UserDataRequest {
            session_key: token,
            username: "alice".to_string(),
        })
        .unwrap();
    assert_eq!(d.email.as_deref(), Some("a@x.com"));
}

#[test]
fn reset_request_issues_a_four_digit_code() {
    let mut s = store_with_alice();
    let (code, mail) = s
        .request_password_reset_at(
            RequestPassword {
                email: "a@x.com".to_string(),
            },
            1_000,
        )
        .unwrap();
    assert_eq!(code.len(), 4);
    assert!(code.bytes().all(|b| b.is_ascii_digit()));
    assert_eq!(mail.personalizations.len(), 1);
    assert_eq!(mail.personalizations[0].to.len(), 1);
    assert_eq!(mail.personalizations[0].to[0].email, "a@x.com");
    let data = &mail.personalizations[0].dynamic_template_data;
    assert_eq!(data.len(), 3);
    assert_eq!(data[0], ("username".to_string(), "alice".to_string()));
    assert_eq!(data[1], ("otp".to_string(), code.clone()));
    assert_eq!(data[2], ("email".to_string(), "a@x.com".to_string()));
    assert_eq!(mail.from.email, "no-reply@gmail.com");
    let ch = s.read_otp_data("alice").unwrap();
    assert_eq!(ch.otp, code);
    assert_eq!(ch.date, 1_000);
}

#[test]
fn reset_request_for_unknown_email_is_not_found() {
    let mut s = store_with_alice();
    let r = s.request_password_reset_at(
        RequestPassword {
            email: "nobody@x.com".to_string(),
        },
        1_000,
    );
    assert!(matches!(r, Err(AuthError::NotFound)));
}

fn submit(email: &str, otp: &str, password: &str) -> OTPSubmit {
    OTPSubmit {
        otp: otp.to_string(),
        email: email.to_string(),
        password: password.to_string(),
    }
}

#[test]
fn reset_scenario_wrong_then_right_code() {
    let mut s = store_with_alice();
    let (code, _) = s
        .request_password_reset_at(
            RequestPassword {
                email: "a@x.com".to_string(),
            },
            1_000,
        )
        .unwrap();
    let wrong = if code == "0000" { "0001" } else { "0000" };
    let r1 = s
        .verify_password_reset_at(submit("a@x.com", wrong, "pw2"), 1_001)
        .unwrap();
    assert_eq!(r1, ResetOutcome::Invalid);
    // the old password still logs in: nothing changed
    assert!(s.login(login_req("alice", "pw1", 1)).is_ok());
    let r2 = s
        .verify_password_reset_at(submit("a@x.com", &code, "pw2"), 1_002)
        .unwrap();
    assert_eq!(r2, ResetOutcome::Verified);
    assert!(s.login(login_req("alice", "pw2", 1)).is_ok());
    assert!(matches!(
        s.login(login_req("alice", "pw1", 1)),
        Err(AuthError::Unauthorized)
    ));
}

#[test]
fn reset_code_expires_at_the_window() {
    let mut s = store_with_alice();
    let issued = 50_000;
    let (code, _) = s
        .request_password_reset_at(
            RequestPassword {
                email: "a@x.com".to_string(),
            },
            issued,
        )
        .unwrap();
    // exactly two hours later the window is closed (strict inequality)
    let r = s
        .verify_password_reset_at(submit("a@x.com", &code, "pw2"), issued + 7_200)
        .unwrap();
    assert_eq!(r, ResetOutcome::Invalid);
    // one second inside the window it is still open
    let r2 = s
        .verify_password_reset_at(submit("a@x.com", &code, "pw2"), issued + 7_199)
        .unwrap();
    assert_eq!(r2, ResetOutcome::Verified);
}

#[test]
fn reset_verification_consumes_the_challenge() {
    let mut s = store_with_alice();
    let (code, _) = s
        .request_password_reset_at(
            RequestPassword {
                email: "a@x.com".to_string(),
            },
            1_000,
        )
        .unwrap();
    let r = s
        .verify_password_reset_at(submit("a@x.com", &code, "pw2"), 1_001)
        .unwrap();
    assert_eq!(r, ResetOutcome::Verified);
    // the spent code cannot be replayed
    let replay = s.verify_password_reset_at(submit("a@x.com", &code, "pw3"), 1_002);
    assert!(matches!(replay, Err(AuthError::NotFound)));
    assert!(s.login(login_req("alice", "pw2", 1)).is_ok());
}

#[test]
fn reset_against_the_machine_clock_round_trips() {
    let mut s = store_with_alice();
    let (code, _) = s
        .request_password_reset(RequestPassword {
            email: "a@x.com".to_string(),
        })
        .unwrap();
    let r = s
        .verify_password_reset(submit("a@x.com", &code, "pw2"))
        .unwrap();
    assert_eq!(r, ResetOutcome::Verified);
    assert!(s.login(login_req("alice", "pw2", 1)).is_ok());
}
