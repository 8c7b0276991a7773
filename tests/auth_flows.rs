use synnapse::auth::{
    change_password, finish_forgot_password, forgot_password, link_google_account, login, register,
    reset_password, set_password, verify_reset_token, ChangePassword, ChangePasswordReply,
    ForgotPasswordReply, ForgotPasswordStep, LinkGoogleAccount, LinkGoogleReply, Login, LoginReply,
    PasswordReset, PasswordResetRequest, PasswordResetVerify, Register, RegisterReply,
    ResetPasswordReply, SetPassword, SetPasswordReply, VerifyResetReply,
};
use pbkdf2::password_hash::rand_core::OsRng;
use pbkdf2::password_hash::{PasswordHasher, SaltString};
use pbkdf2::{Params, Pbkdf2};
use synnapse::db::DbConnection;
use synnapse::interactions::person::PersonInteractor;
use synnapse::models::{Person, Role};
use synnapse::google_auth::{
    google_login, google_register, update_google_id, GoogleLogin, GoogleLoginReply, GoogleRegister,
    GoogleRegisterReply, UpdateGoogleId, UpdateGoogleIdReply,
};

fn local(email: &str, password: &str) -> Register {
    Register {
        name: "Ada".to_string(),
        surname: "Lovelace".to_string(),
        email: email.to_string(),
        password: Some(password.to_string()),
        google_id: None,
    }
}

/// Stores an account whose password hash uses few PBKDF2 rounds, so that
/// checking it is quick; the library reads the rounds from the hash itself.
fn quick_account(conn: &mut DbConnection, email: &str, password: &str) {
    let salt = SaltString::generate(&mut OsRng);
    let params = Params { rounds: 1000, output_length: 32 };
    let hash = Pbkdf2
        .hash_password_customized(password.as_bytes(), None, None, params, &salt)
        .unwrap()
        .to_string();
    let p = Person::new("Ada", "Lovelace", email, Role::Alumno, Some(&hash), None);
    assert_eq!(PersonInteractor::new(conn, &p), Ok(1));
}

fn login_with(conn: &mut DbConnection, email: &str, password: &str) -> LoginReply {
    login(conn, &Login { email: email.to_string(), password: password.to_string() })
}

const NOW: i64 = 1_700_000_000;

#[test]
fn register_login_change_password_scenario() {
    let mut conn = DbConnection::new();
    assert_eq!(register(&mut conn, &local("a@x.com", "pw1")), RegisterReply::Registered);
    assert_eq!(login_with(&mut conn, "a@x.com", "pw1"), LoginReply::Accepted);
    assert_eq!(login_with(&mut conn, "a@x.com", "wrong"), LoginReply::InvalidPassword);
}

#[test]
fn register_login_change_password_scenario_after_change() {
    let mut conn = DbConnection::new();
    quick_account(&mut conn, "a@x.com", "pw1");
    assert_eq!(login_with(&mut conn, "a@x.com", "pw1"), LoginReply::Accepted);
    let change = ChangePassword {
        email: "a@x.com".to_string(),
        old_password: "pw1".to_string(),
        new_password: "pw2".to_string(),
    };
    assert_eq!(change_password(&mut conn, &change), ChangePasswordReply::Changed);
    assert_eq!(login_with(&mut conn, "a@x.com", "pw1"), LoginReply::InvalidPassword);
    assert_eq!(login_with(&mut conn, "a@x.com", "pw2"), LoginReply::Accepted);
}

#[test]
fn registration_stores_person_and_default_permissions() {
    let mut conn = DbConnection::new();
    assert_eq!(register(&mut conn, &local("a@x.com", "pw1")), RegisterReply::Registered);
    assert_eq!(conn.persons.len(), 1);
    assert_eq!(conn.persons[0].role, "Alumno");
    assert_eq!(conn.permissions.len(), 1);
    let p = &conn.permissions[0];
    assert_eq!(p.person_id, conn.persons[0].id);
    assert!(p.dashboard && !p.see_self_history && p.see_others_history && !p.admin_panel && !p.edit_permissions);
    assert_eq!(
        RegisterReply::Registered.body(),
        "{\"status\":\"ok\",\"message\":\"User registered successfully\"}"
    );
}

#[test]
fn registering_an_email_twice_is_refused() {
    let mut conn = DbConnection::new();
    assert_eq!(register(&mut conn, &local("a@x.com", "pw1")), RegisterReply::Registered);
    let again = register(&mut conn, &local("a@x.com", "other"));
    assert_eq!(again, RegisterReply::EmailTaken);
    assert_eq!(again.body(), "{\"status\":\"error\",\"message\":\"Email already registered\"}");
    assert_eq!(conn.persons.len(), 1);
    assert_eq!(conn.permissions.len(), 1);
}

#[test]
fn registration_with_google_identity_conflicts() {
    let mut conn = DbConnection::new();
    let mut req = local("a@x.com", "pw1");
    req.password = None;
    req.google_id = Some("g-1".to_string());
    assert_eq!(register(&mut conn, &req), RegisterReply::Registered);
    assert!(conn.persons[0].password_hash.is_none());
    assert_eq!(register(&mut conn, &req), RegisterReply::GoogleAccountRegistered);
    let mut req2 = local("b@x.com", "pw");
    assert_eq!(register(&mut conn, &req2), RegisterReply::Registered);
    req2.google_id = Some("g-2".to_string());
    assert_eq!(register(&mut conn, &req2), RegisterReply::ExistsWithoutGoogleId);
    assert!(conn.persons[1].google_id.is_none());
    assert_eq!(conn.persons.len(), 2);
}

#[test]
fn login_outcomes() {
    let mut conn = DbConnection::new();
    assert_eq!(login_with(&mut conn, "none@x.com", "pw"), LoginReply::InvalidEmail);
    assert_eq!(LoginReply::InvalidEmail.body(), "{\"status\":\"error\",\"message\":\"Invalid Email\"}");
    let g = GoogleRegister {
        google_id: "g-1".to_string(),
        email: "s@x.com".to_string(),
        name: "S".to_string(),
        surname: "T".to_string(),
    };
    assert!(matches!(google_register(&mut conn, &g), GoogleRegisterReply::Created(_)));
    assert_eq!(login_with(&mut conn, "s@x.com", "pw"), LoginReply::SocialLoginOnly);
    assert_eq!(LoginReply::Accepted.body(), "{\"status\":\"ok\"}");
}

#[test]
fn reset_token_is_valid_until_it_expires() {
    let mut conn = DbConnection::new();
    quick_account(&mut conn, "a@x.com", "pw1");
    let step = forgot_password(&mut conn, &PasswordResetRequest { email: "a@x.com".to_string() }, NOW);
    let token = match step {
        ForgotPasswordStep::SendEmail { email, token } => {
            assert_eq!(email, "a@x.com");
            token
        }
        other => panic!("unexpected {:?}", other),
    };
    let verify = PasswordResetVerify { token: token.clone() };
    assert_eq!(verify_reset_token(&mut conn, &verify, NOW), VerifyResetReply::Valid);
    assert_eq!(verify_reset_token(&mut conn, &verify, NOW + 3599), VerifyResetReply::Valid);
    assert_eq!(conn.tokens.len(), 1);
    assert_eq!(verify_reset_token(&mut conn, &verify, NOW + 3600), VerifyResetReply::Expired);
    assert!(conn.tokens.is_empty());
    assert_eq!(verify_reset_token(&mut conn, &verify, NOW), VerifyResetReply::Invalid);
    assert_eq!(VerifyResetReply::Valid.body(), "{\"status\":\"ok\",\"valid\":true}");
    assert_eq!(
        VerifyResetReply::Invalid.body(),
        "{\"status\":\"ok\",\"valid\":false,\"message\":\"Invalid token\"}"
    );
}

#[test]
fn forgot_password_does_not_reveal_accounts() {
    let mut conn = DbConnection::new();
    quick_account(&mut conn, "real@x.com", "pw1");
    let missing = forgot_password(&mut conn, &PasswordResetRequest { email: "nonexistent@x.com".to_string() }, NOW);
    let missing_body = match missing {
        ForgotPasswordStep::Reply(r) => r.body(),
        other => panic!("unexpected {:?}", other),
    };
    assert!(conn.tokens.is_empty());
    let known = forgot_password(&mut conn, &PasswordResetRequest { email: "real@x.com".to_string() }, NOW);
    assert!(matches!(known, ForgotPasswordStep::SendEmail { .. }));
    let known_body = finish_forgot_password(true).body();
    assert_eq!(missing_body, known_body);
    assert_eq!(known_body, "{\"status\":\"ok\",\"message\":\"Password reset email sent\"}");
    assert_eq!(finish_forgot_password(false), ForgotPasswordReply::EmailSendFailed);
}

#[test]
fn forgot_password_sweeps_expired_tokens() {
    let mut conn = DbConnection::new();
    quick_account(&mut conn, "a@x.com", "pw1");
    let req = PasswordResetRequest { email: "a@x.com".to_string() };
    forgot_password(&mut conn, &req, NOW);
    forgot_password(&mut conn, &req, NOW + 7200);
    assert_eq!(conn.tokens.len(), 1);
    assert_eq!(conn.tokens[0].created_at, NOW + 7200);
}

#[test]
fn reset_password_changes_password_once() {
    let mut conn = DbConnection::new();
    quick_account(&mut conn, "a@x.com", "old");
    let token = match forgot_password(&mut conn, &PasswordResetRequest { email: "a@x.com".to_string() }, NOW) {
        ForgotPasswordStep::SendEmail { token, .. } => token,
        other => panic!("unexpected {:?}", other),
    };
    let reset = PasswordReset { token: token.clone(), new_password: "new".to_string() };
    assert_eq!(reset_password(&mut conn, &reset, NOW + 10), ResetPasswordReply::Reset);
    assert_eq!(login_with(&mut conn, "a@x.com", "new"), LoginReply::Accepted);
    assert_eq!(login_with(&mut conn, "a@x.com", "old"), LoginReply::InvalidPassword);
    assert_eq!(reset_password(&mut conn, &reset, NOW + 20), ResetPasswordReply::InvalidToken);
}

#[test]
fn reset_password_with_expired_token() {
    let mut conn = DbConnection::new();
    quick_account(&mut conn, "a@x.com", "old");
    let token = match forgot_password(&mut conn, &PasswordResetRequest { email: "a@x.com".to_string() }, NOW) {
        ForgotPasswordStep::SendEmail { token, .. } => token,
        other => panic!("unexpected {:?}", other),
    };
    let reset = PasswordReset { token, new_password: "new".to_string() };
    assert_eq!(reset_password(&mut conn, &reset, NOW + 3600), ResetPasswordReply::TokenExpired);
    assert!(conn.tokens.is_empty());
    assert_eq!(ResetPasswordReply::TokenExpired.body(), "{\"status\":\"error\",\"message\":\"Token expired\"}");
}

#[test]
fn set_password_outcomes() {
    let mut conn = DbConnection::new();
    let req = SetPassword { email: "a@x.com".to_string(), new_password: "pw".to_string() };
    assert_eq!(set_password(&mut conn, &req), SetPasswordReply::UserNotFound);
    let mut g = local("a@x.com", "x");
    g.password = None;
    g.google_id = Some("g".to_string());
    register(&mut conn, &g);
    assert_eq!(set_password(&mut conn, &req), SetPasswordReply::PasswordSet);
    assert_eq!(login_with(&mut conn, "a@x.com", "pw"), LoginReply::Accepted);
}

#[test]
fn change_password_refusals() {
    let mut conn = DbConnection::new();
    let mut req = ChangePassword {
        email: "a@x.com".to_string(),
        old_password: "pw1".to_string(),
        new_password: "pw2".to_string(),
    };
    assert_eq!(change_password(&mut conn, &req), ChangePasswordReply::UserNotFound);
    let mut g = local("a@x.com", "x");
    g.password = None;
    g.google_id = Some("g".to_string());
    register(&mut conn, &g);
    assert_eq!(change_password(&mut conn, &req), ChangePasswordReply::NoPasswordSet);
    quick_account(&mut conn, "b@x.com", "pw1");
    req.email = "b@x.com".to_string();
    req.old_password = "nope".to_string();
    assert_eq!(change_password(&mut conn, &req), ChangePasswordReply::WrongPassword);
    assert_eq!(
        ChangePasswordReply::WrongPassword.body(),
        "{\"status\":\"error\",\"message\":\"Current password is incorrect\"}"
    );
}

#[test]
fn linking_to_a_taken_google_email_is_refused() {
    let mut conn = DbConnection::new();
    quick_account(&mut conn, "a@x.com", "pw");
    quick_account(&mut conn, "b@gmail.com", "pw");
    let req = LinkGoogleAccount {
        email: "a@x.com".to_string(),
        google_email: "b@gmail.com".to_string(),
        password: "pw".to_string(),
    };
    let before: Vec<String> = conn.persons.iter().map(|p| p.email.clone()).collect();
    assert_eq!(link_google_account(&mut conn, &req), LinkGoogleReply::AlreadyLinked);
    let after: Vec<String> = conn.persons.iter().map(|p| p.email.clone()).collect();
    assert_eq!(before, after);
}

#[test]
fn linking_a_google_email() {
    let mut conn = DbConnection::new();
    quick_account(&mut conn, "a@x.com", "pw");
    let mut req = LinkGoogleAccount {
        email: "a@x.com".to_string(),
        google_email: "a@gmail.com".to_string(),
        password: "bad".to_string(),
    };
    assert_eq!(link_google_account(&mut conn, &req), LinkGoogleReply::WrongPassword);
    req.password = "pw".to_string();
    assert_eq!(link_google_account(&mut conn, &req), LinkGoogleReply::Linked);
    assert_eq!(conn.persons[0].email, "a@gmail.com");
    assert_eq!(link_google_account(&mut conn, &req), LinkGoogleReply::UserNotFound);
}

#[test]
fn google_register_twice_returns_the_same_user() {
    let mut conn = DbConnection::new();
    let req = GoogleRegister {
        google_id: "g-1".to_string(),
        email: "s@x.com".to_string(),
        name: "Sam".to_string(),
        surname: "Roe".to_string(),
    };
    let first = match google_register(&mut conn, &req) {
        GoogleRegisterReply::Created(u) => u,
        other => panic!("unexpected {:?}", other),
    };
    assert_eq!(first.role, "Alumno");
    let p = &conn.permissions[0];
    assert!(p.dashboard && p.see_self_history && !p.see_others_history && !p.admin_panel && !p.edit_permissions);
    let second = match google_register(&mut conn, &req) {
        GoogleRegisterReply::Existing(u) => u,
        other => panic!("unexpected {:?}", other),
    };
    assert_eq!(first.to_json(), second.to_json());
    assert_eq!(conn.persons.len(), 1);
    assert_eq!(conn.permissions.len(), 1);
    let body = GoogleRegisterReply::Existing(second).body();
    assert_eq!(
        body,
        format!(
            "{{\"status\":\"ok\",\"user\":{{\"id\":\"{}\",\"name\":\"Sam\",\"email\":\"s@x.com\",\"role\":\"Alumno\"}}}}",
            first.id
        )
    );
}

#[test]
fn google_login_outcomes() {
    let mut conn = DbConnection::new();
    let by_id = GoogleLogin { google_id: "g-1".to_string(), email: "a@x.com".to_string() };
    assert!(matches!(google_login(&mut conn, &by_id), GoogleLoginReply::UserNotFound));
    quick_account(&mut conn, "a@x.com", "pw");
    match google_login(&mut conn, &by_id) {
        GoogleLoginReply::FoundUnlinked(u) => assert_eq!(u.email, "a@x.com"),
        other => panic!("unexpected {:?}", other),
    }
    let id = conn.persons[0].id.clone();
    let upd = UpdateGoogleId { person_id: id.clone(), google_id: "g-2".to_string() };
    assert_eq!(update_google_id(&mut conn, &upd), UpdateGoogleIdReply::Updated);
    assert!(matches!(google_login(&mut conn, &by_id), GoogleLoginReply::LinkedElsewhere));
    let linked = GoogleLogin { google_id: "g-2".to_string(), email: "z@x.com".to_string() };
    match google_login(&mut conn, &linked) {
        GoogleLoginReply::LoggedIn(u) => assert_eq!(u.id, id),
        other => panic!("unexpected {:?}", other),
    }
    let missing = UpdateGoogleId { person_id: "nobody".to_string(), google_id: "g".to_string() };
    assert_eq!(update_google_id(&mut conn, &missing), UpdateGoogleIdReply::UserNotFound);
    assert_eq!(
        GoogleLoginReply::LinkedElsewhere.body(),
        "{\"status\":\"error\",\"message\":\"Email already linked to a different Google account\"}"
    );
}

#[test]
fn google_register_with_a_taken_email_fails() {
    let mut conn = DbConnection::new();
    quick_account(&mut conn, "s@x.com", "pw");
    let req = GoogleRegister {
        google_id: "g-1".to_string(),
        email: "s@x.com".to_string(),
        name: "Sam".to_string(),
        surname: "Roe".to_string(),
    };
    match google_register(&mut conn, &req) {
        GoogleRegisterReply::PersonCreateFailed(e) => assert_eq!(e, synnapse::db::DbError::UniqueViolation),
        other => panic!("unexpected {:?}", other),
    }
    assert_eq!(conn.persons.len(), 1);
    assert!(conn.permissions.is_empty());
}
