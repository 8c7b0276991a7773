use synnapse::date::{parse, parse_date, parse_with_time};
use synnapse::db::{DbConnection, DbError};
use synnapse::entries::{create_entry, parse_action, APIEntry, CreateEntryReply};
use synnapse::guard::{ApiKey, UnAuthorizedError};
use synnapse::interactions::entries::EntriesInteractor;
use synnapse::interactions::password_reset::PasswordResetTokenInteractor;
use synnapse::interactions::permissions::PermissionsInteractor;
use synnapse::interactions::person::PersonInteractor;
use synnapse::models::{Action, Entry, PasswordResetToken, Permissions, Person, Role};
use synnapse::req_logger::ReqLogger;

#[test]
fn date_time_formats_are_read() {
    assert_eq!(parse_with_time("2023/05/12 14:30:00"), Some(1683901800));
    assert_eq!(parse_with_time("05/12/2023 14:30:00"), Some(1683901800));
    assert_eq!(parse_with_time("12.05.2023 14:30:00"), Some(1683901800));
    assert_eq!(parse_with_time("2023-05-12"), None);
    assert_eq!(parse_with_time("yesterday"), None);
}

#[test]
fn dates_are_read_as_days_and_midnights() {
    assert_eq!(parse_date("2023-05-12"), Some(738652));
    assert_eq!(parse_date("12-05-2023"), Some(738652));
    assert_eq!(parse_date("1970-01-01"), Some(719163));
    assert_eq!(parse_date("nope"), None);
    assert_eq!(parse("2023-05-12"), Some(1683849600));
    assert_eq!(parse("2023-05-12 14:30:00"), Some(1683901800));
    assert_eq!(parse("1969-12-31"), Some(-86400));
    assert_eq!(parse("garbage"), None);
}

#[test]
fn actions_are_read_in_any_case() {
    assert_eq!(parse_action("ENTRADA"), Some(Action::Enter));
    assert_eq!(parse_action("Enter"), Some(Action::Enter));
    assert_eq!(parse_action("SaLiDa"), Some(Action::Exit));
    assert_eq!(parse_action("exit"), Some(Action::Exit));
    assert_eq!(parse_action("leave"), None);
}

#[test]
fn entries_are_recorded_and_queried() {
    let mut conn = DbConnection::new();
    let bad = APIEntry { person_id: "p1".to_string(), action: "jump".to_string() };
    let r = create_entry(&mut conn, &bad);
    assert_eq!(r, CreateEntryReply::InvalidAction);
    assert_eq!(r.body(), "{\"status\": \"error\", \"message\": \"Invalid  Action\"}");
    assert!(conn.entries.is_empty());

    let good = APIEntry { person_id: "p1".to_string(), action: "Entrada".to_string() };
    let r = create_entry(&mut conn, &good);
    assert_eq!(r, CreateEntryReply::Created(1));
    assert_eq!(r.body(), "1");
    assert_eq!(conn.entries.len(), 1);
    assert_eq!(conn.entries[0].action, "Enter");

    let early = Entry::new_with_timestamp("p2", Action::Exit, 1683901800);
    let late = Entry::new_with_timestamp("p2", Action::Enter, 1683936000);
    assert_eq!(EntriesInteractor::new(&mut conn, &early), Ok(1));
    assert_eq!(EntriesInteractor::new(&mut conn, &late), Ok(1));
    assert_eq!(EntriesInteractor::new(&mut conn, &late), Err(DbError::UniqueViolation));

    let by_day = EntriesInteractor::get_by_date_and_p_id(&mut conn, "2023-05-12", "p2").unwrap();
    assert_eq!(by_day.len(), 1);
    assert_eq!(by_day[0].id, early.id);
    assert!(EntriesInteractor::get_by_date(&mut conn, "someday").is_err());
    assert_eq!(EntriesInteractor::get_by_p_id(&mut conn, "p2").unwrap().len(), 2);
    assert_eq!(EntriesInteractor::get_by_action(&mut conn, "Enter").unwrap().len(), 2);
    assert_eq!(EntriesInteractor::get_by_action_and_p_id(&mut conn, "Exit", "p2").unwrap().len(), 1);
    assert_eq!(EntriesInteractor::delete(&mut conn, &early.id), Ok(1));
    assert_eq!(EntriesInteractor::get(&mut conn).unwrap().len(), 2);
    assert_eq!(EntriesInteractor::get_by_id(&mut conn, &early.id).err(), Some(DbError::NotFound));
}

#[test]
fn people_and_permissions_tables() {
    let mut conn = DbConnection::new();
    let p = Person::new("Ana", "Ruiz", "ana@x.com", Role::Profesor, None, Some("g-1"));
    assert_eq!(p.id.len(), 36);
    assert_eq!(p.role, "Profesor");
    assert_eq!(PersonInteractor::new(&mut conn, &p), Ok(1));
    assert_eq!(PersonInteractor::new(&mut conn, &p), Err(DbError::UniqueViolation));
    assert_eq!(PersonInteractor::get_by_email(&mut conn, "ana@x.com").unwrap().id, p.id);
    assert_eq!(PersonInteractor::get_by_google_id(&mut conn, "g-1").unwrap().id, p.id);
    assert!(PersonInteractor::get_by_google_id(&mut conn, "g-2").is_err());

    let mut changes = p.duplicate();
    changes.name = "Anna".to_string();
    changes.id = "ignored".to_string();
    assert_eq!(PersonInteractor::update(&mut conn, &p.id, &changes), Ok(1));
    let back = PersonInteractor::get_by_id(&mut conn, &p.id).unwrap();
    assert_eq!(back.name, "Anna");
    assert_eq!(back.id, p.id);

    let linked = PersonInteractor::update_google_id(&mut conn, &p.id, "g-9").unwrap();
    assert_eq!(linked.google_id.as_deref(), Some("g-9"));
    assert_eq!(linked.name, "Anna");

    let perm = Permissions::new(&p.id, true, false, true, false, false);
    assert_eq!(PermissionsInteractor::new(&mut conn, &perm), Ok(1));
    let mut perm_changes = perm.duplicate();
    perm_changes.admin_panel = true;
    assert_eq!(PermissionsInteractor::update(&mut conn, &perm.id, &perm_changes), Ok(1));
    let of_person = PermissionsInteractor::get_by_p_id(&mut conn, &p.id).unwrap();
    assert_eq!(of_person.len(), 1);
    assert!(of_person[0].admin_panel);
    assert_eq!(PermissionsInteractor::delete(&mut conn, &perm.id), Ok(1));
    assert!(PermissionsInteractor::get_by_id(&mut conn, &perm.id).is_err());
    assert_eq!(PersonInteractor::delete(&mut conn, &p.id), Ok(1));
    assert_eq!(PersonInteractor::get(&mut conn).unwrap().len(), 0);
}

#[test]
fn reset_tokens_are_alphanumeric_and_expire() {
    let t = PasswordResetToken::generate_token();
    assert_eq!(t.len(), 32);
    assert!(t.chars().all(|c| c.is_ascii_alphanumeric()));
    assert_ne!(PasswordResetToken::generate_token(), t);

    let tok = PasswordResetToken::new_at("a@x.com", 1, 1000);
    assert_eq!(tok.expires_at, 4600);
    assert!(tok.is_valid_at(4599));
    assert!(!tok.is_valid_at(4600));
    assert!(PasswordResetToken::new("a@x.com", 1).is_valid());

    let mut conn = DbConnection::new();
    let stored = PasswordResetTokenInteractor::create_at(&mut conn, "a@x.com", 1000).unwrap();
    let stale = PasswordResetTokenInteractor::create_at(&mut conn, "b@x.com", 0).unwrap();
    assert_eq!(PasswordResetTokenInteractor::delete_expired_at(&mut conn, 4000), Ok(1));
    assert_eq!(PasswordResetTokenInteractor::find_by_token(&mut conn, &stored.token).unwrap().id, stored.id);
    assert!(PasswordResetTokenInteractor::find_by_token(&mut conn, &stale.token).is_err());
    assert_eq!(PasswordResetTokenInteractor::delete_by_token(&mut conn, &stored.token), Ok(1));
    assert!(conn.tokens.is_empty());
}

#[test]
fn guard_checks_the_key() {
    assert!(ApiKey::from_request(Some("1"), None, "k", "/a").is_ok());
    assert!(ApiKey::from_request(Some("0"), Some("k"), "k", "/a").is_ok());
    let missing = ApiKey::from_request(None, None, "k", "/api/auth/login").err().unwrap();
    assert_eq!(missing.route, "/api/auth/login");
    let wrong = ApiKey::from_request(Some("0"), Some("x"), "k", "/b").err().unwrap();
    assert_eq!(wrong.to_string(), "Unauthorized access to route: /b");
    assert_eq!(UnAuthorizedError::new("/c").description(), "Unauthorized access attempted");
}

#[test]
fn request_log_lines() {
    assert_eq!(ReqLogger::request_id("GET", "/health", Some("10.0.0.1")), "GET /health 10.0.0.1");
    assert_eq!(ReqLogger::request_id("GET", "/health", None), "GET /health unknown");
    assert_eq!(
        ReqLogger::response_line("POST", "/x", None, "200 OK", Some(1207)),
        "POST /x unknown 200 OK 1207ms"
    );
    assert_eq!(ReqLogger::response_line("POST", "/x", Some("ip"), "404 Not Found", None), "POST /x ip 404 Not Found");
}

#[test]
fn permission_flags_are_written_back() {
    let mut conn = DbConnection::new();
    let mut perm = Permissions::new("p1", true, false, false, false, false);
    assert_eq!(PermissionsInteractor::new(&mut conn, &perm), Ok(1));
    perm.admin_panel = true;
    perm.person_id = "someone else".to_string();
    perm.update(&mut conn);
    let stored = PermissionsInteractor::get_by_id(&mut conn, &perm.id).unwrap();
    assert!(stored.admin_panel);
    assert!(stored.dashboard);
    assert_eq!(stored.person_id, "p1");
}

#[test]
fn emails_stay_unique() {
    let mut conn = DbConnection::new();
    let a = Person::new("Ana", "Ruiz", "ana@x.com", Role::Alumno, None, Some("g-1"));
    let b = Person::new("Bea", "Gil", "ana@x.com", Role::Alumno, None, Some("g-2"));
    assert_eq!(PersonInteractor::new(&mut conn, &a), Ok(1));
    assert_eq!(PersonInteractor::new(&mut conn, &b), Err(DbError::UniqueViolation));
    let c = Person::new("Cai", "Paz", "cai@x.com", Role::Alumno, None, None);
    assert_eq!(PersonInteractor::new(&mut conn, &c), Ok(1));
    let mut changes = c.duplicate();
    changes.email = "ana@x.com".to_string();
    assert_eq!(PersonInteractor::update(&mut conn, &c.id, &changes), Err(DbError::UniqueViolation));
    assert_eq!(PersonInteractor::get_by_id(&mut conn, &c.id).unwrap().email, "cai@x.com");
    changes.email = "cai@y.com".to_string();
    assert_eq!(PersonInteractor::update(&mut conn, &c.id, &changes), Ok(1));
    assert_eq!(conn.persons.len(), 2);
}

#[test]
fn negative_lifetime_gives_an_expired_token() {
    let tok = PasswordResetToken::new_at("a@x.com", -1, 10_000);
    assert_eq!(tok.expires_at, 6400);
    assert!(!tok.is_valid_at(10_000));
    assert!(!PasswordResetToken::new("a@x.com", -2).is_valid());
}
