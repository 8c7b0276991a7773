//! The records kept by the store: people, their permissions, attendance
//! entries and password-reset tokens.

use vstd::prelude::*;
use crate::support::{clock_now, clone_opt, new_uuid, owned, owned_opt, random_index, TIMESTAMP_BOUND};

verus! {

/// The role a person holds.
#[derive(Debug, Clone, Copy, PartialEq, Eq, Structural)]
pub enum Role {
    Admin,
    Profesor,
    Alumno,
}

/// The text under which a role is stored.
pub open spec fn role_name(r: Role) -> Seq<char> {
    match r {
        Role::Admin => "Admin"@,
        Role::Profesor => "Profesor"@,
        Role::Alumno => "Alumno"@,
    }
}

impl Role {
    /// The stored name of the role.
    pub fn to_string(&self) -> (r: String)
        ensures
            r@ == role_name(*self),
    {
        match self {
            Role::Admin => owned("Admin"),
            Role::Profesor => owned("Profesor"),
            Role::Alumno => owned("Alumno"),
        }
    }
}

/// Whether a person or an entry is arriving or leaving.
#[derive(Debug, Clone, Copy, PartialEq, Eq, Structural)]
pub enum Action {
    Enter,
    Exit,
}

/// The text under which an action is stored.
pub open spec fn action_name(a: Action) -> Seq<char> {
    match a {
        Action::Enter => "Enter"@,
        Action::Exit => "Exit"@,
    }
}

/// A person known to the system. A person logs in with a password, with a
/// Google identity, or with both once they are linked.
pub struct Person {
    pub id: String,
    pub name: String,
    pub surname: String,
    pub email: String,
    pub role: String,
    pub password_hash: Option<String>,
    pub google_id: Option<String>,
}

/// The optional text `o` holds exactly the characters `s`.
pub open spec fn opt_is(o: Option<String>, s: Option<Seq<char>>) -> bool {
    match (o, s) {
        (Some(a), Some(b)) => a@ == b,
        (None, None) => true,
        _ => false,
    }
}

/// The characters of an optional string slice.
pub open spec fn opt_view(o: Option<&str>) -> Option<Seq<char>> {
    match o {
        Some(s) => Some(s@),
        None => None,
    }
}

impl Person {
    /// A new person with a fresh identifier.
    pub fn new(
        name: &str,
        surname: &str,
        email: &str,
        role: Role,
        password_hash: Option<&str>,
        google_id: Option<&str>,
    ) -> (r: Person)
        ensures
            r.id@.len() == 36,
            r.name@ == name@,
            r.surname@ == surname@,
            r.email@ == email@,
            r.role@ == role_name(role),
            opt_is(r.password_hash, opt_view(password_hash)),
            opt_is(r.google_id, opt_view(google_id)),
    {
        Person {
            id: new_uuid(),
            name: owned(name),
            surname: owned(surname),
            email: owned(email),
            role: role.to_string(),
            password_hash: owned_opt(password_hash),
            google_id: owned_opt(google_id),
        }
    }

    /// An exact copy of this record.
    pub fn duplicate(&self) -> (r: Person)
        ensures
            r == *self,
    {
        Person {
            id: self.id.clone(),
            name: self.name.clone(),
            surname: self.surname.clone(),
            email: self.email.clone(),
            role: self.role.clone(),
            password_hash: clone_opt(&self.password_hash),
            google_id: clone_opt(&self.google_id),
        }
    }
}

/// The capabilities granted to one person.
pub struct Permissions {
    pub id: String,
    pub person_id: String,
    pub dashboard: bool,
    pub see_self_history: bool,
    pub see_others_history: bool,
    pub admin_panel: bool,
    pub edit_permissions: bool,
}

impl Permissions {
    /// A new permissions record with a fresh identifier.
    pub fn new(
        person_id: &str,
        dashboard: bool,
        see_self_history: bool,
        see_others_history: bool,
        admin_panel: bool,
        edit_permissions: bool,
    ) -> (r: Permissions)
        ensures
            r.id@.len() == 36,
            r.person_id@ == person_id@,
            r.dashboard == dashboard,
            r.see_self_history == see_self_history,
            r.see_others_history == see_others_history,
            r.admin_panel == admin_panel,
            r.edit_permissions == edit_permissions,
    {
        Permissions {
            id: new_uuid(),
            person_id: owned(person_id),
            dashboard,
            see_self_history,
            see_others_history,
            admin_panel,
            edit_permissions,
        }
    }

    /// An exact copy of this record.
    pub fn duplicate(&self) -> (r: Permissions)
        ensures
            r == *self,
    {
        Permissions {
            id: self.id.clone(),
            person_id: self.person_id.clone(),
            dashboard: self.dashboard,
            see_self_history: self.see_self_history,
            see_others_history: self.see_others_history,
            admin_panel: self.admin_panel,
            edit_permissions: self.edit_permissions,
        }
    }
}

/// One check-in or check-out of a person; `instant` is in seconds since the
/// Unix epoch (UTC).
pub struct Entry {
    pub id: String,
    pub person_id: String,
    pub instant: i64,
    pub action: String,
}

impl Entry {
    /// A new entry stamped with the current time.
    pub fn new(person_id: &str, action: Action) -> (r: Entry)
        ensures
            r.id@.len() == 36,
            -TIMESTAMP_BOUND <= r.instant <= TIMESTAMP_BOUND,
            r.person_id@ == person_id@,
            r.action@ == action_name(action),
    {
        let now = clock_now();
        Entry::new_with_timestamp(person_id, action, now)
    }

    /// A new entry stamped with the given instant.
    pub fn new_with_timestamp(person_id: &str, action: Action, instant: i64) -> (r: Entry)
        ensures
            r.id@.len() == 36,
            r.person_id@ == person_id@,
            r.instant == instant,
            r.action@ == action_name(action),
    {
        let action = match action {
            Action::Enter => owned("Enter"),
            Action::Exit => owned("Exit"),
        };
        Entry { id: new_uuid(), person_id: owned(person_id), instant, action }
    }

    /// An exact copy of this record.
    pub fn duplicate(&self) -> (r: Entry)
        ensures
            r == *self,
    {
        Entry {
            id: self.id.clone(),
            person_id: self.person_id.clone(),
            instant: self.instant,
            action: self.action.clone(),
        }
    }
}

/// Number of characters in a reset token.
pub const TOKEN_LEN: usize = 32;

/// Number of characters a reset token is drawn from.
pub const CHARSET_LEN: usize = 62;

/// Seconds in an hour.
pub const SECONDS_PER_HOUR: i64 = 3600;

/// Largest lifetime, in hours, that a reset token may be given either way,
/// within the range of a time span in milliseconds (`i64`); a negative
/// lifetime gives a token that has already expired.
pub const MAX_EXPIRES_HOURS: i64 = 2_000_000_000_000;

/// The characters a reset token is drawn from: upper-case letters, then
/// lower-case letters, then digits.
pub open spec fn charset_char(i: int) -> char {
    if i < 26 {
        (('A' as int) + i) as char
    } else if i < 52 {
        (('a' as int) + (i - 26)) as char
    } else {
        (('0' as int) + (i - 52)) as char
    }
}

/// An ASCII letter or digit.
pub open spec fn is_token_char(c: char) -> bool {
    ('A' <= c && c <= 'Z') || ('a' <= c && c <= 'z') || ('0' <= c && c <= '9')
}

/// A well-formed reset token: exactly `TOKEN_LEN` letters and digits.
pub open spec fn is_token_shaped(t: Seq<char>) -> bool {
    t.len() == TOKEN_LEN && forall|i: int| 0 <= i < t.len() ==> is_token_char(#[trigger] t[i])
}

/// The character at position `i` of the token alphabet.
fn charset_at(i: usize) -> (c: char)
    requires
        i < CHARSET_LEN,
    ensures
        c == charset_char(i as int),
        is_token_char(c),
{
    if i < 26 {
        ((65u8 + i as u8) as char)
    } else if i < 52 {
        ((97u8 + (i - 26) as u8) as char)
    } else {
        ((48u8 + (i - 52) as u8) as char)
    }
}

/// A password-reset token issued for an email address; it is valid while
/// the current time is before `expires_at` (seconds since the Unix epoch).
pub struct PasswordResetToken {
    pub id: String,
    pub email: String,
    pub token: String,
    pub expires_at: i64,
    pub created_at: i64,
}

/// A token is valid at `now` when it expires strictly later.
pub open spec fn token_valid_at(expires_at: i64, now: i64) -> bool {
    now < expires_at
}

impl PasswordResetToken {
    /// A fresh token for `email`, created now and valid for `expires_hours`.
    pub fn new(email: &str, expires_hours: i64) -> (r: PasswordResetToken)
        requires
            -MAX_EXPIRES_HOURS <= expires_hours <= MAX_EXPIRES_HOURS,
        ensures
            r.id@.len() == 36,
            r.email@ == email@,
            is_token_shaped(r.token@),
            r.expires_at == r.created_at + expires_hours * SECONDS_PER_HOUR,
    {
        let now = clock_now();
        PasswordResetToken::new_at(email, expires_hours, now)
    }

    /// A fresh token for `email`, created at `now` and valid for `expires_hours`.
    pub fn new_at(email: &str, expires_hours: i64, now: i64) -> (r: PasswordResetToken)
        requires
            -MAX_EXPIRES_HOURS <= expires_hours <= MAX_EXPIRES_HOURS,
            -TIMESTAMP_BOUND <= now <= TIMESTAMP_BOUND,
        ensures
            r.id@.len() == 36,
            r.email@ == email@,
            is_token_shaped(r.token@),
            r.created_at == now,
            r.expires_at == now + expires_hours * SECONDS_PER_HOUR,
    {
        let token = PasswordResetToken::generate_token();
        let expires_at = now + expires_hours * SECONDS_PER_HOUR;
        PasswordResetToken { id: new_uuid(), email: owned(email), token, expires_at, created_at: now }
    }

    /// Draws `TOKEN_LEN` characters at random from the letters and digits.
    pub fn generate_token() -> (r: String)
        ensures
            is_token_shaped(r@),
    {
        let mut s = String::new();
        let mut k: usize = 0;
        while k < TOKEN_LEN
            invariant
                k <= TOKEN_LEN,
                s@.len() == k,
                forall|i: int| 0 <= i < s@.len() ==> is_token_char(#[trigger] s@[i]),
            decreases TOKEN_LEN - k,
        {
            let idx = random_index(CHARSET_LEN);
            let c = charset_at(idx);
            s.push(c);
            k = k + 1;
        }
        s
    }

    /// Whether the token is still valid now.
    pub fn is_valid(&self) -> (r: bool)
        ensures
            exists|now: i64|
                -TIMESTAMP_BOUND <= now <= TIMESTAMP_BOUND && r == token_valid_at(self.expires_at, now),
    {
        let now = clock_now();
        self.is_valid_at(now)
    }

    /// Whether the token is still valid at `now`.
    pub fn is_valid_at(&self, now: i64) -> (r: bool)
        ensures
            r == token_valid_at(self.expires_at, now),
    {
        now < self.expires_at
    }

    /// An exact copy of this record.
    pub fn duplicate(&self) -> (r: PasswordResetToken)
        ensures
            r == *self,
    {
        PasswordResetToken {
            id: self.id.clone(),
            email: self.email.clone(),
            token: self.token.clone(),
            expires_at: self.expires_at,
            created_at: self.created_at,
        }
    }
}

} // verus!
