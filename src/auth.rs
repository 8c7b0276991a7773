//! Password-based authentication: login, registration, password change,
//! the password-reset flow and linking an account to a Google email.

use vstd::prelude::*;
use crate::account::{create_account, AccountError};
use crate::crypto::{check_hash, hash_accepts, is_phc_shaped, to_hash};
use crate::db::{
    permissions_has_id, person_has_id, some_permissions_has_uuid, some_person_has_uuid,
    some_token_has_uuid,
    email_conflict, email_held_by_other,
    any_match, first_match, lemma_first_index_spec, person_has_email, person_has_google_id,
    same_tables, token_is, DbConnection, DbError,
    db_error_text,
};
use crate::interactions::password_reset::{token_is_not, token_not_expired, PasswordResetTokenInteractor, TOKEN_LIFETIME_HOURS};
use crate::interactions::person::{persons_updated, PersonInteractor};
use crate::models::{
    is_token_shaped, opt_is, role_name, token_valid_at, PasswordResetToken, Permissions, Person,
    Role, SECONDS_PER_HOUR,
};
use crate::replies::{error_json, error_message, ok_json, ok_message};
use crate::support::{concat, TIMESTAMP_BOUND};

verus! {

/// Credentials of a password login.
pub struct Login {
    pub email: String,
    pub password: String,
}

/// How a password login ended.
#[derive(Debug, Clone, Copy, PartialEq, Eq, Structural)]
pub enum LoginReply {
    Accepted,
    InvalidPassword,
    SocialLoginOnly,
    InvalidEmail,
}

/// The answer to a login with `email` and `password` against the people `persons`.
pub open spec fn login_outcome(persons: Seq<Person>, email: Seq<char>, password: Seq<char>) -> LoginReply {
    match first_match(persons, person_has_email(email)) {
        None => LoginReply::InvalidEmail,
        Some(p) => match p.password_hash {
            None => LoginReply::SocialLoginOnly,
            Some(h) => if hash_accepts(password, h@) {
                LoginReply::Accepted
            } else {
                LoginReply::InvalidPassword
            },
        },
    }
}

pub open spec fn login_json(r: LoginReply) -> Seq<char> {
    match r {
        LoginReply::Accepted => "{\"status\":\"ok\"}"@,
        LoginReply::InvalidPassword => error_json("Invalid Password"@),
        LoginReply::SocialLoginOnly => error_json("This account uses social login"@),
        LoginReply::InvalidEmail => error_json("Invalid Email"@),
    }
}

impl LoginReply {
    /// The JSON answer.
    pub fn body(&self) -> (r: String)
        ensures
            r@ == login_json(*self),
    {
        match self {
            LoginReply::Accepted => "{\"status\":\"ok\"}".to_owned(),
            LoginReply::InvalidPassword => error_message("Invalid Password"),
            LoginReply::SocialLoginOnly => error_message("This account uses social login"),
            LoginReply::InvalidEmail => error_message("Invalid Email"),
        }
    }
}

/// Checks a password login: the account is looked up by email, and must
/// have a password that matches.
pub fn login(conn: &mut DbConnection, req: &Login) -> (r: LoginReply)
    ensures
        same_tables(final(conn), old(conn)),
        r == login_outcome(old(conn).persons@, req.email@, req.password@),
{
    match PersonInteractor::get_by_email(conn, req.email.as_str()) {
        Ok(person) => match &person.password_hash {
            Some(password_hash) => {
                if check_hash(req.password.as_str(), password_hash.as_str()) {
                    LoginReply::Accepted
                } else {
                    LoginReply::InvalidPassword
                }
            },
            None => LoginReply::SocialLoginOnly,
        },
        Err(_) => LoginReply::InvalidEmail,
    }
}

/// A registration request; a password, a Google identity, or both.
pub struct Register {
    pub name: String,
    pub surname: String,
    pub email: String,
    pub password: Option<String>,
    pub google_id: Option<String>,
}

/// How a registration ended.
#[derive(Debug, Clone, Copy, PartialEq, Eq, Structural)]
pub enum RegisterReply {
    GoogleAccountRegistered,
    ExistsWithoutGoogleId,
    EmailTaken,
    PersonCreateFailed(DbError),
    PermissionsCreateFailed(DbError),
    Registered,
}

pub open spec fn register_json(r: RegisterReply) -> Seq<char> {
    match r {
        RegisterReply::GoogleAccountRegistered => error_json("Google account already registered"@),
        RegisterReply::ExistsWithoutGoogleId => ok_json(
            "User already exists but does not have a Google ID."@,
        ),
        RegisterReply::EmailTaken => error_json("Email already registered"@),
        RegisterReply::PersonCreateFailed(e) => error_json(
            "Failed to create user: "@ + db_error_text(e),
        ),
        RegisterReply::PermissionsCreateFailed(e) => error_json(
            "Failed to create permissions: "@ + db_error_text(e),
        ),
        RegisterReply::Registered => ok_json("User registered successfully"@),
    }
}

impl RegisterReply {
    /// The JSON answer.
    pub fn body(&self) -> (r: String)
        ensures
            r@ == register_json(*self),
    {
        match self {
            RegisterReply::GoogleAccountRegistered => error_message("Google account already registered"),
            RegisterReply::ExistsWithoutGoogleId => ok_message(
                "User already exists but does not have a Google ID.",
            ),
            RegisterReply::EmailTaken => error_message("Email already registered"),
            RegisterReply::PersonCreateFailed(e) => {
                let m = concat("Failed to create user: ", e.to_string().as_str());
                error_message(m.as_str())
            },
            RegisterReply::PermissionsCreateFailed(e) => {
                let m = concat("Failed to create permissions: ", e.to_string().as_str());
                error_message(m.as_str())
            },
            RegisterReply::Registered => ok_message("User registered successfully"),
        }
    }
}

/// The optional characters of an optional string.
pub open spec fn opt_chars(o: Option<String>) -> Option<Seq<char>> {
    match o {
        Some(s) => Some(s@),
        None => None,
    }
}

/// Which answer a registration gets before anything is written, if it is
/// refused: a known Google identity, then a known email.
pub open spec fn register_refusal(persons: Seq<Person>, req: Register) -> Option<RegisterReply> {
    if req.google_id.is_some() && any_match(persons, person_has_google_id(req.google_id.unwrap()@)) {
        Some(RegisterReply::GoogleAccountRegistered)
    } else {
        match first_match(persons, person_has_email(req.email@)) {
            Some(p) => if req.google_id.is_some() && p.google_id.is_none() {
                Some(RegisterReply::ExistsWithoutGoogleId)
            } else {
                Some(RegisterReply::EmailTaken)
            },
            None => None,
        }
    }
}

/// `p` is a newly registered student built from `req`: its password, if
/// any, is stored as a hash that accepts it.
pub open spec fn is_new_student(p: Person, req: Register) -> bool {
    &&& p.name@ == req.name@
    &&& p.surname@ == req.surname@
    &&& p.email@ == req.email@
    &&& p.role@ == role_name(Role::Alumno)
    &&& p.id@.len() == 36
    &&& p.password_hash.is_some() == req.password.is_some()
    &&& req.password.is_some() ==> hash_accepts(req.password.unwrap()@, p.password_hash.unwrap()@)
        && is_phc_shaped(p.password_hash.unwrap()@)
    &&& opt_is(p.google_id, opt_chars(req.google_id))
}

/// The default permissions of a person who registered with a password:
/// the dashboard and the history of others.
pub open spec fn is_local_default(q: Permissions, p: Person) -> bool {
    &&& q.person_id@ == p.id@
    &&& q.dashboard
    &&& !q.see_self_history
    &&& q.see_others_history
    &&& !q.admin_panel
    &&& !q.edit_permissions
}

/// The last person and the last permissions of `new` were just added to
/// `old`, as a registration of `req` adds them.
pub open spec fn registered(old: &DbConnection, new: &DbConnection, req: Register) -> bool {
    &&& new.persons@.len() == old.persons@.len() + 1
    &&& new.permissions@.len() == old.permissions@.len() + 1
    &&& new.persons@ == old.persons@.push(new.persons@.last())
    &&& new.permissions@ == old.permissions@.push(new.permissions@.last())
    &&& new.entries@ == old.entries@
    &&& new.tokens@ == old.tokens@
    &&& is_new_student(new.persons@.last(), req)
    &&& is_local_default(new.permissions@.last(), new.persons@.last())
}

/// Registers a person with a password and/or a Google identity, together
/// with their default permissions, or neither of them.
pub fn register(conn: &mut DbConnection, req: &Register) -> (r: RegisterReply)
    ensures
        old(conn).wf() ==> final(conn).wf(),
        match register_refusal(old(conn).persons@, *req) {
            Some(refusal) => r == refusal && same_tables(final(conn), old(conn)),
            None => match r {
                RegisterReply::Registered => registered(old(conn), final(conn), *req),
                RegisterReply::PersonCreateFailed(e) => e == DbError::UniqueViolation
                    && same_tables(final(conn), old(conn)),
                RegisterReply::PermissionsCreateFailed(e) => e == DbError::UniqueViolation
                    && same_tables(final(conn), old(conn)),
                _ => false,
            },
        },
        r matches RegisterReply::PersonCreateFailed(_) ==> some_person_has_uuid(old(conn).persons@),
        r matches RegisterReply::PermissionsCreateFailed(_) ==> some_permissions_has_uuid(
            old(conn).permissions@,
        ),
{
    let ghost persons0 = conn.persons@;
    let ghost permissions0 = conn.permissions@;
    proof {
        lemma_first_index_spec(conn.persons@, person_has_email(req.email@));
        if req.google_id.is_some() {
            lemma_first_index_spec(conn.persons@, person_has_google_id(req.google_id.unwrap()@));
        }
    }
    if let Some(g_id) = &req.google_id {
        if PersonInteractor::get_by_google_id(conn, g_id.as_str()).is_ok() {
            return RegisterReply::GoogleAccountRegistered;
        }
    }
    if let Ok(existing_user) = PersonInteractor::get_by_email(conn, req.email.as_str()) {
        if req.google_id.is_some() {
            if existing_user.google_id.is_none() {
                // Linking is left to the dedicated flow: only report the account.
                return RegisterReply::ExistsWithoutGoogleId;
            }
        }
        return RegisterReply::EmailTaken;
    }
    let password_hash: Option<String> = match &req.password {
        Some(p) => Some(to_hash(p.as_str())),
        None => None,
    };
    let person = Person::new(
        req.name.as_str(),
        req.surname.as_str(),
        req.email.as_str(),
        Role::Alumno,
        match &password_hash {
            Some(h) => Some(h.as_str()),
            None => None,
        },
        match &req.google_id {
            Some(g) => Some(g.as_str()),
            None => None,
        },
    );
    let permissions = Permissions::new(person.id.as_str(), true, false, true, false, false);
    match create_account(conn, &person, &permissions) {
        Ok(_) => RegisterReply::Registered,
        Err(AccountError::Person(e)) => {
            proof {
                let w = choose|w: int| 0 <= w < persons0.len() && person_has_id(person.id@)(#[trigger] persons0[w]);
                assert(persons0[w].id@.len() == 36);
            }
            RegisterReply::PersonCreateFailed(e)
        },
        Err(AccountError::Permissions(e)) => {
            proof {
                let w = choose|w: int| 0 <= w < permissions0.len() && permissions_has_id(permissions.id@)(#[trigger] permissions0[w]);
                assert(permissions0[w].id@.len() == 36);
            }
            RegisterReply::PermissionsCreateFailed(e)
        },
    }
}

/// `p` with its password hash replaced by `h`.
pub open spec fn with_password_hash(p: Person, h: String) -> Person {
    Person { password_hash: Some(h), ..p }
}

/// `new` is the people table `old` after the rows of `p` got a fresh hash
/// of `password`.
pub open spec fn password_replaced(old: Seq<Person>, new: Seq<Person>, p: Person, password: Seq<
    char,
>) -> bool {
    exists|h: String|
        hash_accepts(password, h@) && is_phc_shaped(h@) && new == persons_updated(
            old,
            p.id@,
            #[trigger] with_password_hash(p, h),
        )
}

/// Stores a fresh hash of `password` on every row of `person`; this fails,
/// writing nothing, only when another person holds `person`'s email.
fn replace_password(conn: &mut DbConnection, person: Person, password: &str) -> (r: Result<
    usize,
    DbError,
>)
    ensures
        old(conn).wf() ==> final(conn).wf(),
        email_conflict(old(conn).persons@, person.id@, person.email@) ==> r.is_err() && same_tables(
            final(conn),
            old(conn),
        ),
        !email_conflict(old(conn).persons@, person.id@, person.email@) ==> {
            &&& r.is_ok()
            &&& password_replaced(old(conn).persons@, final(conn).persons@, person, password@)
            &&& final(conn).permissions@ == old(conn).permissions@
            &&& final(conn).entries@ == old(conn).entries@
            &&& final(conn).tokens@ == old(conn).tokens@
        },
{
    let new_hash = to_hash(password);
    let ghost h = new_hash;
    let changed = Person { password_hash: Some(new_hash), ..person };
    let r = PersonInteractor::update(conn, changed.id.as_str(), &changed);
    assert(changed == with_password_hash(person, h));
    r
}

/// A password change: the current password must be given.
pub struct ChangePassword {
    pub email: String,
    pub old_password: String,
    pub new_password: String,
}

/// How a password change ended.
#[derive(Debug, Clone, Copy, PartialEq, Eq, Structural)]
pub enum ChangePasswordReply {
    Changed,
    WrongPassword,
    NoPasswordSet,
    UpdateFailed,
    UserNotFound,
}

pub open spec fn change_password_json(r: ChangePasswordReply) -> Seq<char> {
    match r {
        ChangePasswordReply::Changed => ok_json("Password changed successfully"@),
        ChangePasswordReply::WrongPassword => error_json("Current password is incorrect"@),
        ChangePasswordReply::NoPasswordSet => error_json("No password set for this account"@),
        ChangePasswordReply::UpdateFailed => error_json("Failed to update password"@),
        ChangePasswordReply::UserNotFound => error_json("User not found"@),
    }
}

impl ChangePasswordReply {
    /// The JSON answer.
    pub fn body(&self) -> (r: String)
        ensures
            r@ == change_password_json(*self),
    {
        match self {
            ChangePasswordReply::Changed => ok_message("Password changed successfully"),
            ChangePasswordReply::WrongPassword => error_message("Current password is incorrect"),
            ChangePasswordReply::NoPasswordSet => error_message("No password set for this account"),
            ChangePasswordReply::UpdateFailed => error_message("Failed to update password"),
            ChangePasswordReply::UserNotFound => error_message("User not found"),
        }
    }
}

/// The answer to a password change of `req` against the people `persons`.
pub open spec fn change_password_outcome(persons: Seq<Person>, req: ChangePassword) -> ChangePasswordReply {
    match first_match(persons, person_has_email(req.email@)) {
        None => ChangePasswordReply::UserNotFound,
        Some(p) => match p.password_hash {
            None => ChangePasswordReply::NoPasswordSet,
            Some(h) => if !hash_accepts(req.old_password@, h@) {
                ChangePasswordReply::WrongPassword
            } else if email_conflict(persons, p.id@, p.email@) {
                ChangePasswordReply::UpdateFailed
            } else {
                ChangePasswordReply::Changed
            },
        },
    }
}

/// Changes the password of the account with the given email, once the
/// current password has been checked.
pub fn change_password(conn: &mut DbConnection, req: &ChangePassword) -> (r: ChangePasswordReply)
    ensures
        old(conn).wf() ==> final(conn).wf(),
        r == change_password_outcome(old(conn).persons@, *req),
        r == ChangePasswordReply::Changed ==> {
            &&& password_replaced(
                old(conn).persons@,
                final(conn).persons@,
                first_match(old(conn).persons@, person_has_email(req.email@)).unwrap(),
                req.new_password@,
            )
            &&& final(conn).permissions@ == old(conn).permissions@
            &&& final(conn).entries@ == old(conn).entries@
            &&& final(conn).tokens@ == old(conn).tokens@
        },
        r != ChangePasswordReply::Changed ==> same_tables(final(conn), old(conn)),
{
    match PersonInteractor::get_by_email(conn, req.email.as_str()) {
        Ok(person) => {
            match &person.password_hash {
                Some(password_hash) => {
                    if !check_hash(req.old_password.as_str(), password_hash.as_str()) {
                        return ChangePasswordReply::WrongPassword;
                    }
                },
                None => {
                    return ChangePasswordReply::NoPasswordSet;
                },
            }
            match replace_password(conn, person, req.new_password.as_str()) {
                Ok(_) => ChangePasswordReply::Changed,
                Err(_) => ChangePasswordReply::UpdateFailed,
            }
        },
        Err(_) => ChangePasswordReply::UserNotFound,
    }
}

/// Setting a password without the current one (an administrative path).
pub struct SetPassword {
    pub email: String,
    pub new_password: String,
}

/// How setting a password ended.
#[derive(Debug, Clone, Copy, PartialEq, Eq, Structural)]
pub enum SetPasswordReply {
    PasswordSet,
    UpdateFailed,
    UserNotFound,
}

pub open spec fn set_password_json(r: SetPasswordReply) -> Seq<char> {
    match r {
        SetPasswordReply::PasswordSet => ok_json("Password set successfully"@),
        SetPasswordReply::UpdateFailed => error_json("Failed to set password"@),
        SetPasswordReply::UserNotFound => error_json("User not found"@),
    }
}

impl SetPasswordReply {
    /// The JSON answer.
    pub fn body(&self) -> (r: String)
        ensures
            r@ == set_password_json(*self),
    {
        match self {
            SetPasswordReply::PasswordSet => ok_message("Password set successfully"),
            SetPasswordReply::UpdateFailed => error_message("Failed to set password"),
            SetPasswordReply::UserNotFound => error_message("User not found"),
        }
    }
}

/// Sets the password of the account with the given email.
pub fn set_password(conn: &mut DbConnection, req: &SetPassword) -> (r: SetPasswordReply)
    ensures
        old(conn).wf() ==> final(conn).wf(),
        match first_match(old(conn).persons@, person_has_email(req.email@)) {
            None => r == SetPasswordReply::UserNotFound && same_tables(final(conn), old(conn)),
            Some(p) => if email_conflict(old(conn).persons@, p.id@, p.email@) {
                r == SetPasswordReply::UpdateFailed && same_tables(final(conn), old(conn))
            } else {
                &&& r == SetPasswordReply::PasswordSet
                &&& password_replaced(old(conn).persons@, final(conn).persons@, p, req.new_password@)
                &&& final(conn).permissions@ == old(conn).permissions@
                &&& final(conn).entries@ == old(conn).entries@
                &&& final(conn).tokens@ == old(conn).tokens@
            },
        },
{
    match PersonInteractor::get_by_email(conn, req.email.as_str()) {
        Ok(person) => match replace_password(conn, person, req.new_password.as_str()) {
            Ok(_) => SetPasswordReply::PasswordSet,
            Err(_) => SetPasswordReply::UpdateFailed,
        },
        Err(_) => SetPasswordReply::UserNotFound,
    }
}

/// Linking a password account to a Google email; the password confirms
/// that the caller owns the account.
pub struct LinkGoogleAccount {
    pub email: String,
    pub google_email: String,
    pub password: String,
}

/// How linking an account ended.
#[derive(Debug, Clone, Copy, PartialEq, Eq, Structural)]
pub enum LinkGoogleReply {
    Linked,
    WrongPassword,
    NoPasswordSet,
    AlreadyLinked,
    LinkFailed,
    UserNotFound,
}

pub open spec fn link_google_json(r: LinkGoogleReply) -> Seq<char> {
    match r {
        LinkGoogleReply::Linked => ok_json("Google account linked successfully"@),
        LinkGoogleReply::WrongPassword => error_json("Password is incorrect"@),
        LinkGoogleReply::NoPasswordSet => error_json("This account has no password set"@),
        LinkGoogleReply::AlreadyLinked => error_json(
            "This Google account is already linked to another user"@,
        ),
        LinkGoogleReply::LinkFailed => error_json("Failed to link account"@),
        LinkGoogleReply::UserNotFound => error_json("User not found"@),
    }
}

impl LinkGoogleReply {
    /// The JSON answer.
    pub fn body(&self) -> (r: String)
        ensures
            r@ == link_google_json(*self),
    {
        match self {
            LinkGoogleReply::Linked => ok_message("Google account linked successfully"),
            LinkGoogleReply::WrongPassword => error_message("Password is incorrect"),
            LinkGoogleReply::NoPasswordSet => error_message("This account has no password set"),
            LinkGoogleReply::AlreadyLinked => error_message(
                "This Google account is already linked to another user",
            ),
            LinkGoogleReply::LinkFailed => error_message("Failed to link account"),
            LinkGoogleReply::UserNotFound => error_message("User not found"),
        }
    }
}

/// The answer to linking `req` against the people `persons`.
pub open spec fn link_google_outcome(persons: Seq<Person>, req: LinkGoogleAccount) -> LinkGoogleReply {
    match first_match(persons, person_has_email(req.email@)) {
        None => LinkGoogleReply::UserNotFound,
        Some(p) => match p.password_hash {
            None => LinkGoogleReply::NoPasswordSet,
            Some(h) => if !hash_accepts(req.password@, h@) {
                LinkGoogleReply::WrongPassword
            } else if any_match(persons, person_has_email(req.google_email@)) {
                LinkGoogleReply::AlreadyLinked
            } else {
                LinkGoogleReply::Linked
            },
        },
    }
}

/// Links a password account to a Google email by making that email the
/// account's email. Nothing is written unless the link is made.
pub fn link_google_account(conn: &mut DbConnection, req: &LinkGoogleAccount) -> (r: LinkGoogleReply)
    ensures
        old(conn).wf() ==> final(conn).wf(),
        r == link_google_outcome(old(conn).persons@, *req),
        r == LinkGoogleReply::Linked ==> {
            let p = first_match(old(conn).persons@, person_has_email(req.email@)).unwrap();
            &&& final(conn).persons@ == persons_updated(
                old(conn).persons@,
                p.id@,
                Person { email: req.google_email, ..p },
            )
            &&& final(conn).permissions@ == old(conn).permissions@
            &&& final(conn).entries@ == old(conn).entries@
            &&& final(conn).tokens@ == old(conn).tokens@
        },
        r != LinkGoogleReply::Linked ==> same_tables(final(conn), old(conn)),
{
    proof {
        lemma_first_index_spec(conn.persons@, person_has_email(req.google_email@));
    }
    match PersonInteractor::get_by_email(conn, req.email.as_str()) {
        Ok(person) => {
            match &person.password_hash {
                Some(password_hash) => {
                    if !check_hash(req.password.as_str(), password_hash.as_str()) {
                        return LinkGoogleReply::WrongPassword;
                    }
                },
                None => {
                    return LinkGoogleReply::NoPasswordSet;
                },
            }
            if PersonInteractor::get_by_email(conn, req.google_email.as_str()).is_ok() {
                return LinkGoogleReply::AlreadyLinked;
            }
            let changed = Person { email: req.google_email.clone(), ..person };
            match PersonInteractor::update(conn, changed.id.as_str(), &changed) {
                Ok(_) => LinkGoogleReply::Linked,
                Err(_) => LinkGoogleReply::LinkFailed,
            }
        },
        Err(_) => LinkGoogleReply::UserNotFound,
    }
}

/// A request for a password-reset email.
pub struct PasswordResetRequest {
    pub email: String,
}

/// A request to check a reset token.
pub struct PasswordResetVerify {
    pub token: String,
}

/// A request to set a new password with a reset token.
pub struct PasswordReset {
    pub token: String,
    pub new_password: String,
}

/// How a request for a reset email ended.
#[derive(Debug, Clone, Copy, PartialEq, Eq, Structural)]
pub enum ForgotPasswordReply {
    Sent,
    EmailSendFailed,
    InternalError,
}

pub open spec fn forgot_password_json(r: ForgotPasswordReply) -> Seq<char> {
    match r {
        ForgotPasswordReply::Sent => ok_json("Password reset email sent"@),
        ForgotPasswordReply::EmailSendFailed => error_json("Failed to send email"@),
        ForgotPasswordReply::InternalError => error_json("Internal server error"@),
    }
}

impl ForgotPasswordReply {
    /// The JSON answer.
    pub fn body(&self) -> (r: String)
        ensures
            r@ == forgot_password_json(*self),
    {
        match self {
            ForgotPasswordReply::Sent => ok_message("Password reset email sent"),
            ForgotPasswordReply::EmailSendFailed => error_message("Failed to send email"),
            ForgotPasswordReply::InternalError => error_message("Internal server error"),
        }
    }
}

/// What a request for a reset email leads to: an answer right away, or an
/// email carrying `token` to be sent to `email` before answering.
#[derive(Debug)]
pub enum ForgotPasswordStep {
    Reply(ForgotPasswordReply),
    SendEmail { email: String, token: String },
}

/// Starts a password reset for `req.email`. An unknown email is answered
/// exactly as a known one, so that accounts cannot be discovered. For a
/// known one a token valid for an hour from `now` is stored, expired tokens
/// are swept, and the token is handed back to be emailed.
pub fn forgot_password(conn: &mut DbConnection, req: &PasswordResetRequest, now: i64) -> (r:
    ForgotPasswordStep)
    requires
        -TIMESTAMP_BOUND <= now <= TIMESTAMP_BOUND,
    ensures
        match first_match(old(conn).persons@, person_has_email(req.email@)) {
            None => r == ForgotPasswordStep::Reply(ForgotPasswordReply::Sent) && same_tables(
                final(conn),
                old(conn),
            ),
            Some(p) => match r {
                ForgotPasswordStep::Reply(x) => x == ForgotPasswordReply::InternalError
                    && same_tables(final(conn), old(conn)) && some_token_has_uuid(old(conn).tokens@),
                ForgotPasswordStep::SendEmail { email, token } => {
                    let t = final(conn).tokens@.last();
                    &&& email@ == p.email@
                    &&& is_token_shaped(token@)
                    &&& final(conn).tokens@.len() > 0
                    &&& t.token@ == token@
                    &&& t.email@ == p.email@
                    &&& t.created_at == now
                    &&& t.expires_at == now + TOKEN_LIFETIME_HOURS * SECONDS_PER_HOUR
                    &&& final(conn).tokens@ == old(conn).tokens@.filter(token_not_expired(now)).push(t)
                    &&& final(conn).persons@ == old(conn).persons@
                    &&& final(conn).permissions@ == old(conn).permissions@
                    &&& final(conn).entries@ == old(conn).entries@
                },
            },
        },
{
    match PersonInteractor::get_by_email(conn, req.email.as_str()) {
        Ok(person) => {
            let ghost base = conn.tokens@;
            match PasswordResetTokenInteractor::create_at(conn, person.email.as_str(), now) {
                Ok(token) => {
                    let _ = PasswordResetTokenInteractor::delete_expired_at(conn, now);
                    proof {
                        let f = token_not_expired(now);
                        base.lemma_filter_push(token, f);
                        assert(f(token));
                    }
                    ForgotPasswordStep::SendEmail { email: person.email, token: token.token }
                },
                Err(_) => ForgotPasswordStep::Reply(ForgotPasswordReply::InternalError),
            }
        },
        Err(_) => ForgotPasswordStep::Reply(ForgotPasswordReply::Sent),
    }
}

/// The answer to a reset request once its email has, or has not, been sent.
pub open spec fn send_outcome(sent: bool) -> ForgotPasswordReply {
    if sent {
        ForgotPasswordReply::Sent
    } else {
        ForgotPasswordReply::EmailSendFailed
    }
}

/// The answer once the reset email has, or has not, been sent.
pub fn finish_forgot_password(sent: bool) -> (r: ForgotPasswordReply)
    ensures
        r == send_outcome(sent),
{
    if sent {
        ForgotPasswordReply::Sent
    } else {
        ForgotPasswordReply::EmailSendFailed
    }
}

/// What checking a reset token found.
#[derive(Debug, Clone, Copy, PartialEq, Eq, Structural)]
pub enum VerifyResetReply {
    Valid,
    Expired,
    Invalid,
}

pub open spec fn verify_reset_json(r: VerifyResetReply) -> Seq<char> {
    match r {
        VerifyResetReply::Valid => "{\"status\":\"ok\",\"valid\":true}"@,
        VerifyResetReply::Expired => "{\"status\":\"ok\",\"valid\":false,\"message\":\"Token expired\"}"@,
        VerifyResetReply::Invalid => "{\"status\":\"ok\",\"valid\":false,\"message\":\"Invalid token\"}"@,
    }
}

impl VerifyResetReply {
    /// The JSON answer; it always reports success, with a validity flag.
    pub fn body(&self) -> (r: String)
        ensures
            r@ == verify_reset_json(*self),
    {
        match self {
            VerifyResetReply::Valid => "{\"status\":\"ok\",\"valid\":true}".to_owned(),
            VerifyResetReply::Expired => "{\"status\":\"ok\",\"valid\":false,\"message\":\"Token expired\"}".to_owned(),
            VerifyResetReply::Invalid => "{\"status\":\"ok\",\"valid\":false,\"message\":\"Invalid token\"}".to_owned(),
        }
    }
}

/// What checking the token text `token` at `now` finds among `tokens`.
pub open spec fn verify_reset_outcome(tokens: Seq<PasswordResetToken>, token: Seq<char>, now: i64) -> VerifyResetReply {
    match first_match(tokens, token_is(token)) {
        None => VerifyResetReply::Invalid,
        Some(t) => if token_valid_at(t.expires_at, now) {
            VerifyResetReply::Valid
        } else {
            VerifyResetReply::Expired
        },
    }
}

/// Checks a reset token at `now`. A token found expired is removed.
pub fn verify_reset_token(conn: &mut DbConnection, req: &PasswordResetVerify, now: i64) -> (r:
    VerifyResetReply)
    ensures
        r == verify_reset_outcome(old(conn).tokens@, req.token@, now),
        match first_match(old(conn).tokens@, token_is(req.token@)) {
            None => r == VerifyResetReply::Invalid && same_tables(final(conn), old(conn)),
            Some(t) => if token_valid_at(t.expires_at, now) {
                r == VerifyResetReply::Valid && same_tables(final(conn), old(conn))
            } else {
                &&& r == VerifyResetReply::Expired
                &&& final(conn).tokens@ == old(conn).tokens@.filter(token_is_not(req.token@))
                &&& final(conn).persons@ == old(conn).persons@
                &&& final(conn).permissions@ == old(conn).permissions@
                &&& final(conn).entries@ == old(conn).entries@
            },
        },
{
    match PasswordResetTokenInteractor::find_by_token(conn, req.token.as_str()) {
        Ok(token) => {
            if token.is_valid_at(now) {
                VerifyResetReply::Valid
            } else {
                let _ = PasswordResetTokenInteractor::delete_by_token(conn, req.token.as_str());
                VerifyResetReply::Expired
            }
        },
        Err(_) => VerifyResetReply::Invalid,
    }
}

/// How a password reset ended.
#[derive(Debug, Clone, Copy, PartialEq, Eq, Structural)]
pub enum ResetPasswordReply {
    Reset,
    TokenExpired,
    InvalidToken,
    UserNotFound,
    UpdateFailed,
}

pub open spec fn reset_password_json(r: ResetPasswordReply) -> Seq<char> {
    match r {
        ResetPasswordReply::Reset => ok_json("Password reset successfully"@),
        ResetPasswordReply::TokenExpired => error_json("Token expired"@),
        ResetPasswordReply::InvalidToken => error_json("Invalid token"@),
        ResetPasswordReply::UserNotFound => error_json("User not found"@),
        ResetPasswordReply::UpdateFailed => error_json("Failed to reset password"@),
    }
}

impl ResetPasswordReply {
    /// The JSON answer.
    pub fn body(&self) -> (r: String)
        ensures
            r@ == reset_password_json(*self),
    {
        match self {
            ResetPasswordReply::Reset => ok_message("Password reset successfully"),
            ResetPasswordReply::TokenExpired => error_message("Token expired"),
            ResetPasswordReply::InvalidToken => error_message("Invalid token"),
            ResetPasswordReply::UserNotFound => error_message("User not found"),
            ResetPasswordReply::UpdateFailed => error_message("Failed to reset password"),
        }
    }
}

/// Sets a new password with a reset token at `now`. An expired token is
/// removed; a used token is removed once the password is stored.
pub fn reset_password(conn: &mut DbConnection, req: &PasswordReset, now: i64) -> (r:
    ResetPasswordReply)
    ensures
        old(conn).wf() ==> final(conn).wf(),
        match first_match(old(conn).tokens@, token_is(req.token@)) {
            None => r == ResetPasswordReply::InvalidToken && same_tables(final(conn), old(conn)),
            Some(t) => if !token_valid_at(t.expires_at, now) {
                &&& r == ResetPasswordReply::TokenExpired
                &&& final(conn).tokens@ == old(conn).tokens@.filter(token_is_not(req.token@))
                &&& final(conn).persons@ == old(conn).persons@
                &&& final(conn).permissions@ == old(conn).permissions@
                &&& final(conn).entries@ == old(conn).entries@
            } else {
                match first_match(old(conn).persons@, person_has_email(t.email@)) {
                    None => r == ResetPasswordReply::UserNotFound && same_tables(final(conn), old(conn)),
                    Some(p) => if email_conflict(old(conn).persons@, p.id@, p.email@) {
                        r == ResetPasswordReply::UpdateFailed && same_tables(final(conn), old(conn))
                    } else {
                        &&& r == ResetPasswordReply::Reset
                        &&& password_replaced(old(conn).persons@, final(conn).persons@, p, req.new_password@)
                        &&& final(conn).tokens@ == old(conn).tokens@.filter(token_is_not(req.token@))
                        &&& final(conn).permissions@ == old(conn).permissions@
                        &&& final(conn).entries@ == old(conn).entries@
                    },
                }
            },
        },
{
    match PasswordResetTokenInteractor::find_by_token(conn, req.token.as_str()) {
        Ok(token) => {
            if !token.is_valid_at(now) {
                let _ = PasswordResetTokenInteractor::delete_by_token(conn, req.token.as_str());
                return ResetPasswordReply::TokenExpired;
            }
            match PersonInteractor::get_by_email(conn, token.email.as_str()) {
                Ok(person) => match replace_password(conn, person, req.new_password.as_str()) {
                    Ok(_) => {
                        let _ = PasswordResetTokenInteractor::delete_by_token(conn, req.token.as_str());
                        ResetPasswordReply::Reset
                    },
                    Err(_) => ResetPasswordReply::UpdateFailed,
                },
                Err(_) => ResetPasswordReply::UserNotFound,
            }
        },
        Err(_) => ResetPasswordReply::InvalidToken,
    }
}

} // verus!
