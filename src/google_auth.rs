//! Login and registration through a Google identity.

use vstd::prelude::*;
use crate::account::{create_account, summarizes, summary_json, AccountError, UserSummary};
use crate::db::{
    permissions_has_id, some_permissions_has_uuid, some_person_has_uuid,
    any_match, first_match, lemma_first_index_spec, person_has_email, person_has_google_id,
    person_has_id, same_tables, db_error_text, DbConnection, DbError,
};
use crate::interactions::person::{is_linked, PersonInteractor};
use crate::models::{role_name, Permissions, Person, Role};
use crate::replies::{error_json, error_message, ok_json, ok_message};
use crate::support::concat;

verus! {

/// A login with a Google identity and the email it reports.
pub struct GoogleLogin {
    pub google_id: String,
    pub email: String,
}

/// How a Google login ended.
#[derive(Debug)]
pub enum GoogleLoginReply {
    LoggedIn(UserSummary),
    FoundUnlinked(UserSummary),
    LinkedElsewhere,
    UserNotFound,
}

/// `{"status":"ok",<extra>"user":<summary>}`
pub open spec fn user_json(extra: Seq<char>, u: UserSummary) -> Seq<char> {
    "{\"status\":\"ok\","@ + extra + "\"user\":"@ + summary_json(u) + "}"@
}

pub open spec fn google_login_json(r: GoogleLoginReply) -> Seq<char> {
    match r {
        GoogleLoginReply::LoggedIn(u) => user_json(Seq::empty(), u),
        GoogleLoginReply::FoundUnlinked(u) => user_json(
            "\"message\":\"User found by email but not linked to Google ID\","@,
            u,
        ),
        GoogleLoginReply::LinkedElsewhere => error_json(
            "Email already linked to a different Google account"@,
        ),
        GoogleLoginReply::UserNotFound => error_json("User not found"@),
    }
}

/// The success answer with an optional message and a user summary.
fn user_body(extra: &str, u: &UserSummary) -> (r: String)
    ensures
        r@ == user_json(extra@, *u),
{
    let mut s = concat("{\"status\":\"ok\",", extra);
    s.append("\"user\":");
    let j = u.to_json();
    s.append(j.as_str());
    s.append("}");
    s
}

impl GoogleLoginReply {
    /// The JSON answer.
    pub fn body(&self) -> (r: String)
        ensures
            r@ == google_login_json(*self),
    {
        match self {
            GoogleLoginReply::LoggedIn(u) => {
                let r = user_body("", u);
                proof {
                    reveal_strlit("");
                    assert(""@ =~= Seq::<char>::empty());
                }
                r
            },
            GoogleLoginReply::FoundUnlinked(u) => user_body(
                "\"message\":\"User found by email but not linked to Google ID\",",
                u,
            ),
            GoogleLoginReply::LinkedElsewhere => error_message(
                "Email already linked to a different Google account",
            ),
            GoogleLoginReply::UserNotFound => error_message("User not found"),
        }
    }
}

/// Logs in with a Google identity: first by the identity, then by email
/// for an account that has no identity linked yet. Nothing is written.
pub fn google_login(conn: &mut DbConnection, req: &GoogleLogin) -> (r: GoogleLoginReply)
    ensures
        same_tables(final(conn), old(conn)),
        match first_match(old(conn).persons@, person_has_google_id(req.google_id@)) {
            Some(p) => r matches GoogleLoginReply::LoggedIn(u) && summarizes(u, p),
            None => match first_match(old(conn).persons@, person_has_email(req.email@)) {
                Some(p) => if p.google_id.is_none() {
                    r matches GoogleLoginReply::FoundUnlinked(u) && summarizes(u, p)
                } else {
                    r matches GoogleLoginReply::LinkedElsewhere
                },
                None => r matches GoogleLoginReply::UserNotFound,
            },
        },
{
    if let Ok(person) = PersonInteractor::get_by_google_id(conn, req.google_id.as_str()) {
        return GoogleLoginReply::LoggedIn(UserSummary::of(&person));
    }
    if let Ok(person) = PersonInteractor::get_by_email(conn, req.email.as_str()) {
        if person.google_id.is_none() {
            return GoogleLoginReply::FoundUnlinked(UserSummary::of(&person));
        } else {
            return GoogleLoginReply::LinkedElsewhere;
        }
    }
    GoogleLoginReply::UserNotFound
}

/// Linking the person `person_id` to the Google identity `google_id`.
pub struct UpdateGoogleId {
    pub person_id: String,
    pub google_id: String,
}

/// How updating a Google identity ended.
#[derive(Debug, Clone, Copy, PartialEq, Eq, Structural)]
pub enum UpdateGoogleIdReply {
    Updated,
    UpdateFailed(DbError),
    UserNotFound,
}

pub open spec fn update_google_id_json(r: UpdateGoogleIdReply) -> Seq<char> {
    match r {
        UpdateGoogleIdReply::Updated => ok_json("Google ID updated successfully"@),
        UpdateGoogleIdReply::UpdateFailed(e) => error_json(
            "Failed to update Google ID: "@ + db_error_text(e),
        ),
        UpdateGoogleIdReply::UserNotFound => error_json("User not found"@),
    }
}

impl UpdateGoogleIdReply {
    /// The JSON answer.
    pub fn body(&self) -> (r: String)
        ensures
            r@ == update_google_id_json(*self),
    {
        match self {
            UpdateGoogleIdReply::Updated => ok_message("Google ID updated successfully"),
            UpdateGoogleIdReply::UpdateFailed(e) => {
                let m = concat("Failed to update Google ID: ", e.to_string().as_str());
                error_message(m.as_str())
            },
            UpdateGoogleIdReply::UserNotFound => error_message("User not found"),
        }
    }
}

/// Links the person `req.person_id` to `req.google_id`, leaving the rest of
/// the record alone.
pub fn update_google_id(conn: &mut DbConnection, req: &UpdateGoogleId) -> (r: UpdateGoogleIdReply)
    ensures
        old(conn).wf() ==> final(conn).wf(),
        !any_match(old(conn).persons@, person_has_id(req.person_id@)) ==> {
            &&& r == UpdateGoogleIdReply::UserNotFound
            &&& same_tables(final(conn), old(conn))
        },
        any_match(old(conn).persons@, person_has_id(req.person_id@)) ==> {
            &&& r == UpdateGoogleIdReply::Updated
            &&& final(conn).persons@.len() == old(conn).persons@.len()
            &&& forall|j: int|
                0 <= j < old(conn).persons@.len() ==> if old(conn).persons@[j].id@ == req.person_id@ {
                    is_linked(old(conn).persons@[j], #[trigger] final(conn).persons@[j], req.google_id@)
                } else {
                    final(conn).persons@[j] == old(conn).persons@[j]
                }
            &&& final(conn).permissions@ == old(conn).permissions@
            &&& final(conn).entries@ == old(conn).entries@
            &&& final(conn).tokens@ == old(conn).tokens@
        },
{
    proof {
        lemma_first_index_spec(conn.persons@, person_has_id(req.person_id@));
    }
    if PersonInteractor::get_by_id(conn, req.person_id.as_str()).is_ok() {
        let ghost before = conn.persons@;
        let ghost i = crate::db::first_index(before, person_has_id(req.person_id@)).unwrap();
        match PersonInteractor::update_google_id(conn, req.person_id.as_str(), req.google_id.as_str()) {
            Ok(_) => {
                return UpdateGoogleIdReply::Updated;
            },
            Err(e) => {
                proof {
                    lemma_first_index_spec(conn.persons@, person_has_id(req.person_id@));
                    assert(person_has_id(req.person_id@)(conn.persons@[i]));
                }
                return UpdateGoogleIdReply::UpdateFailed(e);
            },
        }
    }
    UpdateGoogleIdReply::UserNotFound
}

/// A registration through a Google identity.
pub struct GoogleRegister {
    pub google_id: String,
    pub email: String,
    pub name: String,
    pub surname: String,
}

/// How a Google registration ended.
#[derive(Debug)]
pub enum GoogleRegisterReply {
    Existing(UserSummary),
    Created(UserSummary),
    PersonCreateFailed(DbError),
    PermissionsCreateFailed(DbError),
}

pub open spec fn google_register_json(r: GoogleRegisterReply) -> Seq<char> {
    match r {
        GoogleRegisterReply::Existing(u) => user_json(Seq::empty(), u),
        GoogleRegisterReply::Created(u) => user_json(
            "\"message\":\"User created successfully\","@,
            u,
        ),
        GoogleRegisterReply::PersonCreateFailed(e) => error_json(
            "Failed to create user: "@ + db_error_text(e),
        ),
        GoogleRegisterReply::PermissionsCreateFailed(e) => error_json(
            "Failed to create permissions: "@ + db_error_text(e),
        ),
    }
}

impl GoogleRegisterReply {
    /// The JSON answer.
    pub fn body(&self) -> (r: String)
        ensures
            r@ == google_register_json(*self),
    {
        match self {
            GoogleRegisterReply::Existing(u) => {
                let r = user_body("", u);
                proof {
                    reveal_strlit("");
                    assert(""@ =~= Seq::<char>::empty());
                }
                r
            },
            GoogleRegisterReply::Created(u) => user_body("\"message\":\"User created successfully\",", u),
            GoogleRegisterReply::PersonCreateFailed(e) => {
                let m = concat("Failed to create user: ", e.to_string().as_str());
                error_message(m.as_str())
            },
            GoogleRegisterReply::PermissionsCreateFailed(e) => {
                let m = concat("Failed to create permissions: ", e.to_string().as_str());
                error_message(m.as_str())
            },
        }
    }
}

/// `p` is a new student registered through the Google identity of `req`,
/// with no password.
pub open spec fn is_google_student(p: Person, req: GoogleRegister) -> bool {
    &&& p.name@ == req.name@
    &&& p.surname@ == req.surname@
    &&& p.email@ == req.email@
    &&& p.role@ == role_name(Role::Alumno)
    &&& p.id@.len() == 36
    &&& p.password_hash.is_none()
    &&& p.google_id.is_some()
    &&& p.google_id.unwrap()@ == req.google_id@
}

/// The default permissions of a person who registered through Google: the
/// dashboard and their own history.
pub open spec fn is_google_default(q: Permissions, p: Person) -> bool {
    &&& q.person_id@ == p.id@
    &&& q.dashboard
    &&& q.see_self_history
    &&& !q.see_others_history
    &&& !q.admin_panel
    &&& !q.edit_permissions
}

/// The last person and permissions of `new` were just added to `old`, as a
/// Google registration of `req` adds them.
pub open spec fn google_registered(old: &DbConnection, new: &DbConnection, req: GoogleRegister) -> bool {
    &&& new.persons@.len() == old.persons@.len() + 1
    &&& new.permissions@.len() == old.permissions@.len() + 1
    &&& new.persons@ == old.persons@.push(new.persons@.last())
    &&& new.permissions@ == old.permissions@.push(new.permissions@.last())
    &&& new.entries@ == old.entries@
    &&& new.tokens@ == old.tokens@
    &&& is_google_student(new.persons@.last(), req)
    &&& is_google_default(new.permissions@.last(), new.persons@.last())
}

/// Registers a person through a Google identity, with their default
/// permissions; an identity already known is answered with its account.
pub fn google_register(conn: &mut DbConnection, req: &GoogleRegister) -> (r: GoogleRegisterReply)
    ensures
        old(conn).wf() ==> final(conn).wf(),
        match first_match(old(conn).persons@, person_has_google_id(req.google_id@)) {
            Some(p) => r matches GoogleRegisterReply::Existing(u) && summarizes(u, p) && same_tables(
                final(conn),
                old(conn),
            ),
            None => match r {
                GoogleRegisterReply::Created(u) => google_registered(old(conn), final(conn), *req)
                    && summarizes(u, final(conn).persons@.last()),
                GoogleRegisterReply::PersonCreateFailed(e) => e == DbError::UniqueViolation
                    && same_tables(final(conn), old(conn)),
                GoogleRegisterReply::PermissionsCreateFailed(e) => e == DbError::UniqueViolation
                    && same_tables(final(conn), old(conn)),
                _ => false,
            },
        },
        !any_match(old(conn).persons@, person_has_google_id(req.google_id@)) && any_match(
            old(conn).persons@,
            person_has_email(req.email@),
        ) ==> (r matches GoogleRegisterReply::PersonCreateFailed(e) && e == DbError::UniqueViolation),
        r matches GoogleRegisterReply::PersonCreateFailed(_) ==> any_match(
            old(conn).persons@,
            person_has_email(req.email@),
        ) || some_person_has_uuid(old(conn).persons@),
        r matches GoogleRegisterReply::PermissionsCreateFailed(_) ==> some_permissions_has_uuid(
            old(conn).permissions@,
        ),
{
    let ghost persons0 = conn.persons@;
    let ghost permissions0 = conn.permissions@;
    proof {
        lemma_first_index_spec(conn.persons@, person_has_google_id(req.google_id@));
    }
    if let Ok(person) = PersonInteractor::get_by_google_id(conn, req.google_id.as_str()) {
        return GoogleRegisterReply::Existing(UserSummary::of(&person));
    }
    let person = Person::new(
        req.name.as_str(),
        req.surname.as_str(),
        req.email.as_str(),
        Role::Alumno,
        None,
        Some(req.google_id.as_str()),
    );
    let permissions = Permissions::new(person.id.as_str(), true, true, false, false, false);
    match create_account(conn, &person, &permissions) {
        Ok(_) => GoogleRegisterReply::Created(UserSummary::of(&person)),
        Err(AccountError::Person(e)) => {
            proof {
                if !any_match(persons0, person_has_email(req.email@)) {
                    let w = choose|w: int| 0 <= w < persons0.len() && person_has_id(person.id@)(#[trigger] persons0[w]);
                    assert(persons0[w].id@.len() == 36);
                }
            }
            GoogleRegisterReply::PersonCreateFailed(e)
        },
        Err(AccountError::Permissions(e)) => {
            proof {
                let w = choose|w: int| 0 <= w < permissions0.len() && permissions_has_id(permissions.id@)(#[trigger] permissions0[w]);
                assert(permissions0[w].id@.len() == 36);
            }
            GoogleRegisterReply::PermissionsCreateFailed(e)
        },
    }
}

} // verus!
