//! Creating a person together with their permissions, and the public
//! summary of a person that the federated-login flows hand back.

use vstd::prelude::*;
use crate::db::{
    any_match, permissions_has_id, person_has_id, same_tables,
    DbConnection, DbError,
};
use crate::interactions::permissions::PermissionsInteractor;
use crate::interactions::person::{person_lacks_id, person_taken, PersonInteractor};
use crate::models::{Permissions, Person};
use crate::support::concat;

verus! {

/// Which half of an account creation failed, and why.
#[derive(Debug, Clone, Copy, PartialEq, Eq, Structural)]
pub enum AccountError {
    Person(DbError),
    Permissions(DbError),
}

/// `new` is `old` with `person` and `permissions` added at the end of their tables.
pub open spec fn account_added(
    old: &DbConnection,
    new: &DbConnection,
    person: Person,
    permissions: Permissions,
) -> bool {
    &&& new.persons@ == old.persons@.push(person)
    &&& new.permissions@ == old.permissions@.push(permissions)
    &&& new.entries@ == old.entries@
    &&& new.tokens@ == old.tokens@
}

/// Stores `person` and `permissions` together, or neither of them: when
/// the permissions cannot be stored, the person is taken out again.
pub fn create_account(conn: &mut DbConnection, person: &Person, permissions: &Permissions) -> (r:
    Result<(), AccountError>)
    ensures
        old(conn).wf() ==> final(conn).wf(),
        match r {
            Ok(_) => account_added(old(conn), final(conn), *person, *permissions),
            Err(_) => same_tables(final(conn), old(conn)),
        },
        r == if person_taken(old(conn).persons@, *person) {
            Err::<(), AccountError>(AccountError::Person(DbError::UniqueViolation))
        } else if any_match(old(conn).permissions@, permissions_has_id(permissions.id@)) {
            Err::<(), AccountError>(AccountError::Permissions(DbError::UniqueViolation))
        } else {
            Ok::<(), AccountError>(())
        },
{
    let ghost before = conn.persons@;
    match PersonInteractor::new(conn, person) {
        Err(e) => return Err(AccountError::Person(e)),
        Ok(_) => {},
    }
    match PermissionsInteractor::new(conn, permissions) {
        Err(e) => {
            let _ = PersonInteractor::delete(conn, person.id.as_str());
            proof {
                lemma_remove_new_person(before, *person);
            }
            Err(AccountError::Permissions(e))
        },
        Ok(_) => Ok(()),
    }
}

/// Taking out the identifier of a person just added, whose identifier was
/// new, gives back the table as it was.
proof fn lemma_remove_new_person(s: Seq<Person>, p: Person)
    requires
        !any_match(s, person_has_id(p.id@)),
    ensures
        s.push(p).filter(person_lacks_id(p.id@)) == s,
    decreases s.len(),
{
    let f = person_lacks_id(p.id@);
    s.lemma_filter_push(p, f);
    lemma_filter_keeps_all(s, f);
}

/// Filtering with a predicate that every element satisfies keeps them all.
proof fn lemma_filter_keeps_all(s: Seq<Person>, f: spec_fn(Person) -> bool)
    requires
        forall|j: int| 0 <= j < s.len() ==> f(#[trigger] s[j]),
    ensures
        s.filter(f) == s,
    decreases s.len(),
{
    reveal(Seq::filter);
    if s.len() > 0 {
        lemma_filter_keeps_all(s.drop_last(), f);
        assert(s.drop_last().push(s.last()) =~= s);
    }
}

/// What is shown of a person after a federated login.
#[derive(Debug)]
pub struct UserSummary {
    pub id: String,
    pub name: String,
    pub email: String,
    pub role: String,
}

/// `u` shows the person `p`.
pub open spec fn summarizes(u: UserSummary, p: Person) -> bool {
    u.id@ == p.id@ && u.name@ == p.name@ && u.email@ == p.email@ && u.role@ == p.role@
}

/// The JSON object of a user summary.
pub open spec fn summary_json(u: UserSummary) -> Seq<char> {
    "{\"id\":\""@ + u.id@ + "\",\"name\":\""@ + u.name@ + "\",\"email\":\""@ + u.email@
        + "\",\"role\":\""@ + u.role@ + "\"}"@
}

impl UserSummary {
    /// The summary of `p`.
    pub fn of(p: &Person) -> (r: UserSummary)
        ensures
            summarizes(r, *p),
    {
        UserSummary { id: p.id.clone(), name: p.name.clone(), email: p.email.clone(), role: p.role.clone() }
    }

    /// The summary as a JSON object.
    pub fn to_json(&self) -> (r: String)
        ensures
            r@ == summary_json(*self),
    {
        let mut s = concat("{\"id\":\"", self.id.as_str());
        s.append("\",\"name\":\"");
        s.append(self.name.as_str());
        s.append("\",\"email\":\"");
        s.append(self.email.as_str());
        s.append("\",\"role\":\"");
        s.append(self.role.as_str());
        s.append("\"}");
        s
    }
}

} // verus!
