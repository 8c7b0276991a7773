//! The store that holds every table, and the facts about lookups in it.

use vstd::prelude::*;
use crate::models::{Entry, PasswordResetToken, Permissions, Person};

verus! {

/// Why a storage operation did not go through.
#[derive(Debug, Clone, Copy, PartialEq, Eq, Structural)]
pub enum DbError {
    /// No row matches the lookup.
    NotFound,
    /// A row with the same primary key already exists.
    UniqueViolation,
}

impl DbError {
    /// The text reported for this error.
    pub fn to_string(&self) -> (r: String)
        ensures
            r@ == db_error_text(*self),
    {
        match self {
            DbError::NotFound => crate::support::owned("Record not found"),
            DbError::UniqueViolation => crate::support::owned("UNIQUE constraint failed"),
        }
    }
}

/// The text reported for a storage error.
pub open spec fn db_error_text(e: DbError) -> Seq<char> {
    match e {
        DbError::NotFound => "Record not found"@,
        DbError::UniqueViolation => "UNIQUE constraint failed"@,
    }
}

/// The tables of the application, held in insertion order.
pub struct DbConnection {
    pub persons: Vec<Person>,
    pub permissions: Vec<Permissions>,
    pub entries: Vec<Entry>,
    pub tokens: Vec<PasswordResetToken>,
}

/// No two people share an identifier (the table's primary key).
pub open spec fn persons_unique(s: Seq<Person>) -> bool {
    forall|i: int, j: int| 0 <= i < s.len() && 0 <= j < s.len() && i != j ==> s[i].id@ != s[j].id@
}

/// No two people share an email.
pub open spec fn emails_unique(s: Seq<Person>) -> bool {
    forall|i: int, j: int| 0 <= i < s.len() && 0 <= j < s.len() && i != j ==> s[i].email@ != s[j].email@
}

/// A person other than `id` whose email is `email`.
pub open spec fn email_held_by_other(email: Seq<char>, id: Seq<char>) -> spec_fn(Person) -> bool {
    |p: Person| p.email@ == email && p.id@ != id
}

/// Giving the person `id` the email `email` would clash with another
/// person's email.
pub open spec fn email_conflict(s: Seq<Person>, id: Seq<char>, email: Seq<char>) -> bool {
    any_match(s, person_has_id(id)) && any_match(s, email_held_by_other(email, id))
}

impl DbConnection {
    /// The store keeps its unique keys: people have distinct identifiers
    /// and distinct emails.
    pub open spec fn wf(&self) -> bool {
        persons_unique(self.persons@) && emails_unique(self.persons@)
    }

    /// A store with every table empty.
    pub fn new() -> (r: DbConnection)
        ensures
            r.wf(),
            r.persons@.len() == 0,
            r.permissions@.len() == 0,
            r.entries@.len() == 0,
            r.tokens@.len() == 0,
    {
        DbConnection { persons: Vec::new(), permissions: Vec::new(), entries: Vec::new(), tokens: Vec::new() }
    }
}

/// Some person carries an identifier of the generated form (36
/// characters): only then can a freshly drawn identifier repeat one.
pub open spec fn some_person_has_uuid(s: Seq<Person>) -> bool {
    exists|i: int| 0 <= i < s.len() && (#[trigger] s[i]).id@.len() == 36
}

/// Some permissions record carries an identifier of the generated form.
pub open spec fn some_permissions_has_uuid(s: Seq<Permissions>) -> bool {
    exists|i: int| 0 <= i < s.len() && (#[trigger] s[i]).id@.len() == 36
}

/// Some entry carries an identifier of the generated form.
pub open spec fn some_entry_has_uuid(s: Seq<Entry>) -> bool {
    exists|i: int| 0 <= i < s.len() && (#[trigger] s[i]).id@.len() == 36
}

/// Some reset token carries an identifier of the generated form.
pub open spec fn some_token_has_uuid(s: Seq<PasswordResetToken>) -> bool {
    exists|i: int| 0 <= i < s.len() && (#[trigger] s[i]).id@.len() == 36
}

/// `i` is the first position of `s` whose element satisfies `f`.
pub open spec fn is_first<T>(s: Seq<T>, f: spec_fn(T) -> bool, i: int) -> bool {
    &&& 0 <= i < s.len()
    &&& f(s[i])
    &&& forall|j: int| 0 <= j < i ==> !f(#[trigger] s[j])
}

/// The first position of `s` whose element satisfies `f`, if any.
pub open spec fn first_index<T>(s: Seq<T>, f: spec_fn(T) -> bool) -> Option<int> {
    if exists|i: int| is_first(s, f, i) {
        Some(choose|i: int| is_first(s, f, i))
    } else {
        None
    }
}

/// The first element of `s` that satisfies `f`, if any.
pub open spec fn first_match<T>(s: Seq<T>, f: spec_fn(T) -> bool) -> Option<T> {
    match first_index(s, f) {
        Some(i) => Some(s[i]),
        None => None,
    }
}

/// Whether some element of `s` satisfies `f`.
pub open spec fn any_match<T>(s: Seq<T>, f: spec_fn(T) -> bool) -> bool {
    exists|i: int| 0 <= i < s.len() && f(#[trigger] s[i])
}

/// A first match, once found, is the one `first_index` names.
pub proof fn lemma_first_index_is<T>(s: Seq<T>, f: spec_fn(T) -> bool, i: int)
    requires
        is_first(s, f, i),
    ensures
        first_index(s, f) == Some(i),
        first_match(s, f) == Some(s[i]),
        any_match(s, f),
{
    let k = choose|k: int| is_first(s, f, k);
    assert(is_first(s, f, k));
    if k < i {
        assert(!f(s[k]));
    } else if i < k {
        assert(!f(s[i]));
    }
}

/// With no element satisfying `f`, there is no first match.
pub proof fn lemma_first_index_none<T>(s: Seq<T>, f: spec_fn(T) -> bool)
    requires
        forall|j: int| 0 <= j < s.len() ==> !f(#[trigger] s[j]),
    ensures
        first_index(s, f) == None::<int>,
        first_match(s, f) == None::<T>,
        !any_match(s, f),
{
    if exists|i: int| is_first(s, f, i) {
        let k = choose|k: int| is_first(s, f, k);
        assert(f(s[k]));
    }
}

/// What `first_index` names is a first match, and a missing one means no match.
pub proof fn lemma_first_index_spec<T>(s: Seq<T>, f: spec_fn(T) -> bool)
    ensures
        match first_index(s, f) {
            Some(i) => is_first(s, f, i),
            None => !any_match(s, f),
        },
        first_index(s, f).is_some() == any_match(s, f),
{
    if exists|i: int| is_first(s, f, i) {
        let k = choose|k: int| is_first(s, f, k);
        lemma_first_index_is(s, f, k);
    } else if any_match(s, f) {
        let w = choose|w: int| 0 <= w < s.len() && f(s[w]);
        lemma_least_match(s, f, w);
    }
}

/// Some element matches at or before `w` and is the first match.
proof fn lemma_least_match<T>(s: Seq<T>, f: spec_fn(T) -> bool, w: int)
    requires
        0 <= w < s.len(),
        f(s[w]),
    ensures
        exists|i: int| is_first(s, f, i),
    decreases w,
{
    if exists|j: int| 0 <= j < w && f(#[trigger] s[j]) {
        let j = choose|j: int| 0 <= j < w && f(#[trigger] s[j]);
        lemma_least_match(s, f, j);
    } else {
        assert(is_first(s, f, w));
    }
}

/// A person whose identifier is `id`.
pub open spec fn person_has_id(id: Seq<char>) -> spec_fn(Person) -> bool {
    |p: Person| p.id@ == id
}

/// A person whose email is `email`.
pub open spec fn person_has_email(email: Seq<char>) -> spec_fn(Person) -> bool {
    |p: Person| p.email@ == email
}

/// A person linked to the Google identity `gid`.
pub open spec fn person_has_google_id(gid: Seq<char>) -> spec_fn(Person) -> bool {
    |p: Person| p.google_id.is_some() && p.google_id.unwrap()@ == gid
}

/// A permissions record whose identifier is `id`.
pub open spec fn permissions_has_id(id: Seq<char>) -> spec_fn(Permissions) -> bool {
    |p: Permissions| p.id@ == id
}

/// A permissions record owned by the person `pid`.
pub open spec fn permissions_of(pid: Seq<char>) -> spec_fn(Permissions) -> bool {
    |p: Permissions| p.person_id@ == pid
}

/// An entry whose identifier is `id`.
pub open spec fn entry_has_id(id: Seq<char>) -> spec_fn(Entry) -> bool {
    |e: Entry| e.id@ == id
}

/// A reset token whose secret text is `token`.
pub open spec fn token_is(token: Seq<char>) -> spec_fn(PasswordResetToken) -> bool {
    |t: PasswordResetToken| t.token@ == token
}

} // verus!

verus! {

/// Only the people table differs between `a` and `b`.
pub open spec fn others_same_but_persons(a: &DbConnection, b: &DbConnection) -> bool {
    a.permissions@ == b.permissions@ && a.entries@ == b.entries@ && a.tokens@ == b.tokens@
}

/// Only the permissions table differs between `a` and `b`.
pub open spec fn others_same_but_permissions(a: &DbConnection, b: &DbConnection) -> bool {
    a.persons@ == b.persons@ && a.entries@ == b.entries@ && a.tokens@ == b.tokens@
}

/// Only the entries table differs between `a` and `b`.
pub open spec fn others_same_but_entries(a: &DbConnection, b: &DbConnection) -> bool {
    a.persons@ == b.persons@ && a.permissions@ == b.permissions@ && a.tokens@ == b.tokens@
}

/// Only the reset-token table differs between `a` and `b`.
pub open spec fn others_same_but_tokens(a: &DbConnection, b: &DbConnection) -> bool {
    a.persons@ == b.persons@ && a.permissions@ == b.permissions@ && a.entries@ == b.entries@
}

/// Every table is the same in `a` and `b`.
pub open spec fn same_tables(a: &DbConnection, b: &DbConnection) -> bool {
    a.persons@ == b.persons@ && a.permissions@ == b.permissions@ && a.entries@ == b.entries@
        && a.tokens@ == b.tokens@
}

} // verus!
