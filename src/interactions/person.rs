//! Queries and updates on the people table.

use vstd::prelude::*;
use crate::db::{
    persons_unique, emails_unique, email_conflict, email_held_by_other,
    first_match, lemma_first_index_is, lemma_first_index_none, lemma_first_index_spec, any_match,
    others_same_but_persons, person_has_email, person_has_google_id, person_has_id, same_tables,
    DbConnection, DbError,
};
use crate::models::Person;
use crate::support::clone_opt;

verus! {

/// Operations on the people table.
pub struct PersonInteractor {}

/// `p` with every field but its identifier taken from `c`.
pub open spec fn with_changes(p: Person, c: Person) -> Person {
    Person {
        id: p.id,
        name: c.name,
        surname: c.surname,
        email: c.email,
        role: c.role,
        password_hash: c.password_hash,
        google_id: c.google_id,
    }
}

/// The people table after the rows with identifier `id` take the changes `c`.
pub open spec fn persons_updated(s: Seq<Person>, id: Seq<char>, c: Person) -> Seq<Person> {
    s.map_values(|p: Person| if p.id@ == id { with_changes(p, c) } else { p })
}

/// `q` is `p` linked to the Google identity `g`, with every other field kept.
pub open spec fn is_linked(p: Person, q: Person, g: Seq<char>) -> bool {
    &&& q.id == p.id
    &&& q.name == p.name
    &&& q.surname == p.surname
    &&& q.email == p.email
    &&& q.role == p.role
    &&& q.password_hash == p.password_hash
    &&& q.google_id.is_some()
    &&& q.google_id.unwrap()@ == g
}

/// Inserting `p` would repeat an identifier or an email of `s`.
pub open spec fn person_taken(s: Seq<Person>, p: Person) -> bool {
    any_match(s, person_has_id(p.id@)) || any_match(s, person_has_email(p.email@))
}

/// A person whose identifier is not `id`.
pub open spec fn person_lacks_id(id: Seq<char>) -> spec_fn(Person) -> bool {
    |p: Person| p.id@ != id
}

/// The three keys a person is looked up by.
enum PersonKey {
    Id,
    Email,
    GoogleId,
}

spec fn key_pred(kind: PersonKey, key: Seq<char>) -> spec_fn(Person) -> bool {
    match kind {
        PersonKey::Id => person_has_id(key),
        PersonKey::Email => person_has_email(key),
        PersonKey::GoogleId => person_has_google_id(key),
    }
}

fn key_matches(p: &Person, kind: &PersonKey, key: &String) -> (r: bool)
    ensures
        r == key_pred(*kind, key@)(*p),
{
    match kind {
        PersonKey::Id => p.id == *key,
        PersonKey::Email => p.email == *key,
        PersonKey::GoogleId => match &p.google_id {
            Some(g) => *g == *key,
            None => false,
        },
    }
}

/// The first person of `persons` that matches `key`.
fn find_person(persons: &Vec<Person>, kind: PersonKey, key: &str) -> (r: Result<Person, DbError>)
    ensures
        match first_match(persons@, key_pred(kind, key@)) {
            Some(p) => r == Ok::<Person, DbError>(p),
            None => r == Err::<Person, DbError>(DbError::NotFound),
        },
{
    let wanted = key.to_owned();
    let ghost f = key_pred(kind, key@);
    let mut i: usize = 0;
    while i < persons.len()
        invariant
            i <= persons@.len(),
            f == key_pred(kind, key@),
            wanted@ == key@,
            forall|j: int| 0 <= j < i ==> !f(#[trigger] persons@[j]),
        decreases persons@.len() - i,
    {
        if key_matches(&persons[i], &kind, &wanted) {
            proof {
                lemma_first_index_is(persons@, f, i as int);
            }
            return Ok(persons[i].duplicate());
        }
        i = i + 1;
    }
    proof {
        lemma_first_index_none(persons@, f);
    }
    Err(DbError::NotFound)
}

fn copy_with_changes(p: &Person, c: &Person) -> (r: Person)
    ensures
        r == with_changes(*p, *c),
{
    Person {
        id: p.id.clone(),
        name: c.name.clone(),
        surname: c.surname.clone(),
        email: c.email.clone(),
        role: c.role.clone(),
        password_hash: clone_opt(&c.password_hash),
        google_id: clone_opt(&c.google_id),
    }
}

/// Whether a person other than `id` has the email `email`.
fn email_held_elsewhere(persons: &Vec<Person>, email: &str, id: &str) -> (r: bool)
    ensures
        r == any_match(persons@, email_held_by_other(email@, id@)),
{
    let wanted = email.to_owned();
    let owner = id.to_owned();
    let ghost f = email_held_by_other(email@, id@);
    let mut i: usize = 0;
    while i < persons.len()
        invariant
            i <= persons@.len(),
            wanted@ == email@,
            owner@ == id@,
            f == email_held_by_other(email@, id@),
            forall|j: int| 0 <= j < i ==> !f(#[trigger] persons@[j]),
        decreases persons@.len() - i,
    {
        if persons[i].email == wanted && !(persons[i].id == owner) {
            assert(f(persons@[i as int]));
            return true;
        }
        i = i + 1;
    }
    false
}

impl PersonInteractor {
    /// Inserts `person`; fails when a person with the same identifier or
    /// the same email exists.
    #[allow(clippy::new_ret_no_self)]
    pub fn new(conn: &mut DbConnection, person: &Person) -> (r: Result<usize, DbError>)
        ensures
            old(conn).wf() ==> final(conn).wf(),
            person_taken(old(conn).persons@, *person) ==> {
                &&& r == Err::<usize, DbError>(DbError::UniqueViolation)
                &&& same_tables(final(conn), old(conn))
            },
            !person_taken(old(conn).persons@, *person) ==> {
                &&& r == Ok::<usize, DbError>(1)
                &&& final(conn).persons@ == old(conn).persons@.push(*person)
                &&& others_same_but_persons(final(conn), old(conn))
            },
    {
        proof {
            lemma_first_index_spec(conn.persons@, person_has_id(person.id@));
            lemma_first_index_spec(conn.persons@, person_has_email(person.email@));
        }
        if find_person(&conn.persons, PersonKey::Id, person.id.as_str()).is_ok() {
            return Err(DbError::UniqueViolation);
        }
        if find_person(&conn.persons, PersonKey::Email, person.email.as_str()).is_ok() {
            return Err(DbError::UniqueViolation);
        }
        let ghost s0 = conn.persons@;
        conn.persons.push(person.duplicate());
        proof {
            assert forall|j: int| 0 <= j < s0.len() implies s0[j].id@ != person.id@ && s0[j].email@
                != person.email@ by {
                assert(!person_has_id(person.id@)(s0[j]));
                assert(!person_has_email(person.email@)(s0[j]));
            }
        }
        Ok(1)
    }

    /// Every person, in the order they were inserted.
    pub fn get(conn: &mut DbConnection) -> (r: Result<Vec<Person>, DbError>)
        ensures
            same_tables(final(conn), old(conn)),
            r.is_ok(),
            r.unwrap()@ == old(conn).persons@,
    {
        let mut out: Vec<Person> = Vec::new();
        let mut i: usize = 0;
        while i < conn.persons.len()
            invariant
                i <= conn.persons@.len(),
                out@ == conn.persons@.take(i as int),
            decreases conn.persons@.len() - i,
        {
            out.push(conn.persons[i].duplicate());
            i = i + 1;
            assert(out@ =~= conn.persons@.take(i as int));
        }
        assert(out@ =~= conn.persons@);
        Ok(out)
    }

    /// The first person whose identifier is `p_id`.
    pub fn get_by_id(conn: &mut DbConnection, p_id: &str) -> (r: Result<Person, DbError>)
        ensures
            same_tables(final(conn), old(conn)),
            match first_match(old(conn).persons@, person_has_id(p_id@)) {
                Some(p) => r == Ok::<Person, DbError>(p),
                None => r == Err::<Person, DbError>(DbError::NotFound),
            },
    {
        find_person(&conn.persons, PersonKey::Id, p_id)
    }

    /// The first person whose email is `req_email`.
    pub fn get_by_email(conn: &mut DbConnection, req_email: &str) -> (r: Result<Person, DbError>)
        ensures
            same_tables(final(conn), old(conn)),
            match first_match(old(conn).persons@, person_has_email(req_email@)) {
                Some(p) => r == Ok::<Person, DbError>(p),
                None => r == Err::<Person, DbError>(DbError::NotFound),
            },
    {
        find_person(&conn.persons, PersonKey::Email, req_email)
    }

    /// The first person linked to the Google identity `g_id`.
    pub fn get_by_google_id(conn: &mut DbConnection, g_id: &str) -> (r: Result<Person, DbError>)
        ensures
            same_tables(final(conn), old(conn)),
            match first_match(old(conn).persons@, person_has_google_id(g_id@)) {
                Some(p) => r == Ok::<Person, DbError>(p),
                None => r == Err::<Person, DbError>(DbError::NotFound),
            },
    {
        find_person(&conn.persons, PersonKey::GoogleId, g_id)
    }

    /// Gives every person whose identifier is `p_id` the fields of
    /// `person_changes` (all but the identifier); returns how many changed.
    /// It fails, changing nothing, when the new email belongs to another person.
    pub fn update(conn: &mut DbConnection, p_id: &str, person_changes: &Person) -> (r: Result<
        usize,
        DbError,
    >)
        ensures
            old(conn).wf() ==> final(conn).wf(),
            email_conflict(old(conn).persons@, p_id@, person_changes.email@) ==> {
                &&& r == Err::<usize, DbError>(DbError::UniqueViolation)
                &&& same_tables(final(conn), old(conn))
            },
            !email_conflict(old(conn).persons@, p_id@, person_changes.email@) ==> {
                &&& final(conn).persons@ == persons_updated(old(conn).persons@, p_id@, *person_changes)
                &&& others_same_but_persons(final(conn), old(conn))
                &&& r == Ok::<usize, DbError>(
                    old(conn).persons@.filter(person_has_id(p_id@)).len() as usize,
                )
            },
    {
        proof {
            lemma_first_index_spec(conn.persons@, person_has_id(p_id@));
        }
        if find_person(&conn.persons, PersonKey::Id, p_id).is_ok() && email_held_elsewhere(
            &conn.persons,
            person_changes.email.as_str(),
            p_id,
        ) {
            return Err(DbError::UniqueViolation);
        }
        let key = p_id.to_owned();
        let ghost s0 = conn.persons@;
        let ghost f = person_has_id(p_id@);
        let mut count: usize = 0;
        let mut i: usize = 0;
        while i < conn.persons.len()
            invariant
                conn.persons@.len() == s0.len(),
                i <= s0.len(),
                key@ == p_id@,
                f == person_has_id(p_id@),
                forall|j: int| 0 <= j < i ==> #[trigger] conn.persons@[j] == (if s0[j].id@ == p_id@ {
                    with_changes(s0[j], *person_changes)
                } else {
                    s0[j]
                }),
                forall|j: int| i <= j < s0.len() ==> #[trigger] conn.persons@[j] == s0[j],
                count == s0.take(i as int).filter(f).len(),
                count <= i,
                others_same_but_persons(conn, old(conn)),
                s0 == old(conn).persons@,
            decreases s0.len() - i,
        {
            proof {
                assert(s0.take(i + 1) =~= s0.take(i as int).push(s0[i as int]));
                s0.take(i as int).lemma_filter_push(s0[i as int], f);
            }
            if conn.persons[i].id == key {
                let changed = copy_with_changes(&conn.persons[i], person_changes);
                conn.persons.set(i, changed);
                count = count + 1;
            }
            i = i + 1;
        }
        assert(s0.take(s0.len() as int) =~= s0);
        assert(conn.persons@ =~= persons_updated(s0, p_id@, *person_changes));
        assert(forall|j: int| 0 <= j < s0.len() ==> (#[trigger] conn.persons@[j]).id == s0[j].id);
        proof {
            if persons_unique(s0) && emails_unique(s0) {
                let n = conn.persons@;
                assert forall|a: int, b: int| 0 <= a < n.len() && 0 <= b < n.len() && a != b implies n[a].email@ != n[b].email@ by {
                    if s0[a].id@ == p_id@ && s0[b].id@ == p_id@ {
                        assert(s0[a].id@ == s0[b].id@);
                    } else if s0[a].id@ == p_id@ {
                        assert(person_has_id(p_id@)(s0[a]));
                        assert(!email_held_by_other(person_changes.email@, p_id@)(s0[b]));
                    } else if s0[b].id@ == p_id@ {
                        assert(person_has_id(p_id@)(s0[b]));
                        assert(!email_held_by_other(person_changes.email@, p_id@)(s0[a]));
                    }
                }
            }
        }
        Ok(count)
    }

    /// Removes every person whose identifier is `p_id`; returns how many went.
    pub fn delete(conn: &mut DbConnection, p_id: &str) -> (r: Result<usize, DbError>)
        ensures
            old(conn).wf() ==> final(conn).wf(),
            final(conn).persons@ == old(conn).persons@.filter(person_lacks_id(p_id@)),
            others_same_but_persons(final(conn), old(conn)),
            r == Ok::<usize, DbError>(
                (old(conn).persons@.len() - final(conn).persons@.len()) as usize,
            ),
    {
        let key = p_id.to_owned();
        let ghost s0 = conn.persons@;
        let ghost f = person_lacks_id(p_id@);
        let mut kept: Vec<Person> = Vec::new();
        let mut i: usize = 0;
        while i < conn.persons.len()
            invariant
                conn.persons@ == s0,
                i <= s0.len(),
                key@ == p_id@,
                f == person_lacks_id(p_id@),
                kept@ == s0.take(i as int).filter(f),
            decreases s0.len() - i,
        {
            proof {
                assert(s0.take(i + 1) =~= s0.take(i as int).push(s0[i as int]));
                s0.take(i as int).lemma_filter_push(s0[i as int], f);
            }
            if !(conn.persons[i].id == key) {
                kept.push(conn.persons[i].duplicate());
            }
            i = i + 1;
        }
        assert(s0.take(s0.len() as int) =~= s0);
        proof {
            s0.lemma_filter_len(f);
            if persons_unique(s0) && emails_unique(s0) {
                lemma_filter_unique(s0, f);
            }
        }
        let removed = conn.persons.len() - kept.len();
        conn.persons = kept;
        Ok(removed)
    }

    /// Links every person whose identifier is `p_id` to the Google identity
    /// `g_id`, leaving their other fields alone, then reads the person back.
    pub fn update_google_id(conn: &mut DbConnection, p_id: &str, g_id: &str) -> (r: Result<
        Person,
        DbError,
    >)
        ensures
            old(conn).wf() ==> final(conn).wf(),
            final(conn).persons@.len() == old(conn).persons@.len(),
            forall|j: int| 0 <= j < old(conn).persons@.len() ==> if old(conn).persons@[j].id@ == p_id@ {
                is_linked(old(conn).persons@[j], #[trigger] final(conn).persons@[j], g_id@)
            } else {
                final(conn).persons@[j] == old(conn).persons@[j]
            },
            others_same_but_persons(final(conn), old(conn)),
            match first_match(final(conn).persons@, person_has_id(p_id@)) {
                Some(p) => r == Ok::<Person, DbError>(p),
                None => r == Err::<Person, DbError>(DbError::NotFound),
            },
    {
        let key = p_id.to_owned();
        let ghost s0 = conn.persons@;
        let mut i: usize = 0;
        while i < conn.persons.len()
            invariant
                conn.persons@.len() == s0.len(),
                i <= s0.len(),
                key@ == p_id@,
                forall|j: int| 0 <= j < s0.len() ==> if j < i && s0[j].id@ == p_id@ {
                    is_linked(s0[j], #[trigger] conn.persons@[j], g_id@)
                } else {
                    conn.persons@[j] == s0[j]
                },
                others_same_but_persons(conn, old(conn)),
                s0 == old(conn).persons@,
            decreases s0.len() - i,
        {
            if conn.persons[i].id == key {
                let old_p = conn.persons[i].duplicate();
                let linked = Person { google_id: Some(g_id.to_owned()), ..old_p };
                conn.persons.set(i, linked);
            }
            i = i + 1;
        }
        assert(forall|j: int| 0 <= j < s0.len() ==> (#[trigger] conn.persons@[j]).id == s0[j].id);
        assert(forall|j: int| 0 <= j < s0.len() ==> (#[trigger] conn.persons@[j]).email == s0[j].email);
        PersonInteractor::get_by_id(conn, p_id)
    }
}

/// Keeping some of the people of a table with distinct identifiers and
/// distinct emails keeps both distinct.
pub proof fn lemma_filter_unique(s: Seq<Person>, f: spec_fn(Person) -> bool)
    requires
        persons_unique(s),
        emails_unique(s),
    ensures
        persons_unique(s.filter(f)),
        emails_unique(s.filter(f)),
    decreases s.len(),
{
    reveal(Seq::filter);
    if s.len() > 0 {
        let init = s.drop_last();
        assert(persons_unique(init) && emails_unique(init)) by {
            assert forall|i: int, j: int| 0 <= i < init.len() && 0 <= j < init.len() && i != j implies init[i].id@ != init[j].id@ && init[i].email@ != init[j].email@ by {
                assert(init[i] == s[i] && init[j] == s[j]);
            }
        }
        lemma_filter_unique(init, f);
        let sub = init.filter(f);
        if f(s.last()) {
            assert forall|k: int| 0 <= k < sub.len() implies sub[k].id@ != s.last().id@ && sub[k].email@ != s.last().email@ by {
                assert(sub.contains(sub[k]));
                init.lemma_filter_contains_rev(f, sub[k]);
                let w = choose|w: int| 0 <= w < init.len() && init[w] == sub[k];
                assert(s[w] == init[w]);
                assert(s[s.len() - 1] == s.last());
            }
        }
    }
}

} // verus!
