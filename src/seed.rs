//! Filling an empty store with demonstration data: an administrator and
//! ten students, each with a morning of entries.

use vstd::prelude::*;
use crate::account::{create_account, AccountError};
use crate::crypto::{hash_accepts, to_hash};
use crate::db::{
    any_match, entry_has_id, permissions_has_id, person_has_email, person_has_id,
    some_entry_has_uuid, some_permissions_has_uuid, some_person_has_uuid, DbConnection, DbError,
};
use crate::interactions::entries::EntriesInteractor;
use crate::models::{action_name, role_name, Action, Entry, Permissions, Person, Role};
use crate::support::{concat, digit_char, TIMESTAMP_BOUND};

verus! {

/// Why seeding stopped.
#[derive(Debug, Clone, Copy, PartialEq, Eq, Structural)]
pub enum SeedError {
    Account(AccountError),
    Entry(DbError),
}

/// Number of students created.
pub const SEED_USERS: usize = 10;

/// Number of entries created for each student.
pub const SEED_ENTRIES: usize = 10;

/// The email of student `k`.
pub open spec fn seed_email(k: nat) -> Seq<char> {
    "user"@ + seq![digit_char(k)] + "@example.com"@
}

/// The password of student `k`.
pub open spec fn seed_password(k: nat) -> Seq<char> {
    "user"@ + seq![digit_char(k)]
}

/// The action of entry `j`: arrivals and departures alternate.
pub open spec fn seed_action(j: nat) -> Action {
    if j % 2 == 0 {
        Action::Enter
    } else {
        Action::Exit
    }
}

/// The instant of entry `j` of student `k`: `j` minutes and `k` ten-minute
/// blocks before `now`.
pub open spec fn seed_instant(now: i64, k: nat, j: nat) -> i64 {
    (now - (j * 60 + k * 600)) as i64
}

/// `p` has the given email and role, and a hash that accepts `password`.
pub open spec fn seeded_person(p: Person, email: Seq<char>, role: Role, password: Seq<char>) -> bool {
    &&& p.email@ == email
    &&& p.role@ == role_name(role)
    &&& p.password_hash.is_some()
    &&& hash_accepts(password, p.password_hash.unwrap()@)
}

/// `q` grants the person `p` every permission.
pub open spec fn all_granted(q: Permissions, p: Person) -> bool {
    &&& q.person_id@ == p.id@
    &&& q.dashboard
    &&& q.see_self_history
    &&& q.see_others_history
    &&& q.admin_panel
    &&& q.edit_permissions
}

/// One of the emails that seeding stores.
pub open spec fn is_seed_email(e: Seq<char>) -> bool {
    e == "admin@cpifplosenlaces.com"@ || exists|d: nat| d < 10 && e == #[trigger] seed_email(d)
}

/// What can stop seeding in the store `c`: a stored row whose identifier
/// has the generated form (a freshly drawn one may repeat it), or a stored
/// person who already has one of the seeded emails.
pub open spec fn seed_blocked(c: &DbConnection) -> bool {
    ||| some_person_has_uuid(c.persons@)
    ||| some_permissions_has_uuid(c.permissions@)
    ||| some_entry_has_uuid(c.entries@)
    ||| exists|i: int| 0 <= i < c.persons@.len() && is_seed_email((#[trigger] c.persons@[i]).email@)
}

/// The rows of `old` still lead every table of `new`, and no token was added.
pub open spec fn kept_rows(old: &DbConnection, new: &DbConnection) -> bool {
    &&& old.persons@.len() <= new.persons@.len()
    &&& old.permissions@.len() <= new.permissions@.len()
    &&& old.entries@.len() <= new.entries@.len()
    &&& forall|k: int| 0 <= k < old.persons@.len() ==> new.persons@[k] == old.persons@[k]
    &&& forall|k: int| 0 <= k < old.permissions@.len() ==> new.permissions@[k] == old.permissions@[k]
    &&& forall|k: int| 0 <= k < old.entries@.len() ==> new.entries@[k] == old.entries@[k]
    &&& new.tokens@ == old.tokens@
}

/// The single decimal digit `d`.
fn digit_text(d: usize) -> (r: String)
    requires
        d < 10,
    ensures
        r@ == seq![digit_char(d as nat)],
{
    let mut s = String::new();
    s.push(((48 + d) as u8) as char);
    s
}

/// Stores a person with the given names, email, role and password, with
/// every permission granted.
fn seed_person(conn: &mut DbConnection, name: &str, surname: &str, email: &str, role: Role, password: &str) -> (r: Result<Person, SeedError>)
    ensures
        match r {
            Ok(p) => {
                &&& final(conn).persons@ == old(conn).persons@.push(p)
                &&& final(conn).permissions@.len() == old(conn).permissions@.len() + 1
                &&& final(conn).permissions@.drop_last() == old(conn).permissions@
                &&& final(conn).entries@ == old(conn).entries@
                &&& final(conn).tokens@ == old(conn).tokens@
                &&& seeded_person(p, email@, role, password@)
                &&& all_granted(final(conn).permissions@.last(), p)
            },
            Err(_) => {
                &&& kept_rows(old(conn), final(conn))
                &&& (some_person_has_uuid(final(conn).persons@) || some_permissions_has_uuid(
                    final(conn).permissions@,
                ) || any_match(final(conn).persons@, person_has_email(email@)))
            },
        },
{
    let hash = to_hash(password);
    let person = Person::new(name, surname, email, role, Some(hash.as_str()), None);
    let permission = Permissions::new(person.id.as_str(), true, true, true, true, true);
    match create_account(conn, &person, &permission) {
        Ok(_) => {
            assert(conn.permissions@.drop_last() =~= old(conn).permissions@);
            Ok(person)
        },
        Err(e) => {
            proof {
                if any_match(conn.persons@, person_has_id(person.id@)) {
                    let w = choose|w: int| 0 <= w < conn.persons@.len() && person_has_id(person.id@)(#[trigger] conn.persons@[w]);
                    assert(conn.persons@[w].id@.len() == 36);
                } else if !any_match(conn.persons@, person_has_email(person.email@)) {
                    let w = choose|w: int| 0 <= w < conn.permissions@.len() && permissions_has_id(permission.id@)(#[trigger] conn.permissions@[w]);
                    assert(conn.permissions@[w].id@.len() == 36);
                }
            }
            Err(SeedError::Account(e))
        },
    }
}

/// Stores the entries of student `k` for the person `pid`.
fn seed_entries(conn: &mut DbConnection, pid: &str, k: usize, now: i64) -> (r: Result<(), SeedError>)
    requires
        k < SEED_USERS,
        -TIMESTAMP_BOUND <= now <= TIMESTAMP_BOUND,
    ensures
        kept_rows(old(conn), final(conn)),
        final(conn).persons@ == old(conn).persons@,
        final(conn).permissions@ == old(conn).permissions@,
        r is Err ==> some_entry_has_uuid(final(conn).entries@),
        r is Ok ==> {
            &&& final(conn).entries@.len() == old(conn).entries@.len() + SEED_ENTRIES
            &&& forall|j: int| 0 <= j < SEED_ENTRIES ==> {
                let e = #[trigger] final(conn).entries@[old(conn).entries@.len() + j];
                &&& e.person_id@ == pid@
                &&& e.action@ == action_name(seed_action(j as nat))
                &&& e.instant == seed_instant(now, k as nat, j as nat)
            }
        },
{
    let ghost e0 = conn.entries@.len();
    let mut j: usize = 0;
    while j < SEED_ENTRIES
        invariant
            j <= SEED_ENTRIES,
            k < SEED_USERS,
            -TIMESTAMP_BOUND <= now <= TIMESTAMP_BOUND,
            e0 == old(conn).entries@.len(),
            kept_rows(old(conn), conn),
            conn.persons@ == old(conn).persons@,
            conn.permissions@ == old(conn).permissions@,
            conn.entries@.len() == e0 + j,
            forall|i: int| 0 <= i < j ==> {
                let e = #[trigger] conn.entries@[e0 + i];
                &&& e.person_id@ == pid@
                &&& e.action@ == action_name(seed_action(i as nat))
                &&& e.instant == seed_instant(now, k as nat, i as nat)
            },
        decreases SEED_ENTRIES - j,
    {
        let action = if j % 2 == 0 {
            Action::Enter
        } else {
            Action::Exit
        };
        let offset = (j as i64) * 60 + (k as i64) * 600;
        let entry = Entry::new_with_timestamp(pid, action, now - offset);
        match EntriesInteractor::new(conn, &entry) {
            Ok(_) => {},
            Err(e) => {
                proof {
                    let w = choose|w: int| 0 <= w < conn.entries@.len() && entry_has_id(entry.id@)(#[trigger] conn.entries@[w]);
                    assert(conn.entries@[w].id@.len() == 36);
                }
                return Err(SeedError::Entry(e));
            },
        }
        j = j + 1;
    }
    Ok(())
}

/// A store whose failure came from a drawn identifier or from the seeded
/// email `email` being held is one where seeding is blocked.
proof fn blocked_by_email(c: &DbConnection, email: Seq<char>)
    requires
        is_seed_email(email),
        some_person_has_uuid(c.persons@) || some_permissions_has_uuid(c.permissions@) || any_match(
            c.persons@,
            person_has_email(email),
        ),
    ensures
        seed_blocked(c),
{
    if any_match(c.persons@, person_has_email(email)) {
        let w = choose|w: int| 0 <= w < c.persons@.len() && person_has_email(email)(#[trigger] c.persons@[w]);
        assert(is_seed_email(c.persons@[w].email@));
    }
}

/// Stores an administrator (password `admin`) and ten students
/// (`user0@example.com` to `user9@example.com`, whose passwords are
/// `user0` to `user9`), all with every permission, and ten alternating
/// entries for each student in the minutes before `now`. Rows already
/// stored are kept; seeding stops at the first write that fails.
pub fn seed(conn: &mut DbConnection, now: i64) -> (r: Result<(), SeedError>)
    requires
        -TIMESTAMP_BOUND <= now <= TIMESTAMP_BOUND,
    ensures
        kept_rows(old(conn), final(conn)),
        r is Err ==> seed_blocked(final(conn)),
        r is Ok ==> {
            let n0 = old(conn).persons@.len();
            let m0 = old(conn).permissions@.len();
            let e0 = old(conn).entries@.len();
            &&& all_granted(final(conn).permissions@[m0 as int], final(conn).persons@[n0 as int])
            &&& forall|k: int| 0 <= k < SEED_USERS ==> all_granted(
                #[trigger] final(conn).permissions@[m0 + 1 + k],
                final(conn).persons@[n0 + 1 + k],
            )
            &&& final(conn).persons@.len() == n0 + 1 + SEED_USERS
            &&& final(conn).permissions@.len() == old(conn).permissions@.len() + 1 + SEED_USERS
            &&& final(conn).entries@.len() == e0 + SEED_USERS * SEED_ENTRIES
            &&& seeded_person(final(conn).persons@[n0 as int], "admin@cpifplosenlaces.com"@, Role::Admin, "admin"@)
            &&& forall|k: int| 0 <= k < SEED_USERS ==> seeded_person(
                #[trigger] final(conn).persons@[n0 + 1 + k],
                seed_email(k as nat),
                Role::Alumno,
                seed_password(k as nat),
            )
            &&& forall|k: int, j: int| 0 <= k < SEED_USERS && 0 <= j < SEED_ENTRIES ==> {
                let e = #[trigger] final(conn).entries@[e0 + k * SEED_ENTRIES + j];
                &&& e.person_id@ == final(conn).persons@[n0 + 1 + k].id@
                &&& e.action@ == action_name(seed_action(j as nat))
                &&& e.instant == seed_instant(now, k as nat, j as nat)
            }
        },
{
    let ghost n0 = conn.persons@.len();
    let ghost m0 = conn.permissions@.len();
    let ghost e0 = conn.entries@.len();
    match seed_person(conn, "Admin", "Admin", "admin@cpifplosenlaces.com", Role::Admin, "admin") {
        Ok(_) => {},
        Err(e) => {
            proof {
                blocked_by_email(conn, "admin@cpifplosenlaces.com"@);
            }
            return Err(e);
        },
    }
    let mut i: usize = 0;
    while i < SEED_USERS
        invariant
            i <= SEED_USERS,
            -TIMESTAMP_BOUND <= now <= TIMESTAMP_BOUND,
            n0 == old(conn).persons@.len(),
            m0 == old(conn).permissions@.len(),
            e0 == old(conn).entries@.len(),
            all_granted(conn.permissions@[m0 as int], conn.persons@[n0 as int]),
            forall|k: int| 0 <= k < i ==> all_granted(
                #[trigger] conn.permissions@[m0 + 1 + k],
                conn.persons@[n0 + 1 + k],
            ),
            kept_rows(old(conn), conn),
            conn.persons@.len() == n0 + 1 + i,
            conn.permissions@.len() == old(conn).permissions@.len() + 1 + i,
            conn.entries@.len() == e0 + i * SEED_ENTRIES,
            seeded_person(conn.persons@[n0 as int], "admin@cpifplosenlaces.com"@, Role::Admin, "admin"@),
            forall|k: int| 0 <= k < i ==> seeded_person(
                #[trigger] conn.persons@[n0 + 1 + k],
                seed_email(k as nat),
                Role::Alumno,
                seed_password(k as nat),
            ),
            forall|k: int, j: int| 0 <= k < i && 0 <= j < SEED_ENTRIES ==> {
                let e = #[trigger] conn.entries@[e0 + k * SEED_ENTRIES + j];
                &&& e.person_id@ == conn.persons@[n0 + 1 + k].id@
                &&& e.action@ == action_name(seed_action(j as nat))
                &&& e.instant == seed_instant(now, k as nat, j as nat)
            },
        decreases SEED_USERS - i,
    {
        let digit = digit_text(i);
        let name = concat("User ", digit.as_str());
        let mut email = concat("user", digit.as_str());
        email.append("@example.com");
        let password = concat("user", digit.as_str());
        let ghost before = *conn;
        let person = match seed_person(conn, name.as_str(), "User", email.as_str(), Role::Alumno, password.as_str()) {
            Ok(p) => p,
            Err(e) => {
                proof {
                    assert(email@ == seed_email(i as nat));
                    blocked_by_email(conn, email@);
                }
                return Err(e);
            },
        };
        let ghost mid = *conn;
        match seed_entries(conn, person.id.as_str(), i, now) {
            Ok(_) => {},
            Err(e) => {
                return Err(e);
            },
        }
        proof {
            assert(conn.persons@[n0 + 1 + i] == person);
            assert(conn.permissions@[m0 + 1 + i] == mid.permissions@.last());
            assert(conn.permissions@[m0 as int] == before.permissions@[m0 as int]) by {
                assert(before.permissions@ == mid.permissions@.drop_last());
            }
            assert forall|k: int| 0 <= k < i + 1 implies all_granted(
                #[trigger] conn.permissions@[m0 + 1 + k],
                conn.persons@[n0 + 1 + k],
            ) by {
                if k < i {
                    assert(before.permissions@ == mid.permissions@.drop_last());
                    assert(conn.permissions@[m0 + 1 + k] == before.permissions@[m0 + 1 + k]);
                    assert(conn.persons@[n0 + 1 + k] == before.persons@[n0 + 1 + k]);
                }
            }
            assert forall|k: int, j: int| 0 <= k < i + 1 && 0 <= j < SEED_ENTRIES implies {
                let e = #[trigger] conn.entries@[e0 + k * SEED_ENTRIES + j];
                &&& e.person_id@ == conn.persons@[n0 + 1 + k].id@
                &&& e.action@ == action_name(seed_action(j as nat))
                &&& e.instant == seed_instant(now, k as nat, j as nat)
            } by {
                assert(k * SEED_ENTRIES + j < (i + 1) * SEED_ENTRIES) by (nonlinear_arith)
                    requires k < i + 1, j < SEED_ENTRIES, SEED_ENTRIES == 10;
                if k < i {
                    assert(k * SEED_ENTRIES + j < i * SEED_ENTRIES) by (nonlinear_arith)
                        requires k < i, j < SEED_ENTRIES, SEED_ENTRIES == 10;
                    assert(conn.entries@[e0 + k * SEED_ENTRIES + j] == before.entries@[e0 + k * SEED_ENTRIES + j]);
                } else {
                    assert(e0 + k * SEED_ENTRIES + j == mid.entries@.len() + j);
                }
            }
        }
        i = i + 1;
    }
    Ok(())
}

} // verus!
