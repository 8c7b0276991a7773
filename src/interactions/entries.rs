//! Queries and updates on the attendance entries table.

use vstd::prelude::*;
use crate::date::{first_datetime, datetime_formats, parse_with_time};
use crate::db::{
    any_match, entry_has_id, first_match, lemma_first_index_is, lemma_first_index_none,
    lemma_first_index_spec, others_same_but_entries, same_tables, DbConnection, DbError,
};
use crate::models::Entry;
use crate::support::concat;

verus! {

/// Operations on the entries table.
pub struct EntriesInteractor {}

/// Which entries a query selects.
enum EntryQuery {
    Person(String),
    Action(String),
    ActionAndPerson(String, String),
    Until(i64),
    UntilAndPerson(i64, String),
}

/// An entry of the person `pid`.
pub open spec fn entry_of(pid: Seq<char>) -> spec_fn(Entry) -> bool {
    |e: Entry| e.person_id@ == pid
}

/// An entry whose action is stored as `a`.
pub open spec fn entry_action_is(a: Seq<char>) -> spec_fn(Entry) -> bool {
    |e: Entry| e.action@ == a
}

/// An entry whose action is `a` and whose person is `pid`.
pub open spec fn entry_action_of(a: Seq<char>, pid: Seq<char>) -> spec_fn(Entry) -> bool {
    |e: Entry| e.action@ == a && e.person_id@ == pid
}

/// An entry made at or before the instant `t`.
pub open spec fn entry_until(t: i64) -> spec_fn(Entry) -> bool {
    |e: Entry| e.instant <= t
}

/// An entry of the person `pid` made at or before the instant `t`.
pub open spec fn entry_until_of(t: i64, pid: Seq<char>) -> spec_fn(Entry) -> bool {
    |e: Entry| e.instant <= t && e.person_id@ == pid
}

/// An entry whose identifier is not `id`.
pub open spec fn entry_lacks_id(id: Seq<char>) -> spec_fn(Entry) -> bool {
    |e: Entry| e.id@ != id
}

/// `e` with the person, instant and action of `c`, keeping its identifier.
pub open spec fn with_entry_changes(e: Entry, c: Entry) -> Entry {
    Entry { id: e.id, ..c }
}

/// The entries table after the rows with identifier `id` take the changes `c`.
pub open spec fn entries_updated(s: Seq<Entry>, id: Seq<char>, c: Entry) -> Seq<Entry> {
    s.map_values(|e: Entry| if e.id@ == id { with_entry_changes(e, c) } else { e })
}

/// The last instant of the day written `date`, read as a date-time.
pub open spec fn end_of_day(date: Seq<char>) -> Option<i64> {
    first_datetime(date + " 23:59:59"@, datetime_formats())
}

spec fn query_pred(q: EntryQuery) -> spec_fn(Entry) -> bool {
    match q {
        EntryQuery::Person(p) => entry_of(p@),
        EntryQuery::Action(a) => entry_action_is(a@),
        EntryQuery::ActionAndPerson(a, p) => entry_action_of(a@, p@),
        EntryQuery::Until(t) => entry_until(t),
        EntryQuery::UntilAndPerson(t, p) => entry_until_of(t, p@),
    }
}

fn query_matches(e: &Entry, q: &EntryQuery) -> (r: bool)
    ensures
        r == query_pred(*q)(*e),
{
    match q {
        EntryQuery::Person(p) => e.person_id == *p,
        EntryQuery::Action(a) => e.action == *a,
        EntryQuery::ActionAndPerson(a, p) => e.action == *a && e.person_id == *p,
        EntryQuery::Until(t) => e.instant <= *t,
        EntryQuery::UntilAndPerson(t, p) => e.instant <= *t && e.person_id == *p,
    }
}

/// The entries of `s` that `q` selects, in order.
fn select_entries(s: &Vec<Entry>, q: &EntryQuery) -> (r: Vec<Entry>)
    ensures
        r@ == s@.filter(query_pred(*q)),
{
    let ghost f = query_pred(*q);
    let mut out: Vec<Entry> = Vec::new();
    let mut i: usize = 0;
    while i < s.len()
        invariant
            i <= s@.len(),
            f == query_pred(*q),
            out@ == s@.take(i as int).filter(f),
        decreases s@.len() - i,
    {
        proof {
            assert(s@.take(i + 1) =~= s@.take(i as int).push(s@[i as int]));
            s@.take(i as int).lemma_filter_push(s@[i as int], f);
        }
        if query_matches(&s[i], q) {
            out.push(s[i].duplicate());
        }
        i = i + 1;
    }
    assert(s@.take(s@.len() as int) =~= s@);
    out
}

/// The first entry of `s` whose identifier is `id`.
fn find_entry(s: &Vec<Entry>, id: &str) -> (r: Result<Entry, DbError>)
    ensures
        match first_match(s@, entry_has_id(id@)) {
            Some(e) => r == Ok::<Entry, DbError>(e),
            None => r == Err::<Entry, DbError>(DbError::NotFound),
        },
{
    let wanted = id.to_owned();
    let ghost f = entry_has_id(id@);
    let mut i: usize = 0;
    while i < s.len()
        invariant
            i <= s@.len(),
            f == entry_has_id(id@),
            wanted@ == id@,
            forall|j: int| 0 <= j < i ==> !f(#[trigger] s@[j]),
        decreases s@.len() - i,
    {
        if s[i].id == wanted {
            proof {
                lemma_first_index_is(s@, f, i as int);
            }
            return Ok(s[i].duplicate());
        }
        i = i + 1;
    }
    proof {
        lemma_first_index_none(s@, f);
    }
    Err(DbError::NotFound)
}

/// The last instant of the day written `date`.
fn day_end(date: &str) -> (r: Option<i64>)
    ensures
        r == end_of_day(date@),
{
    let text = concat(date, " 23:59:59");
    parse_with_time(text.as_str())
}

impl EntriesInteractor {
    /// Inserts `entries`; fails when an entry with the same identifier exists.
    #[allow(clippy::new_ret_no_self)]
    pub fn new(conn: &mut DbConnection, entries: &Entry) -> (r: Result<usize, DbError>)
        ensures
            any_match(old(conn).entries@, entry_has_id(entries.id@)) ==> {
                &&& r == Err::<usize, DbError>(DbError::UniqueViolation)
                &&& same_tables(final(conn), old(conn))
            },
            !any_match(old(conn).entries@, entry_has_id(entries.id@)) ==> {
                &&& r == Ok::<usize, DbError>(1)
                &&& final(conn).entries@ == old(conn).entries@.push(*entries)
                &&& others_same_but_entries(final(conn), old(conn))
            },
    {
        proof {
            lemma_first_index_spec(conn.entries@, entry_has_id(entries.id@));
        }
        match find_entry(&conn.entries, entries.id.as_str()) {
            Ok(_) => Err(DbError::UniqueViolation),
            Err(_) => {
                conn.entries.push(entries.duplicate());
                Ok(1)
            },
        }
    }

    /// Every entry, in insertion order.
    pub fn get(conn: &mut DbConnection) -> (r: Result<Vec<Entry>, DbError>)
        ensures
            same_tables(final(conn), old(conn)),
            r.is_ok(),
            r.unwrap()@ == old(conn).entries@,
    {
        let mut out: Vec<Entry> = Vec::new();
        let mut i: usize = 0;
        while i < conn.entries.len()
            invariant
                i <= conn.entries@.len(),
                out@ == conn.entries@.take(i as int),
            decreases conn.entries@.len() - i,
        {
            out.push(conn.entries[i].duplicate());
            i = i + 1;
            assert(out@ =~= conn.entries@.take(i as int));
        }
        assert(out@ =~= conn.entries@);
        Ok(out)
    }

    /// The entries of the person `p_id`.
    pub fn get_by_p_id(conn: &mut DbConnection, p_id: &str) -> (r: Result<Vec<Entry>, DbError>)
        ensures
            same_tables(final(conn), old(conn)),
            r.is_ok(),
            r.unwrap()@ == old(conn).entries@.filter(entry_of(p_id@)),
    {
        let q = EntryQuery::Person(p_id.to_owned());
        Ok(select_entries(&conn.entries, &q))
    }

    /// The first entry whose identifier is `e_id`.
    pub fn get_by_id(conn: &mut DbConnection, e_id: &str) -> (r: Result<Entry, DbError>)
        ensures
            same_tables(final(conn), old(conn)),
            match first_match(old(conn).entries@, entry_has_id(e_id@)) {
                Some(e) => r == Ok::<Entry, DbError>(e),
                None => r == Err::<Entry, DbError>(DbError::NotFound),
            },
    {
        find_entry(&conn.entries, e_id)
    }

    /// Gives every entry whose identifier is `e_id` the person, instant and
    /// action of `entries_changes`; returns how many changed.
    pub fn update(conn: &mut DbConnection, e_id: &str, entries_changes: &Entry) -> (r: Result<
        usize,
        DbError,
    >)
        ensures
            final(conn).entries@ == entries_updated(old(conn).entries@, e_id@, *entries_changes),
            others_same_but_entries(final(conn), old(conn)),
            r == Ok::<usize, DbError>(old(conn).entries@.filter(entry_has_id(e_id@)).len() as usize),
    {
        let wanted = e_id.to_owned();
        let ghost s0 = conn.entries@;
        let ghost f = entry_has_id(e_id@);
        let mut count: usize = 0;
        let mut i: usize = 0;
        while i < conn.entries.len()
            invariant
                conn.entries@.len() == s0.len(),
                i <= s0.len(),
                wanted@ == e_id@,
                f == entry_has_id(e_id@),
                forall|j: int| 0 <= j < i ==> #[trigger] conn.entries@[j] == (if s0[j].id@ == e_id@ {
                    with_entry_changes(s0[j], *entries_changes)
                } else {
                    s0[j]
                }),
                forall|j: int| i <= j < s0.len() ==> #[trigger] conn.entries@[j] == s0[j],
                count == s0.take(i as int).filter(f).len(),
                count <= i,
                others_same_but_entries(conn, old(conn)),
                s0 == old(conn).entries@,
            decreases s0.len() - i,
        {
            proof {
                assert(s0.take(i + 1) =~= s0.take(i as int).push(s0[i as int]));
                s0.take(i as int).lemma_filter_push(s0[i as int], f);
            }
            if conn.entries[i].id == wanted {
                let c = entries_changes.duplicate();
                let changed = Entry { id: conn.entries[i].id.clone(), ..c };
                conn.entries.set(i, changed);
                count = count + 1;
            }
            i = i + 1;
        }
        assert(s0.take(s0.len() as int) =~= s0);
        assert(conn.entries@ =~= entries_updated(s0, e_id@, *entries_changes));
        Ok(count)
    }

    /// Removes every entry whose identifier is `e_id`; returns how many went.
    pub fn delete(conn: &mut DbConnection, e_id: &str) -> (r: Result<usize, DbError>)
        ensures
            final(conn).entries@ == old(conn).entries@.filter(entry_lacks_id(e_id@)),
            others_same_but_entries(final(conn), old(conn)),
            r == Ok::<usize, DbError>((old(conn).entries@.len() - final(conn).entries@.len()) as usize),
    {
        let wanted = e_id.to_owned();
        let ghost s0 = conn.entries@;
        let ghost f = entry_lacks_id(e_id@);
        let mut kept: Vec<Entry> = Vec::new();
        let mut i: usize = 0;
        while i < conn.entries.len()
            invariant
                conn.entries@ == s0,
                i <= s0.len(),
                wanted@ == e_id@,
                f == entry_lacks_id(e_id@),
                kept@ == s0.take(i as int).filter(f),
            decreases s0.len() - i,
        {
            proof {
                assert(s0.take(i + 1) =~= s0.take(i as int).push(s0[i as int]));
                s0.take(i as int).lemma_filter_push(s0[i as int], f);
            }
            if !(conn.entries[i].id == wanted) {
                kept.push(conn.entries[i].duplicate());
            }
            i = i + 1;
        }
        assert(s0.take(s0.len() as int) =~= s0);
        proof {
            s0.lemma_filter_len(f);
        }
        let removed = conn.entries.len() - kept.len();
        conn.entries = kept;
        Ok(removed)
    }

    /// The entries made up to the end of the day written `date`; a date
    /// that cannot be read finds nothing.
    pub fn get_by_date(conn: &mut DbConnection, date: &str) -> (r: Result<Vec<Entry>, DbError>)
        ensures
            same_tables(final(conn), old(conn)),
            match end_of_day(date@) {
                Some(t) => r is Ok && r.unwrap()@ == old(conn).entries@.filter(entry_until(t)),
                None => r == Err::<Vec<Entry>, DbError>(DbError::NotFound),
            },
    {
        match day_end(date) {
            Some(t) => Ok(select_entries(&conn.entries, &EntryQuery::Until(t))),
            None => Err(DbError::NotFound),
        }
    }

    /// The entries of the person `p_id` made up to the end of the day `date`.
    pub fn get_by_date_and_p_id(conn: &mut DbConnection, date: &str, p_id: &str) -> (r: Result<
        Vec<Entry>,
        DbError,
    >)
        ensures
            same_tables(final(conn), old(conn)),
            match end_of_day(date@) {
                Some(t) => r is Ok && r.unwrap()@ == old(conn).entries@.filter(
                    entry_until_of(t, p_id@),
                ),
                None => r == Err::<Vec<Entry>, DbError>(DbError::NotFound),
            },
    {
        match day_end(date) {
            Some(t) => Ok(select_entries(&conn.entries, &EntryQuery::UntilAndPerson(t, p_id.to_owned()))),
            None => Err(DbError::NotFound),
        }
    }

    /// The entries whose action is stored as `req_action`.
    pub fn get_by_action(conn: &mut DbConnection, req_action: &str) -> (r: Result<
        Vec<Entry>,
        DbError,
    >)
        ensures
            same_tables(final(conn), old(conn)),
            r.is_ok(),
            r.unwrap()@ == old(conn).entries@.filter(entry_action_is(req_action@)),
    {
        Ok(select_entries(&conn.entries, &EntryQuery::Action(req_action.to_owned())))
    }

    /// The entries of the person `p_id` whose action is stored as `req_action`.
    pub fn get_by_action_and_p_id(conn: &mut DbConnection, req_action: &str, p_id: &str) -> (r:
        Result<Vec<Entry>, DbError>)
        ensures
            same_tables(final(conn), old(conn)),
            r.is_ok(),
            r.unwrap()@ == old(conn).entries@.filter(entry_action_of(req_action@, p_id@)),
    {
        let q = EntryQuery::ActionAndPerson(req_action.to_owned(), p_id.to_owned());
        Ok(select_entries(&conn.entries, &q))
    }
}

} // verus!
