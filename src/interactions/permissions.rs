//! Queries and updates on the permissions table.

use vstd::prelude::*;
use crate::db::{
    any_match, first_match, lemma_first_index_is, lemma_first_index_none, lemma_first_index_spec,
    others_same_but_permissions, permissions_has_id, permissions_of, same_tables, DbConnection,
    DbError,
};
use crate::models::Permissions;

verus! {

/// Operations on the permissions table.
pub struct PermissionsInteractor {}

/// `p` with every flag and the owner taken from `c`, keeping its identifier.
pub open spec fn with_permission_changes(p: Permissions, c: Permissions) -> Permissions {
    Permissions { id: p.id, ..c }
}

/// The permissions table after the rows with identifier `id` take the changes `c`.
pub open spec fn permissions_updated(s: Seq<Permissions>, id: Seq<char>, c: Permissions) -> Seq<
    Permissions,
> {
    s.map_values(|p: Permissions| if p.id@ == id { with_permission_changes(p, c) } else { p })
}

/// A permissions record whose identifier is not `id`.
pub open spec fn permissions_lacks_id(id: Seq<char>) -> spec_fn(Permissions) -> bool {
    |p: Permissions| p.id@ != id
}

/// The first record of `s` whose identifier is `id`.
fn find_permissions(s: &Vec<Permissions>, id: &str) -> (r: Result<Permissions, DbError>)
    ensures
        match first_match(s@, permissions_has_id(id@)) {
            Some(p) => r == Ok::<Permissions, DbError>(p),
            None => r == Err::<Permissions, DbError>(DbError::NotFound),
        },
{
    let wanted = id.to_owned();
    let ghost f = permissions_has_id(id@);
    let mut i: usize = 0;
    while i < s.len()
        invariant
            i <= s@.len(),
            f == permissions_has_id(id@),
            wanted@ == id@,
            forall|j: int| 0 <= j < i ==> !f(#[trigger] s@[j]),
        decreases s@.len() - i,
    {
        if s[i].id == wanted {
            proof {
                lemma_first_index_is(s@, f, i as int);
            }
            return Ok(s[i].duplicate());
        }
        i = i + 1;
    }
    proof {
        lemma_first_index_none(s@, f);
    }
    Err(DbError::NotFound)
}

impl PermissionsInteractor {
    /// Inserts `permissions`; fails when a record with the same identifier exists.
    #[allow(clippy::new_ret_no_self)]
    pub fn new(conn: &mut DbConnection, permissions: &Permissions) -> (r: Result<usize, DbError>)
        ensures
            any_match(old(conn).permissions@, permissions_has_id(permissions.id@)) ==> {
                &&& r == Err::<usize, DbError>(DbError::UniqueViolation)
                &&& same_tables(final(conn), old(conn))
            },
            !any_match(old(conn).permissions@, permissions_has_id(permissions.id@)) ==> {
                &&& r == Ok::<usize, DbError>(1)
                &&& final(conn).permissions@ == old(conn).permissions@.push(*permissions)
                &&& others_same_but_permissions(final(conn), old(conn))
            },
    {
        proof {
            lemma_first_index_spec(conn.permissions@, permissions_has_id(permissions.id@));
        }
        match find_permissions(&conn.permissions, permissions.id.as_str()) {
            Ok(_) => Err(DbError::UniqueViolation),
            Err(_) => {
                conn.permissions.push(permissions.duplicate());
                Ok(1)
            },
        }
    }

    /// Every permissions record, in insertion order.
    pub fn get(conn: &mut DbConnection) -> (r: Result<Vec<Permissions>, DbError>)
        ensures
            same_tables(final(conn), old(conn)),
            r.is_ok(),
            r.unwrap()@ == old(conn).permissions@,
    {
        let mut out: Vec<Permissions> = Vec::new();
        let mut i: usize = 0;
        while i < conn.permissions.len()
            invariant
                i <= conn.permissions@.len(),
                out@ == conn.permissions@.take(i as int),
            decreases conn.permissions@.len() - i,
        {
            out.push(conn.permissions[i].duplicate());
            i = i + 1;
            assert(out@ =~= conn.permissions@.take(i as int));
        }
        assert(out@ =~= conn.permissions@);
        Ok(out)
    }

    /// The permissions records of the person `p_id`, in insertion order.
    pub fn get_by_p_id(conn: &mut DbConnection, p_id: &str) -> (r: Result<
        Vec<Permissions>,
        DbError,
    >)
        ensures
            same_tables(final(conn), old(conn)),
            r.is_ok(),
            r.unwrap()@ == old(conn).permissions@.filter(permissions_of(p_id@)),
    {
        let wanted = p_id.to_owned();
        let ghost s0 = conn.permissions@;
        let ghost f = permissions_of(p_id@);
        let mut out: Vec<Permissions> = Vec::new();
        let mut i: usize = 0;
        while i < conn.permissions.len()
            invariant
                conn.permissions@ == s0,
                i <= s0.len(),
                wanted@ == p_id@,
                f == permissions_of(p_id@),
                out@ == s0.take(i as int).filter(f),
            decreases s0.len() - i,
        {
            proof {
                assert(s0.take(i + 1) =~= s0.take(i as int).push(s0[i as int]));
                s0.take(i as int).lemma_filter_push(s0[i as int], f);
            }
            if conn.permissions[i].person_id == wanted {
                out.push(conn.permissions[i].duplicate());
            }
            i = i + 1;
        }
        assert(s0.take(s0.len() as int) =~= s0);
        Ok(out)
    }

    /// The first permissions record whose identifier is `p_id`.
    pub fn get_by_id(conn: &mut DbConnection, p_id: &str) -> (r: Result<Permissions, DbError>)
        ensures
            same_tables(final(conn), old(conn)),
            match first_match(old(conn).permissions@, permissions_has_id(p_id@)) {
                Some(p) => r == Ok::<Permissions, DbError>(p),
                None => r == Err::<Permissions, DbError>(DbError::NotFound),
            },
    {
        find_permissions(&conn.permissions, p_id)
    }

    /// Gives every record whose identifier is `p_id` the owner and flags of
    /// `permissions_changes`; returns how many changed.
    pub fn update(conn: &mut DbConnection, p_id: &str, permissions_changes: &Permissions) -> (r:
        Result<usize, DbError>)
        ensures
            final(conn).permissions@ == permissions_updated(
                old(conn).permissions@,
                p_id@,
                *permissions_changes,
            ),
            others_same_but_permissions(final(conn), old(conn)),
            r == Ok::<usize, DbError>(
                old(conn).permissions@.filter(permissions_has_id(p_id@)).len() as usize,
            ),
    {
        let wanted = p_id.to_owned();
        let ghost s0 = conn.permissions@;
        let ghost f = permissions_has_id(p_id@);
        let mut count: usize = 0;
        let mut i: usize = 0;
        while i < conn.permissions.len()
            invariant
                conn.permissions@.len() == s0.len(),
                i <= s0.len(),
                wanted@ == p_id@,
                f == permissions_has_id(p_id@),
                forall|j: int| 0 <= j < i ==> #[trigger] conn.permissions@[j] == (if s0[j].id@
                    == p_id@ {
                    with_permission_changes(s0[j], *permissions_changes)
                } else {
                    s0[j]
                }),
                forall|j: int| i <= j < s0.len() ==> #[trigger] conn.permissions@[j] == s0[j],
                count == s0.take(i as int).filter(f).len(),
                count <= i,
                others_same_but_permissions(conn, old(conn)),
                s0 == old(conn).permissions@,
            decreases s0.len() - i,
        {
            proof {
                assert(s0.take(i + 1) =~= s0.take(i as int).push(s0[i as int]));
                s0.take(i as int).lemma_filter_push(s0[i as int], f);
            }
            if conn.permissions[i].id == wanted {
                let c = permissions_changes.duplicate();
                let changed = Permissions { id: conn.permissions[i].id.clone(), ..c };
                conn.permissions.set(i, changed);
                count = count + 1;
            }
            i = i + 1;
        }
        assert(s0.take(s0.len() as int) =~= s0);
        assert(conn.permissions@ =~= permissions_updated(s0, p_id@, *permissions_changes));
        Ok(count)
    }

    /// Removes every record whose identifier is `p_id`; returns how many went.
    pub fn delete(conn: &mut DbConnection, p_id: &str) -> (r: Result<usize, DbError>)
        ensures
            final(conn).permissions@ == old(conn).permissions@.filter(permissions_lacks_id(p_id@)),
            others_same_but_permissions(final(conn), old(conn)),
            r == Ok::<usize, DbError>(
                (old(conn).permissions@.len() - final(conn).permissions@.len()) as usize,
            ),
    {
        let wanted = p_id.to_owned();
        let ghost s0 = conn.permissions@;
        let ghost f = permissions_lacks_id(p_id@);
        let mut kept: Vec<Permissions> = Vec::new();
        let mut i: usize = 0;
        while i < conn.permissions.len()
            invariant
                conn.permissions@ == s0,
                i <= s0.len(),
                wanted@ == p_id@,
                f == permissions_lacks_id(p_id@),
                kept@ == s0.take(i as int).filter(f),
            decreases s0.len() - i,
        {
            proof {
                assert(s0.take(i + 1) =~= s0.take(i as int).push(s0[i as int]));
                s0.take(i as int).lemma_filter_push(s0[i as int], f);
            }
            if !(conn.permissions[i].id == wanted) {
                kept.push(conn.permissions[i].duplicate());
            }
            i = i + 1;
        }
        assert(s0.take(s0.len() as int) =~= s0);
        proof {
            s0.lemma_filter_len(f);
        }
        let removed = conn.permissions.len() - kept.len();
        conn.permissions = kept;
        Ok(removed)
    }
}

/// `p` with the five flags of `c`, keeping its identifier and owner.
pub open spec fn with_flags(p: Permissions, c: Permissions) -> Permissions {
    Permissions { id: p.id, person_id: p.person_id, ..c }
}

/// The permissions table after the rows with identifier `id` take the flags of `c`.
pub open spec fn flags_updated(s: Seq<Permissions>, id: Seq<char>, c: Permissions) -> Seq<Permissions> {
    s.map_values(|p: Permissions| if p.id@ == id { with_flags(p, c) } else { p })
}

impl Permissions {
    /// Writes the five flags of this record to the stored rows with its identifier.
    pub fn update(&self, conn: &mut DbConnection)
        ensures
            final(conn).permissions@ == flags_updated(old(conn).permissions@, self.id@, *self),
            others_same_but_permissions(final(conn), old(conn)),
    {
        let ghost s0 = conn.permissions@;
        let mut i: usize = 0;
        while i < conn.permissions.len()
            invariant
                conn.permissions@.len() == s0.len(),
                i <= s0.len(),
                forall|j: int| 0 <= j < i ==> #[trigger] conn.permissions@[j] == (if s0[j].id@
                    == self.id@ {
                    with_flags(s0[j], *self)
                } else {
                    s0[j]
                }),
                forall|j: int| i <= j < s0.len() ==> #[trigger] conn.permissions@[j] == s0[j],
                others_same_but_permissions(conn, old(conn)),
                s0 == old(conn).permissions@,
            decreases s0.len() - i,
        {
            if conn.permissions[i].id == self.id {
                let changed = Permissions {
                    id: conn.permissions[i].id.clone(),
                    person_id: conn.permissions[i].person_id.clone(),
                    dashboard: self.dashboard,
                    see_self_history: self.see_self_history,
                    see_others_history: self.see_others_history,
                    admin_panel: self.admin_panel,
                    edit_permissions: self.edit_permissions,
                };
                conn.permissions.set(i, changed);
            }
            i = i + 1;
        }
        assert(conn.permissions@ =~= flags_updated(s0, self.id@, *self));
    }
}

} // verus!
