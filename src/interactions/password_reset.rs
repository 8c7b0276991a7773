//! Issuing, finding and removing password-reset tokens.

use vstd::prelude::*;
use crate::db::{
    some_token_has_uuid,
    any_match, first_match, lemma_first_index_is, lemma_first_index_none, lemma_first_index_spec,
    others_same_but_tokens, same_tables, token_is, DbConnection, DbError,
};
use crate::models::{is_token_shaped, PasswordResetToken, SECONDS_PER_HOUR};
use crate::support::{clock_now, TIMESTAMP_BOUND};

verus! {

/// Operations on the password-reset token table.
pub struct PasswordResetTokenInteractor;

/// Hours for which a newly issued reset token stays valid.
pub const TOKEN_LIFETIME_HOURS: i64 = 1;

/// A token record with identifier `id`.
pub open spec fn token_has_id(id: Seq<char>) -> spec_fn(PasswordResetToken) -> bool {
    |t: PasswordResetToken| t.id@ == id
}

/// A token record whose secret text is not `token`.
pub open spec fn token_is_not(token: Seq<char>) -> spec_fn(PasswordResetToken) -> bool {
    |t: PasswordResetToken| t.token@ != token
}

/// A token record that has not expired before `now`.
pub open spec fn token_not_expired(now: i64) -> spec_fn(PasswordResetToken) -> bool {
    |t: PasswordResetToken| !(t.expires_at < now)
}

/// The first token of `s` whose secret text is `token`, or whose
/// identifier is `token` when `by_id` holds.
fn find_token(s: &Vec<PasswordResetToken>, token: &str, by_id: bool) -> (r: Result<
    PasswordResetToken,
    DbError,
>)
    ensures
        match first_match(s@, if by_id { token_has_id(token@) } else { token_is(token@) }) {
            Some(t) => r == Ok::<PasswordResetToken, DbError>(t),
            None => r == Err::<PasswordResetToken, DbError>(DbError::NotFound),
        },
{
    let wanted = token.to_owned();
    let ghost f = if by_id { token_has_id(token@) } else { token_is(token@) };
    let mut i: usize = 0;
    while i < s.len()
        invariant
            i <= s@.len(),
            f == (if by_id { token_has_id(token@) } else { token_is(token@) }),
            wanted@ == token@,
            forall|j: int| 0 <= j < i ==> !f(#[trigger] s@[j]),
        decreases s@.len() - i,
    {
        let hit = if by_id { s[i].id == wanted } else { s[i].token == wanted };
        if hit {
            proof {
                lemma_first_index_is(s@, f, i as int);
            }
            return Ok(s[i].duplicate());
        }
        i = i + 1;
    }
    proof {
        lemma_first_index_none(s@, f);
    }
    Err(DbError::NotFound)
}

/// The tokens of `s` that satisfy `keep`: either those whose text is not
/// `token`, or those not expired before `now`.
fn retain_tokens(s: &Vec<PasswordResetToken>, token: &str, now: i64, by_expiry: bool) -> (r: Vec<
    PasswordResetToken,
>)
    ensures
        r@ == s@.filter(
            if by_expiry { token_not_expired(now) } else { token_is_not(token@) },
        ),
{
    let wanted = token.to_owned();
    let ghost f = if by_expiry { token_not_expired(now) } else { token_is_not(token@) };
    let mut kept: Vec<PasswordResetToken> = Vec::new();
    let mut i: usize = 0;
    while i < s.len()
        invariant
            i <= s@.len(),
            wanted@ == token@,
            f == (if by_expiry { token_not_expired(now) } else { token_is_not(token@) }),
            kept@ == s@.take(i as int).filter(f),
        decreases s@.len() - i,
    {
        proof {
            assert(s@.take(i + 1) =~= s@.take(i as int).push(s@[i as int]));
            s@.take(i as int).lemma_filter_push(s@[i as int], f);
        }
        let keep = if by_expiry { !(s[i].expires_at < now) } else { !(s[i].token == wanted) };
        if keep {
            kept.push(s[i].duplicate());
        }
        i = i + 1;
    }
    assert(s@.take(s@.len() as int) =~= s@);
    kept
}

impl PasswordResetTokenInteractor {
    /// Issues and stores a fresh token for `email`, valid for one hour from now.
    pub fn create(conn: &mut DbConnection, email: &str) -> (r: Result<PasswordResetToken, DbError>)
        ensures
            match r {
                Ok(t) => {
                    &&& t.email@ == email@
                    &&& is_token_shaped(t.token@)
                    &&& t.expires_at == t.created_at + TOKEN_LIFETIME_HOURS * SECONDS_PER_HOUR
                    &&& final(conn).tokens@ == old(conn).tokens@.push(t)
                    &&& others_same_but_tokens(final(conn), old(conn))
                },
                Err(e) => e == DbError::UniqueViolation && same_tables(final(conn), old(conn))
                    && some_token_has_uuid(old(conn).tokens@),
            },
    {
        let now = clock_now();
        PasswordResetTokenInteractor::create_at(conn, email, now)
    }

    /// Issues and stores a fresh token for `email`, valid for one hour from `now`.
    /// It fails only when the drawn identifier is already in use.
    pub fn create_at(conn: &mut DbConnection, email: &str, now: i64) -> (r: Result<
        PasswordResetToken,
        DbError,
    >)
        requires
            -TIMESTAMP_BOUND <= now <= TIMESTAMP_BOUND,
        ensures
            match r {
                Ok(t) => {
                    &&& t.email@ == email@
                    &&& is_token_shaped(t.token@)
                    &&& t.created_at == now
                    &&& t.expires_at == now + TOKEN_LIFETIME_HOURS * SECONDS_PER_HOUR
                    &&& !any_match(old(conn).tokens@, token_has_id(t.id@))
                    &&& final(conn).tokens@ == old(conn).tokens@.push(t)
                    &&& others_same_but_tokens(final(conn), old(conn))
                },
                Err(e) => e == DbError::UniqueViolation && same_tables(final(conn), old(conn))
                    && some_token_has_uuid(old(conn).tokens@),
            },
    {
        let token = PasswordResetToken::new_at(email, TOKEN_LIFETIME_HOURS, now);
        proof {
            lemma_first_index_spec(conn.tokens@, token_has_id(token.id@));
        }
        let ghost tokens0 = conn.tokens@;
        match find_token(&conn.tokens, token.id.as_str(), true) {
            Ok(_) => {
                proof {
                    let w = choose|w: int| 0 <= w < tokens0.len() && token_has_id(token.id@)(#[trigger] tokens0[w]);
                    assert(tokens0[w].id@.len() == 36);
                }
                Err(DbError::UniqueViolation)
            },
            Err(_) => {
                conn.tokens.push(token.duplicate());
                Ok(token)
            },
        }
    }

    /// The first stored token whose secret text is `token_str`.
    pub fn find_by_token(conn: &mut DbConnection, token_str: &str) -> (r: Result<
        PasswordResetToken,
        DbError,
    >)
        ensures
            same_tables(final(conn), old(conn)),
            match first_match(old(conn).tokens@, token_is(token_str@)) {
                Some(t) => r == Ok::<PasswordResetToken, DbError>(t),
                None => r == Err::<PasswordResetToken, DbError>(DbError::NotFound),
            },
    {
        find_token(&conn.tokens, token_str, false)
    }

    /// Removes every token whose secret text is `token_str`; returns how many went.
    pub fn delete_by_token(conn: &mut DbConnection, token_str: &str) -> (r: Result<usize, DbError>)
        ensures
            final(conn).tokens@ == old(conn).tokens@.filter(token_is_not(token_str@)),
            others_same_but_tokens(final(conn), old(conn)),
            r == Ok::<usize, DbError>((old(conn).tokens@.len() - final(conn).tokens@.len()) as usize),
    {
        let kept = retain_tokens(&conn.tokens, token_str, 0, false);
        proof {
            conn.tokens@.lemma_filter_len(token_is_not(token_str@));
        }
        let removed = conn.tokens.len() - kept.len();
        conn.tokens = kept;
        Ok(removed)
    }

    /// Removes every token that expired before now; returns how many went.
    pub fn delete_expired(conn: &mut DbConnection) -> (r: Result<usize, DbError>)
        ensures
            exists|now: i64| final(conn).tokens@ == old(conn).tokens@.filter(token_not_expired(now)),
            others_same_but_tokens(final(conn), old(conn)),
            r == Ok::<usize, DbError>((old(conn).tokens@.len() - final(conn).tokens@.len()) as usize),
    {
        let now = clock_now();
        PasswordResetTokenInteractor::delete_expired_at(conn, now)
    }

    /// Removes every token that expired before `now`; returns how many went.
    pub fn delete_expired_at(conn: &mut DbConnection, now: i64) -> (r: Result<usize, DbError>)
        ensures
            final(conn).tokens@ == old(conn).tokens@.filter(token_not_expired(now)),
            others_same_but_tokens(final(conn), old(conn)),
            r == Ok::<usize, DbError>((old(conn).tokens@.len() - final(conn).tokens@.len()) as usize),
    {
        let kept = retain_tokens(&conn.tokens, "", now, true);
        proof {
            conn.tokens@.lemma_filter_len(token_not_expired(now));
        }
        let removed = conn.tokens.len() - kept.len();
        conn.tokens = kept;
        Ok(removed)
    }
}

} // verus!
