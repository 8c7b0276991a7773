//! Properties that hold across several operations of the service.

use vstd::prelude::*;
use crate::auth::{
    forgot_password_json, send_outcome, ForgotPasswordReply, login_outcome, password_replaced, register_refusal, registered, verify_reset_outcome,
    with_password_hash, LoginReply, Register, RegisterReply, VerifyResetReply,
};
use crate::crypto::hash_accepts;
use crate::db::{
    persons_unique,
    any_match, first_index, first_match, lemma_first_index_is, lemma_first_index_spec,
    person_has_email, person_has_google_id, token_is, DbConnection,
};
use crate::google_auth::{google_registered, GoogleRegister};
use crate::interactions::password_reset::{token_is_not, token_not_expired, TOKEN_LIFETIME_HOURS};
use crate::interactions::person::{persons_updated, with_changes};
use crate::models::{token_valid_at, PasswordResetToken, Person, SECONDS_PER_HOUR};

verus! {

/// Registering the same request a second time, after the first one went
/// through, is refused as a conflict (the email is taken, or the Google
/// identity is already registered); the refusal writes nothing.
pub proof fn lemma_register_twice_conflicts(s0: &DbConnection, s1: &DbConnection, req: Register)
    requires
        registered(s0, s1, req),
    ensures
        register_refusal(s1.persons@, req) == Some(
            if req.google_id.is_some() {
                RegisterReply::GoogleAccountRegistered
            } else {
                RegisterReply::EmailTaken
            },
        ),
{
    let ps = s1.persons@;
    let last = ps.len() - 1;
    assert(ps[last] == ps.last());
    if req.google_id.is_some() {
        assert(person_has_google_id(req.google_id.unwrap()@)(ps[last]));
    } else {
        assert(person_has_email(req.email@)(ps[last]));
        lemma_first_index_spec(ps, person_has_email(req.email@));
    }
}

/// A second Google registration with the same identity finds the account
/// that the first one created, and so answers with the same person.
pub proof fn lemma_google_register_idempotent(
    s0: &DbConnection,
    s1: &DbConnection,
    req: GoogleRegister,
)
    requires
        !any_match(s0.persons@, person_has_google_id(req.google_id@)),
        google_registered(s0, s1, req),
    ensures
        first_match(s1.persons@, person_has_google_id(req.google_id@)) == Some(s1.persons@.last()),
{
    let ps = s1.persons@;
    let f = person_has_google_id(req.google_id@);
    let last = ps.len() - 1;
    assert(ps[last] == ps.last());
    assert forall|j: int| 0 <= j < last implies !f(#[trigger] ps[j]) by {
        assert(ps[j] == s0.persons@[j]);
    }
    lemma_first_index_is(ps, f, last);
}

/// A token just issued by a reset request (whose text no stored token
/// had) is found valid at the moment it was issued and until its hour is
/// over; from then on it is found expired, and the check removes it.
pub proof fn lemma_reset_token_lifecycle(
    s0: &DbConnection,
    s1: &DbConnection,
    now: i64,
    at: i64,
)
    requires
        s1.tokens@.len() > 0,
        s1.tokens@ == s0.tokens@.filter(token_not_expired(now)).push(s1.tokens@.last()),
        s1.tokens@.last().expires_at == now + TOKEN_LIFETIME_HOURS * SECONDS_PER_HOUR,
        !any_match(s0.tokens@, token_is(s1.tokens@.last().token@)),
    ensures
        verify_reset_outcome(s1.tokens@, s1.tokens@.last().token@, now) == VerifyResetReply::Valid,
        at < s1.tokens@.last().expires_at ==> verify_reset_outcome(
            s1.tokens@,
            s1.tokens@.last().token@,
            at,
        ) == VerifyResetReply::Valid,
        at >= s1.tokens@.last().expires_at ==> verify_reset_outcome(
            s1.tokens@,
            s1.tokens@.last().token@,
            at,
        ) == VerifyResetReply::Expired,
        !any_match(
            s1.tokens@.filter(token_is_not(s1.tokens@.last().token@)),
            token_is(s1.tokens@.last().token@),
        ),
{
    let t = s1.tokens@.last();
    let ts = s1.tokens@;
    let f = token_is(t.token@);
    let kept = s0.tokens@.filter(token_not_expired(now));
    let last = ts.len() - 1;
    assert(ts[last] == t);
    assert forall|j: int| 0 <= j < last implies !f(#[trigger] ts[j]) by {
        assert(ts[j] == kept[j]);
        assert(kept.contains(kept[j]));
        s0.tokens@.lemma_filter_contains_rev(token_not_expired(now), kept[j]);
        let k = choose|k: int| 0 <= k < s0.tokens@.len() && s0.tokens@[k] == kept[j];
        assert(!f(s0.tokens@[k]));
    }
    lemma_first_index_is(ts, f, last);
    lemma_filtered_out(ts, t.token@);
}

/// After removing every token with text `token`, none is left.
proof fn lemma_filtered_out(ts: Seq<PasswordResetToken>, token: Seq<char>)
    ensures
        !any_match(ts.filter(token_is_not(token)), token_is(token)),
{
    let g = token_is_not(token);
    let kept = ts.filter(g);
    if any_match(kept, token_is(token)) {
        let w = choose|w: int| 0 <= w < kept.len() && token_is(token)(#[trigger] kept[w]);
        ts.lemma_filter_pred(g, w);
    }
}

/// After a password reset with a valid token, logging in with the new
/// password succeeds, and the token can no longer be found, so a second
/// reset with it is refused as an invalid token.
pub proof fn lemma_reset_then_login(
    s0: &DbConnection,
    s1: &DbConnection,
    token: Seq<char>,
    new_password: Seq<char>,
    now: i64,
)
    requires
        s0.wf(),
        first_match(s0.tokens@, token_is(token)) is Some,
        token_valid_at(first_match(s0.tokens@, token_is(token)).unwrap().expires_at, now),
        first_match(
            s0.persons@,
            person_has_email(first_match(s0.tokens@, token_is(token)).unwrap().email@),
        ) is Some,
        password_replaced(
            s0.persons@,
            s1.persons@,
            first_match(
                s0.persons@,
                person_has_email(first_match(s0.tokens@, token_is(token)).unwrap().email@),
            ).unwrap(),
            new_password,
        ),
        s1.tokens@ == s0.tokens@.filter(token_is_not(token)),
    ensures
        login_outcome(
            s1.persons@,
            first_match(s0.tokens@, token_is(token)).unwrap().email@,
            new_password,
        ) == LoginReply::Accepted,
        first_match(s1.tokens@, token_is(token)) is None,
{
    let t = first_match(s0.tokens@, token_is(token)).unwrap();
    let p = first_match(s0.persons@, person_has_email(t.email@)).unwrap();
    lemma_password_replaced_login(s0.persons@, s1.persons@, t.email@, p, new_password);
    lemma_filtered_out(s0.tokens@, token);
    lemma_first_index_spec(s1.tokens@, token_is(token));
}

/// Once the first account with `email` got a fresh hash of `password`
/// (identifiers being unique), logging in with `email` and `password` succeeds.
pub proof fn lemma_password_replaced_login(
    old: Seq<Person>,
    new: Seq<Person>,
    email: Seq<char>,
    p: Person,
    password: Seq<char>,
)
    requires
        persons_unique(old),
        first_match(old, person_has_email(email)) == Some(p),
        password_replaced(old, new, p, password),
    ensures
        login_outcome(new, email, password) == LoginReply::Accepted,
{
    let f = person_has_email(email);
    lemma_first_index_spec(old, f);
    let i = first_index(old, f).unwrap();
    let h = choose|h: String|
        hash_accepts(password, h@) && crate::crypto::is_phc_shaped(h@) && new == persons_updated(
            old,
            p.id@,
            #[trigger] with_password_hash(p, h),
        );
    let q = with_password_hash(p, h);
    assert(new.len() == old.len());
    assert(new[i] == with_changes(old[i], q));
    assert forall|j: int| 0 <= j < i implies !f(#[trigger] new[j]) by {
        if old[j].id@ == p.id@ {
            assert(j != i);
            assert(false);
        }
        assert(new[j] == old[j]);
    }
    assert(f(new[i]));
    lemma_first_index_is(new, f, i);
}

/// A reset request for an email that no account has is answered at once
/// with the very text that a request for a known email gets once its email
/// went out: the answers do not tell whether an account exists.
pub proof fn lemma_forgot_password_same_answer(persons: Seq<Person>, missing: Seq<char>)
    requires
        !any_match(persons, person_has_email(missing)),
    ensures
        first_match(persons, person_has_email(missing)) is None,
        forgot_password_json(ForgotPasswordReply::Sent) == forgot_password_json(send_outcome(true)),
{
    lemma_first_index_spec(persons, person_has_email(missing));
}

/// In a well-formed store emails are unique, so looking a person up by
/// their email finds exactly that person: the password, reset and linking
/// flows act on the account whose email was given.
pub proof fn lemma_email_lookup_finds_owner(c: &DbConnection, i: int)
    requires
        c.wf(),
        0 <= i < c.persons@.len(),
    ensures
        first_match(c.persons@, person_has_email(c.persons@[i].email@)) == Some(c.persons@[i]),
{
    let s = c.persons@;
    let f = person_has_email(s[i].email@);
    assert forall|j: int| 0 <= j < i implies !f(#[trigger] s[j]) by {
        assert(s[j].email@ != s[i].email@);
    }
    lemma_first_index_is(s, f, i);
}

} // verus!
