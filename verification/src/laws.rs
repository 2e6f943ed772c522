//! Laws of the service, stated over the store's mathematical view and proved
//! once and for all. Each speaks through the same spec functions that the
//! operations' own contracts use.

use vstd::prelude::*;
use crate::models::{FullUserData, SessionData, UserData, user_data_model};
use crate::outside::lower_of;
use crate::service::{
    OTP_FRESH_SECONDS, profile_of, register_allowed, reset_accepted, resolves_to, session_valid,
    username_taken,
};
use crate::store::AuthView;

verus! {

/// The view after a successful registration of the username carried by
/// `su` under email `e`: the record lands in the user map and the index
/// gains the email entry.
pub open spec fn register_step(v: AuthView, e: Seq<char>, su: String, rec: FullUserData) -> AuthView {
    AuthView {
        index: v.index.insert(e, su),
        users: v.users.insert(su@, rec),
        sessions: v.sessions,
        otps: v.otps,
    }
}

/// The view after a session is issued for `u`: only the session map moves,
/// and it maps `u` to the fresh record.
pub open spec fn issue_step(v: AuthView, u: Seq<char>, sd: SessionData) -> AuthView {
    AuthView { index: v.index, users: v.users, sessions: v.sessions.insert(u, sd), otps: v.otps }
}

/// Law of registration uniqueness: when two registrations carry distinct
/// canonical emails and distinct canonical usernames and both are free in a
/// store, the first succeeding leaves the second still free; while after the
/// first one, its email collides for every username, and its username
/// collides under every email.
pub proof fn lemma_register_uniqueness(
    v: AuthView,
    su: String,
    e1: Seq<char>,
    rec: FullUserData,
    u2: Seq<char>,
    e2: Seq<char>,
)
    requires
        register_allowed(v, su@, e1),
        register_allowed(v, u2, e2),
        u2 != su@,
        e2 != e1,
    ensures
        register_allowed(register_step(v, e1, su, rec), u2, e2),
        forall|u: Seq<char>| !register_allowed(register_step(v, e1, su, rec), u, e1),
        forall|e: Seq<char>| !register_allowed(register_step(v, e1, su, rec), su@, e),
{
    let v1 = register_step(v, e1, su, rec);
    assert(!username_taken(v1, u2)) by {
        if username_taken(v1, u2) {
            let e = choose|e: Seq<char>| #[trigger] v1.index.contains_key(e) && v1.index[e]@ == u2;
            if e == e1 {
            } else {
                assert(v.index.contains_key(e) && v.index[e]@ == u2);
            }
        }
    }
    assert forall|e: Seq<char>| !register_allowed(v1, su@, e) by {
        assert(v1.users.contains_key(su@));
    }
}

/// Law of session freshness: after a token is issued for an account, a
/// submission validates for that account exactly when it is the fresh
/// token — whatever was valid before is invalidated at once.
pub proof fn lemma_issue_invalidates(v: AuthView, u: Seq<char>, sd: SessionData, t: Seq<char>)
    ensures
        session_valid(issue_step(v, u, sd), u, t) <==> t == sd.session_key@,
{
}

/// Law of resolution case-insensitivity: an email identifier resolves
/// exactly as its lower-cased form does. The two hypotheses on `lowered`
/// are what the lower-casing wrapper ensures of every value it returns:
/// lower-casing is idempotent and keeps the `@`.
pub proof fn lemma_resolution_case_insensitive(
    v: AuthView,
    login: Seq<char>,
    lowered: Seq<char>,
)
    requires
        login.contains('@'),
        lowered == lower_of(login),
        lowered.contains('@'),
        lower_of(lowered) == lowered,
    ensures
        resolves_to(v, lowered) == resolves_to(v, login),
{
}

/// Law of the reset window: a submission from the freshness window's end
/// onward is never accepted, however correct its code; and a submission
/// whose code differs from the stored one is never accepted, however fresh
/// the challenge.
pub proof fn lemma_reset_window(v: AuthView, u: Seq<char>, submitted: Seq<char>, now: u64)
    ensures
        v.otps.contains_key(u) && now >= v.otps[u].date + OTP_FRESH_SECONDS ==> !reset_accepted(
            v,
            u,
            submitted,
            now,
        ),
        v.otps.contains_key(u) && submitted != v.otps[u].otp@ ==> !reset_accepted(
            v,
            u,
            submitted,
            now,
        ),
{
}

/// Law of profile idempotence: any two profiles that the retrieval contract
/// admits for the same store and the same account are identical in content.
pub proof fn lemma_get_profile_idempotent(v: AuthView, u: Seq<char>, d1: UserData, d2: UserData)
    requires
        user_data_model(d1) == profile_of(v, u),
        user_data_model(d2) == profile_of(v, u),
    ensures
        user_data_model(d1) == user_data_model(d2),
{
}

} // verus!
