//! The credential and session store: the account index, the per-account
//! credential records, session records and reset challenges, each a map
//! keyed by the canonical (lower-cased) username or email.
//!
//! The store is the in-memory authority; a caller that wants durability
//! serializes the records it is handed and replays them into a fresh store.

use vstd::prelude::*;
use vstd::hash_map::StringHashMap;
use crate::errors::AuthError;
use crate::models::{FullUserData, OTPData, SessionData};

verus! {

/// The mathematical content of a store: four maps over character sequences.
pub struct AuthView {
    /// Canonical email to the canonical username owning it.
    pub index: Map<Seq<char>, String>,
    /// Canonical username to the account's credential record.
    pub users: Map<Seq<char>, FullUserData>,
    /// Canonical username to the account's single current session.
    pub sessions: Map<Seq<char>, SessionData>,
    /// Canonical username to the account's current reset challenge.
    pub otps: Map<Seq<char>, OTPData>,
}

/// Well-formedness of a store:
/// - every index entry points at an existing credential record;
/// - no two index entries share a username, so each username appears at most
///   once as a value;
/// - every record carries its own key as its username.
pub open spec fn wf_view(v: AuthView) -> bool {
    &&& forall|e: Seq<char>| #[trigger] v.index.contains_key(e) ==> v.users.contains_key(v.index[e]@)
    &&& forall|e1: Seq<char>, e2: Seq<char>|
        #[trigger] v.index.contains_key(e1) && #[trigger] v.index.contains_key(e2)
            && v.index[e1]@ == v.index[e2]@ ==> e1 == e2
    &&& forall|u: Seq<char>| #[trigger] v.users.contains_key(u) ==> v.users[u].username@ == u
}

/// The store itself.
pub struct AuthStore {
    user_map: StringHashMap<String>,
    users: StringHashMap<FullUserData>,
    sessions: StringHashMap<SessionData>,
    otps: StringHashMap<OTPData>,
}

impl View for AuthStore {
    type V = AuthView;

    closed spec fn view(&self) -> AuthView {
        AuthView {
            index: self.user_map@,
            users: self.users@,
            sessions: self.sessions@,
            otps: self.otps@,
        }
    }
}

impl AuthStore {
    /// Well-formedness, preserved by every operation of the store.
    pub open spec fn wf(&self) -> bool {
        wf_view(self@)
    }

    /// An empty store: no accounts, no index entries, no sessions, no
    /// challenges.
    pub fn new() -> (s: Self)
        ensures
            s.wf(),
            s@.index == Map::<Seq<char>, String>::empty(),
            s@.users == Map::<Seq<char>, FullUserData>::empty(),
            s@.sessions == Map::<Seq<char>, SessionData>::empty(),
            s@.otps == Map::<Seq<char>, OTPData>::empty(),
    {
        AuthStore {
            user_map: StringHashMap::new(),
            users: StringHashMap::new(),
            sessions: StringHashMap::new(),
            otps: StringHashMap::new(),
        }
    }

    /// Stores a credential record under its own canonical username,
    /// overwriting any prior record of that account.
    pub fn write_user_data(&mut self, user_data: FullUserData)
        requires
            old(self).wf(),
        ensures
            final(self).wf(),
            final(self)@.users == old(self)@.users.insert(user_data.username@, user_data),
            final(self)@.index == old(self)@.index,
            final(self)@.sessions == old(self)@.sessions,
            final(self)@.otps == old(self)@.otps,
    {
        let key = user_data.username.clone();
        self.users.insert(key, user_data);
        proof {
            assert(self@.index == old(self)@.index);
            assert forall|e: Seq<char>| self@.index.contains_key(e) implies self@.users.contains_key(
                self@.index[e]@,
            ) by {
                assert(old(self)@.users.contains_key(old(self)@.index[e]@));
            }
            assert(wf_view(self@));
        }
    }

    /// Reads the credential record of an account by its canonical username.
    pub fn read_user_data(&self, username: &str) -> (r: Result<&FullUserData, AuthError>)
        ensures
            (match r {
                Ok(rec) => self@.users.contains_key(username@) && *rec == self@.users[username@],
                Err(e) => !self@.users.contains_key(username@) && e == AuthError::NotFound,
            }),
    {
        match self.users.get(username) {
            Some(rec) => Ok(rec),
            None => Err(AuthError::NotFound),
        }
    }

    /// Stores a session record as the account's sole valid session. Fails
    /// with `NotFound` when no account exists under the username.
    pub fn write_sesion_data(&mut self, session_data: SessionData, username: &str) -> (r: Result<
        (),
        AuthError,
    >)
        requires
            old(self).wf(),
        ensures
            final(self).wf(),
            r is Ok <==> old(self)@.users.contains_key(username@),
            (match r {
                Ok(_) => final(self)@.sessions == old(self)@.sessions.insert(
                    username@,
                    session_data,
                ),
                Err(e) => final(self)@ == old(self)@ && e == AuthError::NotFound,
            }),
            final(self)@.index == old(self)@.index,
            final(self)@.users == old(self)@.users,
            final(self)@.otps == old(self)@.otps,
    {
        if self.users.contains_key(username) {
            self.sessions.insert(username.to_owned(), session_data);
            proof {
                assert(self@.index == old(self)@.index);
                assert(self@.users == old(self)@.users);
                assert(wf_view(self@));
            }
            Ok(())
        } else {
            Err(AuthError::NotFound)
        }
    }

    /// Reads the current session record of an account.
    pub fn read_session_data(&self, username: &str) -> (r: Result<&SessionData, AuthError>)
        ensures
            (match r {
                Ok(sd) => self@.sessions.contains_key(username@) && *sd == self@.sessions[username@],
                Err(e) => !self@.sessions.contains_key(username@) && e == AuthError::NotFound,
            }),
    {
        match self.sessions.get(username) {
            Some(sd) => Ok(sd),
            None => Err(AuthError::NotFound),
        }
    }

    /// Stores a reset challenge, replacing any prior one. Fails with
    /// `NotFound` when no account exists under the username.
    pub fn write_otp_data(&mut self, otp_data: OTPData, username: &str) -> (r: Result<
        (),
        AuthError,
    >)
        requires
            old(self).wf(),
        ensures
            final(self).wf(),
            r is Ok <==> old(self)@.users.contains_key(username@),
            (match r {
                Ok(_) => final(self)@.otps == old(self)@.otps.insert(username@, otp_data),
                Err(e) => final(self)@ == old(self)@ && e == AuthError::NotFound,
            }),
            final(self)@.index == old(self)@.index,
            final(self)@.users == old(self)@.users,
            final(self)@.sessions == old(self)@.sessions,
    {
        if self.users.contains_key(username) {
            self.otps.insert(username.to_owned(), otp_data);
            proof {
                assert(self@.index == old(self)@.index);
                assert(self@.users == old(self)@.users);
                assert(wf_view(self@));
            }
            Ok(())
        } else {
            Err(AuthError::NotFound)
        }
    }

    /// Reads the current reset challenge of an account.
    pub fn read_otp_data(&self, username: &str) -> (r: Result<&OTPData, AuthError>)
        ensures
            (match r {
                Ok(ch) => self@.otps.contains_key(username@) && *ch == self@.otps[username@],
                Err(e) => !self@.otps.contains_key(username@) && e == AuthError::NotFound,
            }),
    {
        match self.otps.get(username) {
            Some(ch) => Ok(ch),
            None => Err(AuthError::NotFound),
        }
    }

    /// The number of registered accounts.
    pub fn user_count(&self) -> (n: usize)
        ensures
            n == self@.users.len(),
    {
        self.users.len()
    }

    pub(crate) fn index_get(&self, email: &str) -> (r: Option<&String>)
        ensures
            (match r {
                Some(u) => self@.index.contains_key(email@) && *u == self@.index[email@],
                None => !self@.index.contains_key(email@),
            }),
    {
        self.user_map.get(email)
    }

    pub(crate) fn index_contains(&self, email: &str) -> (r: bool)
        ensures
            r == self@.index.contains_key(email@),
    {
        self.user_map.contains_key(email)
    }

    pub(crate) fn users_contains(&self, username: &str) -> (r: bool)
        ensures
            r == self@.users.contains_key(username@),
    {
        self.users.contains_key(username)
    }

    pub(crate) fn users_get(&self, username: &str) -> (r: Option<&FullUserData>)
        ensures
            (match r {
                Some(rec) => self@.users.contains_key(username@) && *rec == self@.users[username@],
                None => !self@.users.contains_key(username@),
            }),
    {
        self.users.get(username)
    }

    pub(crate) fn sessions_get(&self, username: &str) -> (r: Option<&SessionData>)
        ensures
            (match r {
                Some(sd) => self@.sessions.contains_key(username@) && *sd
                    == self@.sessions[username@],
                None => !self@.sessions.contains_key(username@),
            }),
    {
        self.sessions.get(username)
    }

    pub(crate) fn sessions_insert(&mut self, username: String, sd: SessionData)
        ensures
            final(self)@.sessions == old(self)@.sessions.insert(username@, sd),
            final(self)@.index == old(self)@.index,
            final(self)@.users == old(self)@.users,
            final(self)@.otps == old(self)@.otps,
    {
        self.sessions.insert(username, sd);
    }

    pub(crate) fn otps_get(&self, username: &str) -> (r: Option<&OTPData>)
        ensures
            (match r {
                Some(ch) => self@.otps.contains_key(username@) && *ch == self@.otps[username@],
                None => !self@.otps.contains_key(username@),
            }),
    {
        self.otps.get(username)
    }

    pub(crate) fn otps_insert(&mut self, username: String, ch: OTPData)
        ensures
            final(self)@.otps == old(self)@.otps.insert(username@, ch),
            final(self)@.index == old(self)@.index,
            final(self)@.users == old(self)@.users,
            final(self)@.sessions == old(self)@.sessions,
    {
        self.otps.insert(username, ch);
    }

    pub(crate) fn otps_remove(&mut self, username: &str)
        ensures
            final(self)@.otps == old(self)@.otps.remove(username@),
            final(self)@.index == old(self)@.index,
            final(self)@.users == old(self)@.users,
            final(self)@.sessions == old(self)@.sessions,
    {
        self.otps.remove(username);
    }

    pub(crate) fn users_insert(&mut self, username: String, rec: FullUserData)
        ensures
            final(self)@.users == old(self)@.users.insert(username@, rec),
            final(self)@.index == old(self)@.index,
            final(self)@.sessions == old(self)@.sessions,
            final(self)@.otps == old(self)@.otps,
    {
        self.users.insert(username, rec);
    }

    pub(crate) fn index_insert(&mut self, email: String, username: String)
        ensures
            final(self)@.index == old(self)@.index.insert(email@, username),
            final(self)@.users == old(self)@.users,
            final(self)@.sessions == old(self)@.sessions,
            final(self)@.otps == old(self)@.otps,
    {
        self.user_map.insert(email, username);
    }
}

} // verus!
