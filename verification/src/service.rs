//! The auth service: registration, login, profile retrieval and update, and
//! the one-time-code password-reset flow, orchestrated over the store.
//!
//! Operations that depend on the clock come in two layers: a `_at` function
//! that takes the current second as an argument and carries the exact
//! contract, and a thin sibling that reads the machine clock and states only
//! what holds for every possible reading.

use vstd::prelude::*;
use vstd::hash_map::StringHashMap;
use crate::errors::{AuthError, ResetOutcome};
use crate::models::{
    EmailAddress, FullUserData, LoginRequest, LoginResponse, OTPData, OTPSubmit, Personalization,
    RegisterUser, RequestPassword, SendGridEmail, SessionData, UserData, UserDataRequest,
    UserDataUpdate, opt_view, user_data_model,
};
use crate::outside::{
    clock_seconds, guid_from_bits, lower_of, lowercase, rand_bits, sha256_hex, sha256_hex_of,
};
use crate::store::{AuthStore, AuthView, wf_view};
use crate::text::{
    clamp_seconds, code_shape, contains_at_sign, make_otp_code, make_session_token, token_shape,
};

verus! {

/// The lowest client version that login accepts.
pub const MIN_CLIENT_VERSION: u32 = 1;

/// How long a reset challenge stays fresh, in seconds (two hours).
pub const OTP_FRESH_SECONDS: u64 = 7200;

/// True iff some index entry already carries this canonical username.
pub open spec fn username_taken(v: AuthView, u: Seq<char>) -> bool {
    exists|e: Seq<char>| #[trigger] v.index.contains_key(e) && v.index[e]@ == u
}

/// A registration of canonical username `u` under canonical email `e` is
/// allowed iff no record, no index key and no index value collides.
pub open spec fn register_allowed(v: AuthView, u: Seq<char>, e: Seq<char>) -> bool {
    &&& !v.users.contains_key(u)
    &&& !v.index.contains_key(e)
    &&& !username_taken(v, u)
}

/// Resolution of a login identifier: one holding an `@` is an email and goes
/// through the index; any other is taken as a username and lower-cased.
pub open spec fn resolves_to(v: AuthView, login: Seq<char>) -> Option<Seq<char>> {
    if login.contains('@') {
        if v.index.contains_key(lower_of(login)) {
            Some(v.index[lower_of(login)]@)
        } else {
            None
        }
    } else {
        Some(lower_of(login))
    }
}

/// The canonical username a login identifier resolves to (empty when it
/// resolves to nothing).
pub open spec fn resolved(v: AuthView, login: Seq<char>) -> Seq<char> {
    match resolves_to(v, login) {
        Some(u) => u,
        None => Seq::empty(),
    }
}

/// True iff the identifier resolves to a registered account.
pub open spec fn account_known(v: AuthView, login: Seq<char>) -> bool {
    match resolves_to(v, login) {
        Some(u) => v.users.contains_key(u),
        None => false,
    }
}

/// Login acceptance: the account exists, the client version is current
/// enough, and the password's digest equals the stored one.
pub open spec fn login_accepted(
    v: AuthView,
    login: Seq<char>,
    password: Seq<char>,
    version: u32,
) -> bool {
    &&& account_known(v, login)
    &&& version >= MIN_CLIENT_VERSION
    &&& v.users[resolved(v, login)].password@ == sha256_hex_of(password)
}

/// A token is valid for an account iff it is exactly the most recently
/// stored one. No expiry is tracked: validity lasts until superseded.
pub open spec fn session_valid(v: AuthView, u: Seq<char>, token: Seq<char>) -> bool {
    &&& v.sessions.contains_key(u)
    &&& v.sessions[u].session_key@ == token
}

/// Reset acceptance at second `now`: a challenge exists, its code equals the
/// submission exactly, and strictly less than the freshness window elapsed.
pub open spec fn reset_accepted(v: AuthView, u: Seq<char>, code: Seq<char>, now: u64) -> bool {
    &&& v.otps.contains_key(u)
    &&& v.otps[u].otp@ == code
    &&& (now as int) < v.otps[u].date + OTP_FRESH_SECONDS
}

/// The profile an account shows: username, email, avatar.
pub open spec fn profile_of(v: AuthView, u: Seq<char>) -> (
    Seq<char>,
    Option<Seq<char>>,
    Option<Seq<char>>,
) {
    (v.users[u].username@, opt_view(v.users[u].email), opt_view(v.users[u].avatar))
}

/// The shape of the outbound reset mail: fixed sender and template, one
/// recipient block addressed to the given email, and the template data
/// `username`, `otp`, `email` in that order.
pub open spec fn otp_email_shape(
    m: SendGridEmail,
    code: Seq<char>,
    username: Seq<char>,
    email: Seq<char>,
) -> bool {
    &&& m.from.email@ == "no-reply@gmail.com"@
    &&& m.template_id@ == "d-36dab063ce184e4180e716439b12ac9a"@
    &&& m.personalizations@.len() == 1
    &&& m.personalizations@[0].to@.len() == 1
    &&& m.personalizations@[0].to@[0].email@ == email
    &&& m.personalizations@[0].dynamic_template_data@.len() == 3
    &&& m.personalizations@[0].dynamic_template_data@[0].0@ == "username"@
    &&& m.personalizations@[0].dynamic_template_data@[0].1@ == username
    &&& m.personalizations@[0].dynamic_template_data@[1].0@ == "otp"@
    &&& m.personalizations@[0].dynamic_template_data@[1].1@ == code
    &&& m.personalizations@[0].dynamic_template_data@[2].0@ == "email"@
    &&& m.personalizations@[0].dynamic_template_data@[2].1@ == email
}

/// Persisted index entries fit a set of records iff every entry names an
/// existing record, no email appears twice, and no username is claimed
/// twice.
pub open spec fn index_entries_consistent(
    users: Map<Seq<char>, FullUserData>,
    es: Seq<(String, String)>,
) -> bool {
    &&& forall|i: int| 0 <= i < es.len() ==> users.contains_key((#[trigger] es[i]).1@)
    &&& forall|i: int, j: int|
        0 <= i < j < es.len() ==> (#[trigger] es[i]).0@ != (#[trigger] es[j]).0@
    &&& forall|i: int, j: int|
        0 <= i < j < es.len() ==> (#[trigger] es[i]).1@ != (#[trigger] es[j]).1@
}

/// Copies an optional string.
fn clone_opt(o: &Option<String>) -> (r: Option<String>)
    ensures
        r == *o,
{
    match o {
        Some(s) => Some(s.clone()),
        None => None,
    }
}

/// Builds the payload of the reset mail for the outbound delivery
/// collaborator.
pub fn build_otp_email(code: &str, username: &str, email: &str) -> (m: SendGridEmail)
    ensures
        otp_email_shape(m, code@, username@, email@),
{
    let mut data: Vec<(String, String)> = Vec::new();
    data.push(("username".to_owned(), username.to_owned()));
    data.push(("otp".to_owned(), code.to_owned()));
    data.push(("email".to_owned(), email.to_owned()));
    let mut to: Vec<EmailAddress> = Vec::new();
    to.push(EmailAddress { email: email.to_owned() });
    let mut personalizations: Vec<Personalization> = Vec::new();
    personalizations.push(Personalization { to, dynamic_template_data: data });
    SendGridEmail {
        personalizations,
        from: EmailAddress { email: "no-reply@gmail.com".to_owned() },
        template_id: "d-36dab063ce184e4180e716439b12ac9a".to_owned(),
    }
}

impl AuthStore {
    /// Looks a login identifier up: one holding an `@` is resolved through
    /// the account index; any other is returned as it came.
    pub fn email_lookup(&self, login: &str) -> (r: Result<String, AuthError>)
        ensures
            login@.contains('@') ==> (match r {
                Ok(u) => self@.index.contains_key(lower_of(login@)) && u == self@.index[lower_of(
                    login@,
                )],
                Err(e) => !self@.index.contains_key(lower_of(login@)) && e == AuthError::NotFound,
            }),
            !login@.contains('@') ==> (r matches Ok(u) && u@ == login@),
    {
        if contains_at_sign(login) {
            let key = lowercase(login);
            match self.index_get(key.as_str()) {
                Some(u) => Ok(u.clone()),
                None => Err(AuthError::NotFound),
            }
        } else {
            Ok(login.to_owned())
        }
    }

    /// Resolves a login identifier to the canonical username it denotes.
    fn resolve_account(&self, login: &str) -> (r: Result<String, AuthError>)
        ensures
            (match r {
                Ok(u) => resolves_to(self@, login@) == Some(u@),
                Err(e) => resolves_to(self@, login@) is None && e == AuthError::NotFound,
            }),
    {
        if contains_at_sign(login) {
            self.email_lookup(login)
        } else {
            Ok(lowercase(login))
        }
    }

    /// Registers an account. Fails with `Conflict` iff the email is already
    /// indexed, the username already has a record, or the username already
    /// appears as an index value. On success the credential record lands
    /// before the index entry, so a failure between the two could only leave
    /// an orphan record, never an index entry without a record.
    pub fn register(&mut self, req: RegisterUser) -> (r: Result<LoginResponse, AuthError>)
        requires
            old(self).wf(),
        ensures
            final(self).wf(),
            r is Ok <==> register_allowed(
                old(self)@,
                lower_of(req.username@),
                lower_of(req.email@),
            ),
            (r matches Err(e) ==> e == AuthError::Conflict && final(self)@ == old(self)@),
            (r matches Ok(resp) ==> ({
                let u = lower_of(req.username@);
                let em = lower_of(req.email@);
                &&& final(self)@.users.contains_key(u)
                &&& final(self)@.users == old(self)@.users.insert(u, final(self)@.users[u])
                &&& final(self)@.users[u].username@ == u
                &&& final(self)@.users[u].password@ == sha256_hex_of(req.password@)
                &&& opt_view(final(self)@.users[u].email) == Some(req.email@)
                &&& final(self)@.users[u].avatar is None
                &&& final(self)@.index.contains_key(em)
                &&& final(self)@.index == old(self)@.index.insert(em, final(self)@.index[em])
                &&& final(self)@.index[em]@ == u
                &&& final(self)@.sessions == old(self)@.sessions
                &&& final(self)@.otps == old(self)@.otps
                &&& resp.session_key@ == Seq::<char>::empty()
                &&& resp.username@ == req.username@
            })),
    {
        let uname = lowercase(req.username.as_str());
        let lemail = lowercase(req.email.as_str());
        if self.users_contains(uname.as_str()) {
            return Err(AuthError::Conflict);
        }
        if self.index_contains(lemail.as_str()) {
            return Err(AuthError::Conflict);
        }
        proof {
            assert(!username_taken(self@, uname@)) by {
                if username_taken(self@, uname@) {
                    let e = choose|e: Seq<char>|
                        #[trigger] self@.index.contains_key(e) && self@.index[e]@ == uname@;
                    assert(self@.users.contains_key(self@.index[e]@));
                }
            }
        }
        let guid = guid_from_bits(rand_bits());
        let password_hash = sha256_hex(req.password.as_str());
        let record = FullUserData {
            username: uname.clone(),
            guid,
            email: Some(req.email.clone()),
            avatar: None,
            password: password_hash,
        };
        self.users_insert(uname.clone(), record);
        self.index_insert(lemail, uname);
        proof {
            let u = lower_of(req.username@);
            let em = lower_of(req.email@);
            let oldv = old(self)@;
            let newv = self@;
            assert forall|e: Seq<char>| newv.index.contains_key(e) implies newv.users.contains_key(
                newv.index[e]@,
            ) by {
                if e != em {
                    assert(oldv.index.contains_key(e));
                    assert(oldv.users.contains_key(oldv.index[e]@));
                }
            }
            assert forall|e1: Seq<char>, e2: Seq<char>|
                newv.index.contains_key(e1) && newv.index.contains_key(e2) && newv.index[e1]@
                    == newv.index[e2]@ implies e1 == e2 by {
                if e1 != em && e2 != em {
                    assert(oldv.index.contains_key(e1));
                    assert(oldv.index.contains_key(e2));
                } else if e1 == em && e2 != em {
                    assert(oldv.index.contains_key(e2) && oldv.index[e2]@ == u);
                } else if e2 == em && e1 != em {
                    assert(oldv.index.contains_key(e1) && oldv.index[e1]@ == u);
                }
            }
            assert forall|w: Seq<char>| newv.users.contains_key(w) implies newv.users[w].username@
                == w by {
                if w != u {
                    assert(oldv.users.contains_key(w));
                }
            }
            assert(wf_view(newv));
        }
        Ok(LoginResponse { session_key: String::new(), username: req.username })
    }

    /// Rebuilds the account index of a freshly loaded store from persisted
    /// (email, username) pairs. Every pair must name an existing record, no
    /// email may appear twice, and no username may be claimed twice; any
    /// violation means the persisted index does not fit the records, and the
    /// restore stops with `Corrupt`.
    pub fn restore_index(&mut self, entries: Vec<(String, String)>) -> (r: Result<(), AuthError>)
        requires
            old(self).wf(),
            old(self)@.index == Map::<Seq<char>, String>::empty(),
        ensures
            final(self).wf(),
            final(self)@.users == old(self)@.users,
            final(self)@.sessions == old(self)@.sessions,
            final(self)@.otps == old(self)@.otps,
            r is Ok <==> index_entries_consistent(old(self)@.users, entries@),
            (r matches Err(e) ==> e == AuthError::Corrupt),
            (r matches Ok(_) ==> ({
                &&& forall|i: int|
                    0 <= i < entries@.len() ==> final(self)@.index.contains_key(
                        #[trigger] entries@[i].0@,
                    ) && final(self)@.index[entries@[i].0@]@ == entries@[i].1@
                &&& forall|e: Seq<char>| #[trigger]
                    final(self)@.index.contains_key(e) ==> exists|i: int|
                        0 <= i < entries@.len() && #[trigger] entries@[i].0@ == e
            })),
    {
        let mut taken: StringHashMap<bool> = StringHashMap::new();
        let mut i: usize = 0;
        while i < entries.len()
            invariant
                self.wf(),
                i <= entries@.len(),
                self@.users == old(self)@.users,
                self@.sessions == old(self)@.sessions,
                self@.otps == old(self)@.otps,
                forall|j: int|
                    0 <= j < i ==> self@.index.contains_key(#[trigger] entries@[j].0@)
                        && self@.index[entries@[j].0@]@ == entries@[j].1@,
                forall|e: Seq<char>| #[trigger]
                    self@.index.contains_key(e) ==> exists|j: int|
                        0 <= j < i && #[trigger] entries@[j].0@ == e,
                forall|e: Seq<char>| #[trigger]
                    self@.index.contains_key(e) ==> taken@.contains_key(self@.index[e]@),
                forall|j: int| 0 <= j < i ==> taken@.contains_key((#[trigger] entries@[j]).1@),
                forall|u: Seq<char>| #[trigger]
                    taken@.contains_key(u) ==> exists|j: int|
                        0 <= j < i && (#[trigger] entries@[j]).1@ == u,
                forall|j1: int, j2: int|
                    0 <= j1 < j2 < i ==> (#[trigger] entries@[j1]).0@ != (
                    #[trigger] entries@[j2]).0@,
                forall|j1: int, j2: int|
                    0 <= j1 < j2 < i ==> (#[trigger] entries@[j1]).1@ != (
                    #[trigger] entries@[j2]).1@,
                forall|j: int|
                    0 <= j < i ==> old(self)@.users.contains_key((#[trigger] entries@[j]).1@),
            decreases entries@.len() - i,
        {
            let email = entries[i].0.clone();
            let username = entries[i].1.clone();
            let ghost ev = email@;
            if !self.users_contains(username.as_str()) {
                proof {
                    assert(!index_entries_consistent(old(self)@.users, entries@)) by {
                        if index_entries_consistent(old(self)@.users, entries@) {
                            assert(old(self)@.users.contains_key((entries@[i as int]).1@));
                        }
                    }
                }
                return Err(AuthError::Corrupt);
            }
            if self.index_contains(email.as_str()) {
                proof {
                    let j = choose|j: int| 0 <= j < i && (#[trigger] entries@[j]).0@ == ev;
                    assert(!index_entries_consistent(old(self)@.users, entries@)) by {
                        if index_entries_consistent(old(self)@.users, entries@) {
                            assert((entries@[j]).0@ != (entries@[i as int]).0@);
                        }
                    }
                }
                return Err(AuthError::Corrupt);
            }
            if taken.contains_key(username.as_str()) {
                proof {
                    let j = choose|j: int| 0 <= j < i && (#[trigger] entries@[j]).1@ == username@;
                    assert(!index_entries_consistent(old(self)@.users, entries@)) by {
                        if index_entries_consistent(old(self)@.users, entries@) {
                            assert((entries@[j]).1@ != (entries@[i as int]).1@);
                        }
                    }
                }
                return Err(AuthError::Corrupt);
            }
            let ghost uv = username@;
            proof {
                assert(!username_taken(self@, uv)) by {
                    if username_taken(self@, uv) {
                        let e = choose|e: Seq<char>|
                            #[trigger] self@.index.contains_key(e) && self@.index[e]@ == uv;
                        assert(taken@.contains_key(self@.index[e]@));
                    }
                }
            }
            let ghost taken_before = taken@;
            taken.insert(username.clone(), true);
            let ghost prev = self@;
            self.index_insert(email, username);
            proof {
                let newv = self@;
                assert forall|e: Seq<char>| newv.index.contains_key(e)
                    implies newv.users.contains_key(newv.index[e]@) by {
                    if e != entries@[i as int].0@ {
                        assert(prev.index.contains_key(e));
                        assert(prev.users.contains_key(prev.index[e]@));
                    }
                }
                assert forall|e1: Seq<char>, e2: Seq<char>|
                    newv.index.contains_key(e1) && newv.index.contains_key(e2) && newv.index[e1]@
                        == newv.index[e2]@ implies e1 == e2 by {
                    let em = entries@[i as int].0@;
                    if e1 != em && e2 != em {
                        assert(prev.index.contains_key(e1));
                        assert(prev.index.contains_key(e2));
                    } else if e1 == em && e2 != em {
                        assert(prev.index.contains_key(e2) && prev.index[e2]@ == uv);
                        assert(username_taken(prev, uv));
                    } else if e2 == em && e1 != em {
                        assert(prev.index.contains_key(e1) && prev.index[e1]@ == uv);
                        assert(username_taken(prev, uv));
                    }
                }
                assert(wf_view(newv));
                // the fresh entry collides with no processed email or username
                assert forall|j1: int| 0 <= j1 < i implies (#[trigger] entries@[j1]).0@ != ev by {
                    assert(prev.index.contains_key(entries@[j1].0@));
                }
                assert forall|j1: int| 0 <= j1 < i implies (#[trigger] entries@[j1]).1@ != uv by {
                    assert(taken_before.contains_key(entries@[j1].1@));
                }
            }
            i += 1;
        }
        proof {
            assert(index_entries_consistent(old(self)@.users, entries@));
        }
        Ok(())
    }

    /// Issues a fresh session token for an existing account and stores it as
    /// the account's sole valid session, replacing any prior token.
    pub fn issue(&mut self, username: &str) -> (token: String)
        requires
            old(self).wf(),
            old(self)@.users.contains_key(username@),
        ensures
            final(self).wf(),
            token_shape(token@),
            final(self)@.sessions == old(self)@.sessions.insert(
                username@,
                final(self)@.sessions[username@],
            ),
            final(self)@.sessions.contains_key(username@),
            final(self)@.sessions[username@].session_key@ == token@,
            final(self)@.index == old(self)@.index,
            final(self)@.users == old(self)@.users,
            final(self)@.otps == old(self)@.otps,
    {
        let token = make_session_token();
        let sd = SessionData { session_key: token.clone() };
        self.sessions_insert(username.to_owned(), sd);
        proof {
            assert(self@.index == old(self)@.index);
            assert(self@.users == old(self)@.users);
            assert(wf_view(self@));
        }
        token
    }

    /// True iff a session record exists for the account and its token is
    /// exactly the submitted one.
    pub fn validate(&self, username: &str, token: &str) -> (r: bool)
        ensures
            r == session_valid(self@, username@, token@),
    {
        match self.sessions_get(username) {
            Some(sd) => {
                let t = token.to_owned();
                sd.session_key == t
            },
            None => false,
        }
    }

    /// Authenticates and issues a session. Success iff the identifier
    /// resolves to an account, the client version is at least
    /// `MIN_CLIENT_VERSION`, and the password's digest equals the stored one.
    /// An unknown account and a wrong password fail alike, so a caller
    /// cannot tell which field was wrong.
    pub fn login(&mut self, req: LoginRequest) -> (r: Result<LoginResponse, AuthError>)
        requires
            old(self).wf(),
        ensures
            final(self).wf(),
            r is Ok <==> login_accepted(old(self)@, req.username@, req.password@, req.version),
            (r matches Err(e) ==> final(self)@ == old(self)@ && (if account_known(
                old(self)@,
                req.username@,
            ) && req.version < MIN_CLIENT_VERSION {
                e == AuthError::VersionRejected
            } else {
                e == AuthError::Unauthorized
            })),
            (r matches Ok(resp) ==> ({
                let u = resolved(old(self)@, req.username@);
                &&& token_shape(resp.session_key@)
                &&& resp.username@ == u
                &&& final(self)@.sessions == old(self)@.sessions.insert(
                    u,
                    final(self)@.sessions[u],
                )
                &&& final(self)@.sessions.contains_key(u)
                &&& final(self)@.sessions[u].session_key@ == resp.session_key@
                &&& final(self)@.index == old(self)@.index
                &&& final(self)@.users == old(self)@.users
                &&& final(self)@.otps == old(self)@.otps
            })),
    {
        let password_hash = sha256_hex(req.password.as_str());
        let uname = match self.resolve_account(req.username.as_str()) {
            Ok(u) => u,
            Err(_) => { return Err(AuthError::Unauthorized) },
        };
        let password_matches: bool;
        match self.users_get(uname.as_str()) {
            None => { return Err(AuthError::Unauthorized) },
            Some(rec) => {
                password_matches = rec.password == password_hash;
            },
        }
        if req.version < MIN_CLIENT_VERSION {
            return Err(AuthError::VersionRejected);
        }
        if password_matches {
            let token = self.issue(uname.as_str());
            Ok(LoginResponse { session_key: token, username: uname })
        } else {
            Err(AuthError::Unauthorized)
        }
    }

    /// Shows the profile of an account to the bearer of its current session
    /// token. Reads nothing but the state, so two calls with the same valid
    /// session and no intervening update return the same profile.
    pub fn get_profile(&self, req: UserDataRequest) -> (r: Result<UserData, AuthError>)
        ensures
            r is Ok <==> session_valid(self@, lower_of(req.username@), req.session_key@)
                && self@.users.contains_key(lower_of(req.username@)),
            (r matches Ok(d) ==> user_data_model(d) == profile_of(self@, lower_of(req.username@))),
            (r matches Err(e) ==> (if !session_valid(
                self@,
                lower_of(req.username@),
                req.session_key@,
            ) {
                e == AuthError::Unauthorized
            } else {
                e == AuthError::NotFound
            })),
    {
        let uname = lowercase(req.username.as_str());
        if !self.validate(uname.as_str(), req.session_key.as_str()) {
            return Err(AuthError::Unauthorized);
        }
        match self.users_get(uname.as_str()) {
            None => Err(AuthError::NotFound),
            Some(rec) => Ok(
                UserData {
                    username: rec.username.clone(),
                    email: clone_opt(&rec.email),
                    avatar: clone_opt(&rec.avatar),
                },
            ),
        }
    }

    /// Applies a profile patch under a valid session: a present email or
    /// avatar overwrites, an absent one keeps the prior value. A requested
    /// username change is echoed in the returned profile but is not applied
    /// to the stored record, its key, or the account index — renaming is not
    /// supported by the store's layout, and silently relocating the record
    /// is deliberately avoided.
    pub fn update_profile(&mut self, req: UserDataUpdate) -> (r: Result<UserData, AuthError>)
        requires
            old(self).wf(),
        ensures
            final(self).wf(),
            r is Ok <==> session_valid(old(self)@, lower_of(req.username@), req.session_key@)
                && old(self)@.users.contains_key(lower_of(req.username@)),
            (r matches Err(e) ==> final(self)@ == old(self)@ && (if !session_valid(
                old(self)@,
                lower_of(req.username@),
                req.session_key@,
            ) {
                e == AuthError::Unauthorized
            } else {
                e == AuthError::NotFound
            })),
            (r matches Ok(d) ==> ({
                let u = lower_of(req.username@);
                let orec = old(self)@.users[u];
                let nrec = final(self)@.users[u];
                &&& final(self)@.users.contains_key(u)
                &&& final(self)@.users == old(self)@.users.insert(u, nrec)
                &&& nrec.username == orec.username
                &&& nrec.guid == orec.guid
                &&& nrec.password == orec.password
                &&& opt_view(nrec.email) == (match req.email {
                    Some(e) => Some(e@),
                    None => opt_view(orec.email),
                })
                &&& opt_view(nrec.avatar) == (match req.avatar {
                    Some(a) => Some(a@),
                    None => opt_view(orec.avatar),
                })
                &&& d.username@ == (match req.new_username {
                    Some(nu) => nu@,
                    None => orec.username@,
                })
                &&& opt_view(d.email) == opt_view(nrec.email)
                &&& opt_view(d.avatar) == opt_view(nrec.avatar)
                &&& final(self)@.index == old(self)@.index
                &&& final(self)@.sessions == old(self)@.sessions
                &&& final(self)@.otps == old(self)@.otps
            })),
    {
        let uname = lowercase(req.username.as_str());
        if !self.validate(uname.as_str(), req.session_key.as_str()) {
            return Err(AuthError::Unauthorized);
        }
        let (cur_username, cur_guid, cur_email, cur_avatar, cur_password) = match self.users_get(
            uname.as_str(),
        ) {
            None => { return Err(AuthError::NotFound) },
            Some(rec) => (
                rec.username.clone(),
                rec.guid,
                clone_opt(&rec.email),
                clone_opt(&rec.avatar),
                rec.password.clone(),
            ),
        };
        let new_email = match req.email {
            Some(e) => Some(e),
            None => cur_email,
        };
        let new_avatar = match req.avatar {
            Some(a) => Some(a),
            None => cur_avatar,
        };
        let shown_username = match req.new_username {
            Some(nu) => nu,
            None => cur_username.clone(),
        };
        let new_rec = FullUserData {
            username: cur_username,
            guid: cur_guid,
            email: clone_opt(&new_email),
            avatar: clone_opt(&new_avatar),
            password: cur_password,
        };
        self.users_insert(uname, new_rec);
        proof {
            let oldv = old(self)@;
            let newv = self@;
            assert(newv.index == oldv.index);
            assert forall|e: Seq<char>| newv.index.contains_key(e) implies newv.users.contains_key(
                newv.index[e]@,
            ) by {
                assert(oldv.users.contains_key(oldv.index[e]@));
            }
            assert forall|w: Seq<char>| newv.users.contains_key(w) implies newv.users[w].username@
                == w by {
                if w != lower_of(req.username@) {
                    assert(oldv.users.contains_key(w));
                }
            }
            assert(wf_view(newv));
        }
        Ok(UserData { username: shown_username, email: new_email, avatar: new_avatar })
    }

    /// Starts a password reset at second `now`: resolves the email, draws a
    /// four-digit code, stores it as the account's current challenge
    /// (replacing any prior one), and returns the code together with the
    /// mail payload for the delivery collaborator.
    pub fn request_password_reset_at(&mut self, req: RequestPassword, now: u64) -> (r: Result<
        (String, SendGridEmail),
        AuthError,
    >)
        requires
            old(self).wf(),
        ensures
            final(self).wf(),
            r is Ok <==> account_known(old(self)@, req.email@),
            (r matches Err(e) ==> e == AuthError::NotFound && final(self)@ == old(self)@),
            (r matches Ok(out) ==> ({
                let u = resolved(old(self)@, req.email@);
                &&& code_shape(out.0@)
                &&& final(self)@.otps.contains_key(u)
                &&& final(self)@.otps == old(self)@.otps.insert(u, final(self)@.otps[u])
                &&& final(self)@.otps[u].otp@ == out.0@
                &&& final(self)@.otps[u].date == now
                &&& final(self)@.index == old(self)@.index
                &&& final(self)@.users == old(self)@.users
                &&& final(self)@.sessions == old(self)@.sessions
                &&& otp_email_shape(out.1, out.0@, u, req.email@)
            })),
    {
        let uname = match self.resolve_account(req.email.as_str()) {
            Ok(u) => u,
            Err(_) => { return Err(AuthError::NotFound) },
        };
        if !self.users_contains(uname.as_str()) {
            return Err(AuthError::NotFound);
        }
        let code = make_otp_code();
        let challenge = OTPData { otp: code.clone(), date: now };
        let mail = build_otp_email(code.as_str(), uname.as_str(), req.email.as_str());
        self.otps_insert(uname, challenge);
        proof {
            assert(self@.index == old(self)@.index);
            assert(self@.users == old(self)@.users);
            assert(wf_view(self@));
        }
        Ok((code, mail))
    }

    /// Starts a password reset, stamping the challenge with the machine
    /// clock. The stamp is whatever the clock read, so nothing is said of
    /// it; everything else is as in `request_password_reset_at`.
    pub fn request_password_reset(&mut self, req: RequestPassword) -> (r: Result<
        (String, SendGridEmail),
        AuthError,
    >)
        requires
            old(self).wf(),
        ensures
            final(self).wf(),
            r is Ok <==> account_known(old(self)@, req.email@),
            (r matches Err(e) ==> e == AuthError::NotFound && final(self)@ == old(self)@),
            (r matches Ok(out) ==> ({
                let u = resolved(old(self)@, req.email@);
                &&& code_shape(out.0@)
                &&& final(self)@.otps.contains_key(u)
                &&& final(self)@.otps == old(self)@.otps.insert(u, final(self)@.otps[u])
                &&& final(self)@.otps[u].otp@ == out.0@
                &&& final(self)@.index == old(self)@.index
                &&& final(self)@.users == old(self)@.users
                &&& final(self)@.sessions == old(self)@.sessions
                &&& otp_email_shape(out.1, out.0@, u, req.email@)
            })),
    {
        let now = clamp_seconds(clock_seconds());
        self.request_password_reset_at(req, now)
    }

    /// Verifies a reset submission at second `now`. The outcome is
    /// `Verified` exactly when a challenge exists, its code equals the
    /// submission, and strictly less than the freshness window elapsed; then
    /// the stored password digest is replaced and the spent challenge is
    /// dropped so the code cannot be replayed. Any other outcome changes
    /// nothing: a wrong or stale code is the soft `Invalid` result, and only
    /// a missing account or challenge is an error.
    pub fn verify_password_reset_at(&mut self, req: OTPSubmit, now: u64) -> (r: Result<
        ResetOutcome,
        AuthError,
    >)
        requires
            old(self).wf(),
        ensures
            final(self).wf(),
            (r matches Err(e) ==> e == AuthError::NotFound && final(self)@ == old(self)@),
            r is Ok <==> (match resolves_to(old(self)@, req.email@) {
                Some(u) => old(self)@.otps.contains_key(u) && (reset_accepted(
                    old(self)@,
                    u,
                    req.otp@,
                    now,
                ) ==> old(self)@.users.contains_key(u)),
                None => false,
            }),
            (r matches Ok(out) ==> ({
                let u = resolved(old(self)@, req.email@);
                &&& (out == ResetOutcome::Verified <==> reset_accepted(
                    old(self)@,
                    u,
                    req.otp@,
                    now,
                ))
                &&& (out == ResetOutcome::Invalid ==> final(self)@ == old(self)@)
                &&& (out == ResetOutcome::Verified ==> ({
                    let orec = old(self)@.users[u];
                    let nrec = final(self)@.users[u];
                    &&& final(self)@.users.contains_key(u)
                    &&& final(self)@.users == old(self)@.users.insert(u, nrec)
                    &&& nrec.password@ == sha256_hex_of(req.password@)
                    &&& nrec.username == orec.username
                    &&& nrec.guid == orec.guid
                    &&& nrec.email == orec.email
                    &&& nrec.avatar == orec.avatar
                    &&& final(self)@.otps == old(self)@.otps.remove(u)
                    &&& final(self)@.index == old(self)@.index
                    &&& final(self)@.sessions == old(self)@.sessions
                }))
            })),
    {
        let uname = match self.resolve_account(req.email.as_str()) {
            Ok(u) => u,
            Err(_) => { return Err(AuthError::NotFound) },
        };
        let (code, date) = match self.otps_get(uname.as_str()) {
            Some(ch) => (ch.otp.clone(), ch.date),
            None => { return Err(AuthError::NotFound) },
        };
        let fresh = now < date || now - date < OTP_FRESH_SECONDS;
        let code_matches = code == req.otp;
        if fresh && code_matches {
            let (u_username, u_guid, u_email, u_avatar) = match self.users_get(uname.as_str()) {
                None => { return Err(AuthError::NotFound) },
                Some(rec) => (
                    rec.username.clone(),
                    rec.guid,
                    clone_opt(&rec.email),
                    clone_opt(&rec.avatar),
                ),
            };
            let new_hash = sha256_hex(req.password.as_str());
            let new_rec = FullUserData {
                username: u_username,
                guid: u_guid,
                email: u_email,
                avatar: u_avatar,
                password: new_hash,
            };
            self.users_insert(uname.clone(), new_rec);
            self.otps_remove(uname.as_str());
            proof {
                let oldv = old(self)@;
                let newv = self@;
                assert(newv.index == oldv.index);
                assert forall|e: Seq<char>| newv.index.contains_key(e)
                    implies newv.users.contains_key(newv.index[e]@) by {
                    assert(oldv.users.contains_key(oldv.index[e]@));
                }
                assert forall|w: Seq<char>| newv.users.contains_key(w)
                    implies newv.users[w].username@ == w by {
                    if w != uname@ {
                        assert(oldv.users.contains_key(w));
                    }
                }
                assert(wf_view(newv));
            }
            Ok(ResetOutcome::Verified)
        } else {
            Ok(ResetOutcome::Invalid)
        }
    }

    /// Verifies a reset submission against the machine clock. Whatever the
    /// clock read: a mismatched code is never verified, a `Verified` outcome
    /// means the code matched and the password digest was replaced and the
    /// challenge dropped, and an `Invalid` outcome changes nothing. The
    /// exact freshness condition is stated on `verify_password_reset_at`.
    pub fn verify_password_reset(&mut self, req: OTPSubmit) -> (r: Result<ResetOutcome, AuthError>)
        requires
            old(self).wf(),
        ensures
            final(self).wf(),
            (r matches Err(e) ==> e == AuthError::NotFound && final(self)@ == old(self)@),
            (match resolves_to(old(self)@, req.email@) {
                Some(u) => !old(self)@.otps.contains_key(u) ==> r is Err,
                None => r is Err,
            }),
            // an answer is owed whenever no clock reading can deny it: a
            // resolved email with a live challenge and a live record
            ((resolves_to(old(self)@, req.email@) matches Some(u) && old(self)@.otps.contains_key(
                u,
            ) && old(self)@.users.contains_key(u)) ==> r is Ok),
            (r matches Ok(out) ==> ({
                let u = resolved(old(self)@, req.email@);
                &&& resolves_to(old(self)@, req.email@) is Some
                &&& old(self)@.otps.contains_key(u)
                &&& (old(self)@.otps[u].otp@ != req.otp@ ==> out == ResetOutcome::Invalid)
                &&& (out == ResetOutcome::Invalid ==> final(self)@ == old(self)@)
                &&& (out == ResetOutcome::Verified ==> ({
                    let orec = old(self)@.users[u];
                    let nrec = final(self)@.users[u];
                    &&& old(self)@.otps[u].otp@ == req.otp@
                    &&& final(self)@.users.contains_key(u)
                    &&& final(self)@.users == old(self)@.users.insert(u, nrec)
                    &&& nrec.password@ == sha256_hex_of(req.password@)
                    &&& nrec.username == orec.username
                    &&& final(self)@.otps == old(self)@.otps.remove(u)
                    &&& final(self)@.index == old(self)@.index
                    &&& final(self)@.sessions == old(self)@.sessions
                }))
            })),
    {
        let now = clamp_seconds(clock_seconds());
        self.verify_password_reset_at(req, now)
    }
}

} // verus!
