//! The login pipeline: look the user up, verify the password, migrate
//! an outdated hash, and issue a session token; and logout.
//!
//! A migration failure must never fail a login — the user has already
//! proved their identity — so the pipeline issues the store write
//! best-effort and ignores its outcome.

use vstd::prelude::*;
use vstd::string::StringSliceAdditionalSpecFns;
use crate::hash;
use crate::hash::{SchemeStatus, VerificationError};
use crate::store::{
    CredentialStore, StoreError, UserCredential, has_id, has_username, idx_of_id, idx_of_username,
    store_wf, updated_cred,
};
use crate::token::{SessionToken, TokenIssuer};

verus! {

/// Why a login failed.  Unknown username, an account with no password
/// set and a wrong password are deliberately distinct, as are a corrupt
/// stored hash and an unavailable signing secret.
#[derive(Clone, Copy, Debug, PartialEq, Eq, Structural)]
pub enum LoginError {
    UsernameNotFound,
    NoPasswordSet { user_id: u64 },
    PasswordIncorrect { user_id: u64 },
    CorruptCredential { user_id: u64 },
    TokenIssuanceFailed,
}

/// What logout reports: whether a logout was actually performed.
#[derive(Clone, Copy, Debug, PartialEq, Eq, Structural)]
pub struct LogoutResult {
    pub did_logout: bool,
}

/// The outcome login owes for this store, username, password and
/// signing secret: each error on exactly the inputs that produce it,
/// and on success the token signed with the user's token salt.
pub open spec fn login_result_spec(
    users: Seq<UserCredential>,
    name: Seq<char>,
    pwd: Seq<u8>,
    secret: Option<u64>,
) -> Result<SessionToken, LoginError> {
    if !has_username(users, name) {
        Err(LoginError::UsernameNotFound)
    } else {
        let u = users[idx_of_username(users, name)];
        match (u.pwd, u.pwd_salt) {
            (None, _) => Err(LoginError::NoPasswordSet { user_id: u.id }),
            (Some(h), None) => Err(LoginError::CorruptCredential { user_id: u.id }),
            (Some(h), Some(salt)) => match hash::validate_spec(pwd, salt, h@) {
                Err(VerificationError::Mismatch) => Err(
                    LoginError::PasswordIncorrect { user_id: u.id },
                ),
                Err(VerificationError::MalformedHash) => Err(
                    LoginError::CorruptCredential { user_id: u.id },
                ),
                Ok(_) => match secret {
                    None => Err(LoginError::TokenIssuanceFailed),
                    Some(sec) => Ok(
                        SessionToken { sig: crate::token::sig_of(name, u.token_salt, sec) },
                    ),
                },
            },
        }
    }
}

/// Whether this login verifies under an outdated scheme and so issues
/// a migration write.
pub open spec fn login_migrates(users: Seq<UserCredential>, name: Seq<char>, pwd: Seq<u8>) -> bool {
    &&& has_username(users, name)
    &&& {
        let u = users[idx_of_username(users, name)];
        match (u.pwd, u.pwd_salt) {
            (Some(h), Some(salt)) => hash::validate_spec(pwd, salt, h@) == Ok::<
                SchemeStatus,
                VerificationError,
            >(SchemeStatus::Outdated),
            _ => false,
        }
    }
}

/// How the store after a migrating login relates to the store before:
/// exactly the user's record is rewritten, with the password re-hashed
/// under the current scheme and the fresh salt.
pub open spec fn migrated_store(
    olds: Seq<UserCredential>,
    news: Seq<UserCredential>,
    name: Seq<char>,
    pwd: Seq<u8>,
    new_salt: u64,
) -> bool {
    let i = idx_of_username(olds, name);
    &&& news.len() == olds.len()
    &&& forall|j: int| 0 <= j < news.len() && j != i ==> news[j] == olds[j]
    &&& updated_cred(
        olds[i],
        news[i],
        hash::stored_hash_spec(hash::current_scheme(), new_salt, pwd),
        new_salt,
    )
}

/// Migrate a verified password's stored hash when the verifier
/// reported its scheme outdated: re-hash under the current scheme with
/// the fresh salt and persist hash and salt on the user's record.  The
/// caller has already confirmed the password; this never re-verifies.
/// With a current scheme it is a no-op.
pub fn migrate_if_outdated(
    store: &mut CredentialStore,
    status: SchemeStatus,
    user_id: u64,
    pwd: &str,
    new_salt: u64,
) -> (r: Result<(), StoreError>)
    requires
        old(store).wf(),
    ensures
        final(store).wf(),
        status == SchemeStatus::Current ==> r is Ok && final(store).users@ == old(store).users@,
        status == SchemeStatus::Outdated ==> {
            &&& r is Ok <==> has_id(old(store).users@, user_id)
            &&& r is Err ==> final(store).users@ == old(store).users@
            &&& r is Ok ==> {
                let i = idx_of_id(old(store).users@, user_id);
                &&& final(store).users@.len() == old(store).users@.len()
                &&& forall|j: int|
                    0 <= j < final(store).users@.len() && j != i ==> final(store).users@[j]
                        == old(store).users@[j]
                &&& updated_cred(
                    old(store).users@[i],
                    final(store).users@[i],
                    hash::stored_hash_spec(hash::current_scheme(), new_salt, pwd.spec_bytes()),
                    new_salt,
                )
            }
        },
{
    match status {
        SchemeStatus::Current => Ok(()),
        SchemeStatus::Outdated => {
            let new_hash = hash::hash_pwd(pwd, new_salt);
            store.update_password(user_id, new_hash, new_salt)
        },
    }
}

/// Log a user in: look the username up, verify the password against
/// the stored hash, re-hash under the current scheme with `new_salt`
/// when the stored scheme is outdated, and sign a session token.  The
/// store is written if and only if the stored hash was outdated and
/// the password verified; every other path leaves it unchanged.
pub fn login(
    store: &mut CredentialStore,
    issuer: &TokenIssuer,
    username: &str,
    pwd: &str,
    new_salt: u64,
) -> (r: Result<SessionToken, LoginError>)
    requires
        old(store).wf(),
    ensures
        final(store).wf(),
        r == login_result_spec(old(store).users@, username@, pwd.spec_bytes(), issuer.secret),
        !login_migrates(old(store).users@, username@, pwd.spec_bytes()) ==> final(store).users@
            == old(store).users@,
        login_migrates(old(store).users@, username@, pwd.spec_bytes()) ==> migrated_store(
            old(store).users@,
            final(store).users@,
            username@,
            pwd.spec_bytes(),
            new_salt,
        ),
{
    let i = match store.find_index(username) {
        None => {
            return Err(LoginError::UsernameNotFound);
        },
        Some(i) => i,
    };
    proof {
        let w = idx_of_username(store.users@, username@);
        assert(0 <= w < store.users@.len() && store.users@[w].username@ == username@);
        assert(w == i as int);
    }
    let user_id = store.users[i].id;
    let token_salt = store.users[i].token_salt;
    let salt = match store.users[i].pwd_salt {
        Some(s) => s,
        None => 0,
    };
    let status_res = match &store.users[i].pwd {
        None => {
            return Err(LoginError::NoPasswordSet { user_id });
        },
        Some(v) => {
            if store.users[i].pwd_salt.is_none() {
                return Err(LoginError::CorruptCredential { user_id });
            }
            hash::validate_pwd(pwd, salt, v.as_slice())
        },
    };
    let status = match status_res {
        Ok(st) => st,
        Err(VerificationError::Mismatch) => {
            return Err(LoginError::PasswordIncorrect { user_id });
        },
        Err(VerificationError::MalformedHash) => {
            return Err(LoginError::CorruptCredential { user_id });
        },
    };
    proof {
        let users = store.users@;
        assert(users[i as int].id == user_id);
        assert(has_id(users, user_id));
        let w2 = idx_of_id(users, user_id);
        assert(0 <= w2 < users.len() && users[w2].id == user_id);
        assert(w2 == i as int);
    }
    let _migration = migrate_if_outdated(store, status, user_id, pwd, new_salt);
    match issuer.issue(username, token_salt) {
        Some(t) => Ok(t),
        None => Err(LoginError::TokenIssuanceFailed),
    }
}

/// Log out: clear the session when asked to, and report whether a
/// logout happened.  With `requested` false this is a no-op — the
/// caller opted not to clear the session — and nothing is touched.
pub fn logout(session: &mut Option<SessionToken>, requested: bool) -> (r: LogoutResult)
    ensures
        r.did_logout == requested,
        requested ==> (*final(session)) is None,
        !requested ==> *final(session) == *old(session),
{
    if requested {
        *session = None;
    }
    LogoutResult { did_logout: requested }
}

/// What verifying `pwd` against a record's own hash and salt yields; a
/// record without a hash or salt verifies nothing.
pub open spec fn revalidate(u: UserCredential, pwd: Seq<u8>) -> Result<
    SchemeStatus,
    VerificationError,
> {
    match (u.pwd, u.pwd_salt) {
        (Some(h), Some(salt)) => hash::validate_spec(pwd, salt, h@),
        _ => Err(VerificationError::Mismatch),
    }
}

/// Law: when a login that verified under an outdated scheme has issued
/// its one migration write, the same username still resolves to the
/// same record, and verifying the same password against the rewritten
/// hash succeeds and reports the scheme as current.
pub proof fn lemma_migration_verifies_current(
    olds: Seq<UserCredential>,
    news: Seq<UserCredential>,
    name: Seq<char>,
    pwd: Seq<u8>,
    new_salt: u64,
)
    requires
        store_wf(olds),
        has_username(olds, name),
        migrated_store(olds, news, name, pwd, new_salt),
    ensures
        has_username(news, name),
        revalidate(news[idx_of_username(news, name)], pwd) == Ok::<
            SchemeStatus,
            VerificationError,
        >(SchemeStatus::Current),
{
    let i = idx_of_username(olds, name);
    assert(0 <= i < olds.len() && olds[i].username@ == name);
    assert(news[i].username@ == name);
    assert(has_username(news, name));
    let w = idx_of_username(news, name);
    assert(0 <= w < news.len() && news[w].username@ == name);
    assert(w == i) by {
        if w != i {
            assert(news[w] == olds[w]);
            assert(olds[w].username@ != olds[i].username@);
        }
    }
    hash::lemma_validate_fresh_hash(hash::current_scheme(), new_salt, pwd);
}

/// Log a user in with a freshly drawn migration salt.  Whether a
/// migration write uses this salt or none happens at all, the result
/// and the store follow `login`'s contract for some salt.
pub fn login_with_fresh_salt(
    store: &mut CredentialStore,
    issuer: &TokenIssuer,
    username: &str,
    pwd: &str,
) -> (r: Result<SessionToken, LoginError>)
    requires
        old(store).wf(),
    ensures
        final(store).wf(),
        r == login_result_spec(old(store).users@, username@, pwd.spec_bytes(), issuer.secret),
        !login_migrates(old(store).users@, username@, pwd.spec_bytes()) ==> final(store).users@
            == old(store).users@,
        login_migrates(old(store).users@, username@, pwd.spec_bytes()) ==> exists|s: u64|
            migrated_store(
                old(store).users@,
                final(store).users@,
                username@,
                pwd.spec_bytes(),
                s,
            ),
{
    let new_salt = rand::random::<u64>();
    login(store, issuer, username, pwd, new_salt)
}

/// Law: a valid password whose stored hash is under the current scheme
/// logs in successfully, and no migration write occurs.
pub proof fn lemma_login_current_scheme(
    users: Seq<UserCredential>,
    name: Seq<char>,
    pwd: Seq<u8>,
    sec: u64,
)
    requires
        store_wf(users),
        has_username(users, name),
        revalidate(users[idx_of_username(users, name)], pwd) == Ok::<
            SchemeStatus,
            VerificationError,
        >(SchemeStatus::Current),
    ensures
        login_result_spec(users, name, pwd, Some(sec)) == Ok::<SessionToken, LoginError>(
            SessionToken {
                sig: crate::token::sig_of(
                    name,
                    users[idx_of_username(users, name)].token_salt,
                    sec,
                ),
            },
        ),
        !login_migrates(users, name, pwd),
{
}

/// Law: a valid password whose stored hash is under an outdated scheme
/// logs in successfully, and a migration write is issued.
pub proof fn lemma_login_outdated_scheme(
    users: Seq<UserCredential>,
    name: Seq<char>,
    pwd: Seq<u8>,
    sec: u64,
)
    requires
        store_wf(users),
        has_username(users, name),
        revalidate(users[idx_of_username(users, name)], pwd) == Ok::<
            SchemeStatus,
            VerificationError,
        >(SchemeStatus::Outdated),
    ensures
        login_result_spec(users, name, pwd, Some(sec)) == Ok::<SessionToken, LoginError>(
            SessionToken {
                sig: crate::token::sig_of(
                    name,
                    users[idx_of_username(users, name)].token_salt,
                    sec,
                ),
            },
        ),
        login_migrates(users, name, pwd),
{
}

/// Law: a password that does not match the stored hash fails with the
/// authentication error, no migration write is issued and no token
/// comes back, whatever the signing secret.
pub proof fn lemma_login_wrong_password(
    users: Seq<UserCredential>,
    name: Seq<char>,
    pwd: Seq<u8>,
    secret: Option<u64>,
)
    requires
        store_wf(users),
        has_username(users, name),
        users[idx_of_username(users, name)].pwd is Some,
        revalidate(users[idx_of_username(users, name)], pwd) == Err::<
            SchemeStatus,
            VerificationError,
        >(VerificationError::Mismatch),
    ensures
        login_result_spec(users, name, pwd, secret) == Err::<SessionToken, LoginError>(
            LoginError::PasswordIncorrect { user_id: users[idx_of_username(users, name)].id },
        ),
        !login_migrates(users, name, pwd),
{
}

/// Law: a record with no password hash set fails login with its own
/// error, regardless of the supplied password, and never with the
/// wrong-password error.
pub proof fn lemma_login_no_password(
    users: Seq<UserCredential>,
    name: Seq<char>,
    pwd: Seq<u8>,
    secret: Option<u64>,
)
    requires
        store_wf(users),
        has_username(users, name),
        users[idx_of_username(users, name)].pwd is None,
    ensures
        login_result_spec(users, name, pwd, secret) == Err::<SessionToken, LoginError>(
            LoginError::NoPasswordSet { user_id: users[idx_of_username(users, name)].id },
        ),
        !login_migrates(users, name, pwd),
{
}

} // verus!
