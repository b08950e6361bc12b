use authflow::claims::{claim_history, resolution_months, MONTH_SECS, VOLUME_BOUND};
use authflow::hash::{
    digests_match, hash_pwd, hash_pwd_under, validate_pwd, Scheme, SchemeStatus, VerificationError,
};
use authflow::login::{login, login_with_fresh_salt, logout, migrate_if_outdated, LoginError};
use authflow::store::{CredentialStore, StoreError, UserCredential};
use authflow::token::TokenIssuer;

fn user(id: u64, name: &str, pwd: Option<Vec<u8>>, pwd_salt: Option<u64>, token_salt: u64) -> UserCredential {
    UserCredential { id, username: name.to_owned(), pwd, pwd_salt, token_salt }
}

fn store_with(users: Vec<UserCredential>) -> CredentialStore {
    let mut s = CredentialStore::new();
    for u in users {
        assert!(s.add_user(u));
    }
    s
}

#[test]
fn digest_exact_value_v1_empty_password() {
    // Empty password: the digest is the initial accumulator, salt % modulus.
    let h = hash_pwd_under(Scheme::V1, "", 5);
    assert_eq!(h, vec![35, 118, 49, 35, 5, 0, 0, 0, 0, 0, 0, 0]);
}

#[test]
fn digest_exact_value_v1_one_byte() {
    // One byte: mix(0, b'a', 31) = 0 * 31 + 97 = 97.
    let h = hash_pwd_under(Scheme::V1, "a", 0);
    assert_eq!(h, vec![35, 118, 49, 35, 97, 0, 0, 0, 0, 0, 0, 0]);
}

#[test]
fn digest_exact_value_v2_empty_password() {
    // V2 offsets the salt by 7919 = 0x1EEF before mixing.
    let h = hash_pwd_under(Scheme::V2, "", 0);
    assert_eq!(h, vec![35, 118, 50, 35, 0xEF, 0x1E, 0, 0, 0, 0, 0, 0]);
}

#[test]
fn fresh_hash_validates_under_its_scheme() {
    let v1 = hash_pwd_under(Scheme::V1, "correct-horse", 42);
    assert_eq!(validate_pwd("correct-horse", 42, &v1), Ok(SchemeStatus::Outdated));
    let v2 = hash_pwd_under(Scheme::V2, "correct-horse", 42);
    assert_eq!(validate_pwd("correct-horse", 42, &v2), Ok(SchemeStatus::Current));
    assert_eq!(hash_pwd("pw", 7), hash_pwd_under(Scheme::V2, "pw", 7));
}

#[test]
fn wrong_password_is_a_mismatch() {
    let v2 = hash_pwd_under(Scheme::V2, "correct-horse", 42);
    assert_eq!(
        validate_pwd("wrong-horse", 42, &v2),
        Err(VerificationError::Mismatch)
    );
    // The right password under the wrong salt must not verify either.
    assert_eq!(
        validate_pwd("correct-horse", 43, &v2),
        Err(VerificationError::Mismatch)
    );
}

#[test]
fn malformed_stored_hashes_are_rejected() {
    assert_eq!(validate_pwd("pw", 1, b""), Err(VerificationError::MalformedHash));
    assert_eq!(validate_pwd("pw", 1, b"garbage"), Err(VerificationError::MalformedHash));
    // Right length, unknown scheme tag.
    assert_eq!(
        validate_pwd("pw", 1, &[35, 118, 51, 35, 0, 0, 0, 0, 0, 0, 0, 0]),
        Err(VerificationError::MalformedHash)
    );
    // Too short and too long.
    assert_eq!(
        validate_pwd("pw", 1, &[35, 118, 49, 35, 0, 0, 0]),
        Err(VerificationError::MalformedHash)
    );
    assert_eq!(
        validate_pwd("pw", 1, &[35, 118, 49, 35, 0, 0, 0, 0, 0, 0, 0, 0, 0]),
        Err(VerificationError::MalformedHash)
    );
}

#[test]
fn digests_match_is_plain_equality() {
    assert!(digests_match(&[1, 2, 3], &[1, 2, 3]));
    assert!(!digests_match(&[1, 2, 3], &[1, 2, 4]));
    assert!(!digests_match(&[1, 2, 3], &[1, 2]));
    assert!(digests_match(&[], &[]));
}

#[test]
fn current_scheme_login_no_migration() {
    let hash = hash_pwd_under(Scheme::V2, "correct-horse", 42);
    let mut store = store_with(vec![user(1, "alice", Some(hash.clone()), Some(42), 1000)]);
    let issuer = TokenIssuer::new(777);
    let r = login(&mut store, &issuer, "alice", "correct-horse", 99);
    assert!(r.is_ok());
    // No migration write: hash and salt are untouched.
    assert_eq!(store.users[0].pwd, Some(hash));
    assert_eq!(store.users[0].pwd_salt, Some(42));
}

#[test]
fn outdated_scheme_migrates_and_revalidates_current() {
    let old_hash = hash_pwd_under(Scheme::V1, "correct-horse", 42);
    let mut store = store_with(vec![user(1, "alice", Some(old_hash), Some(42), 1000)]);
    let issuer = TokenIssuer::new(777);
    let r = login(&mut store, &issuer, "alice", "correct-horse", 99);
    assert!(r.is_ok());
    // Exactly one migration write: the record now holds the re-hash
    // under the current scheme with the fresh salt.
    assert_eq!(store.users[0].pwd, Some(hash_pwd("correct-horse", 99)));
    assert_eq!(store.users[0].pwd_salt, Some(99));
    // Verifying again with the same password now reports Current.
    let new_hash = store.users[0].pwd.clone().unwrap();
    assert_eq!(validate_pwd("correct-horse", 99, &new_hash), Ok(SchemeStatus::Current));
}

#[test]
fn alice_v1_login_issues_session_cookie_value() {
    // Scenario: alice's hash is under the deprecated scheme; the right
    // password logs in, the hash is rewritten under the current scheme
    // and a session token for the cookie comes back.
    let old_hash = hash_pwd_under(Scheme::V1, "correct-horse", 42);
    let mut store = store_with(vec![user(1, "alice", Some(old_hash), Some(42), 1000)]);
    let issuer = TokenIssuer::new(777);
    let r = login(&mut store, &issuer, "alice", "correct-horse", 99);
    let token = r.expect("login should succeed");
    assert_eq!(Some(token), issuer.issue("alice", 1000));
    assert_eq!(store.users[0].pwd, Some(hash_pwd_under(Scheme::V2, "correct-horse", 99)));
}

#[test]
fn ghost_username_not_found() {
    let hash = hash_pwd_under(Scheme::V2, "correct-horse", 42);
    let mut store = store_with(vec![user(1, "alice", Some(hash.clone()), Some(42), 1000)]);
    let issuer = TokenIssuer::new(777);
    let r = login(&mut store, &issuer, "ghost", "anything", 99);
    assert_eq!(r, Err(LoginError::UsernameNotFound));
    // No cookie, no mutation.
    assert_eq!(store.users.len(), 1);
    assert_eq!(store.users[0].pwd, Some(hash));
}

#[test]
fn wrong_password_fails_without_mutation() {
    let hash = hash_pwd_under(Scheme::V1, "correct-horse", 42);
    let mut store = store_with(vec![user(7, "alice", Some(hash.clone()), Some(42), 1000)]);
    let issuer = TokenIssuer::new(777);
    let r = login(&mut store, &issuer, "alice", "wrong-horse", 99);
    assert_eq!(r, Err(LoginError::PasswordIncorrect { user_id: 7 }));
    // Even though the scheme is outdated, no migration happened.
    assert_eq!(store.users[0].pwd, Some(hash));
    assert_eq!(store.users[0].pwd_salt, Some(42));
}

#[test]
fn no_password_set_is_its_own_error() {
    let mut store = store_with(vec![user(3, "alice", None, None, 1000)]);
    let issuer = TokenIssuer::new(777);
    let r = login(&mut store, &issuer, "alice", "anything", 99);
    assert_eq!(r, Err(LoginError::NoPasswordSet { user_id: 3 }));
    assert_ne!(r, Err(LoginError::PasswordIncorrect { user_id: 3 }));
    let r2 = login(&mut store, &issuer, "alice", "something-else", 99);
    assert_eq!(r2, Err(LoginError::NoPasswordSet { user_id: 3 }));
}

#[test]
fn corrupt_stored_hash_is_fatal_to_the_request() {
    let mut store = store_with(vec![user(4, "alice", Some(b"garbage".to_vec()), Some(42), 1000)]);
    let issuer = TokenIssuer::new(777);
    let r = login(&mut store, &issuer, "alice", "anything", 99);
    assert_eq!(r, Err(LoginError::CorruptCredential { user_id: 4 }));
    assert_eq!(store.users[0].pwd, Some(b"garbage".to_vec()));
}

#[test]
fn missing_signing_secret_fails_issuance_after_migration() {
    let old_hash = hash_pwd_under(Scheme::V1, "correct-horse", 42);
    let mut store = store_with(vec![user(1, "alice", Some(old_hash), Some(42), 1000)]);
    let issuer = TokenIssuer::without_secret();
    let r = login(&mut store, &issuer, "alice", "correct-horse", 99);
    assert_eq!(r, Err(LoginError::TokenIssuanceFailed));
    // The migration still ran: it precedes token issuance.
    assert_eq!(store.users[0].pwd_salt, Some(99));
}

#[test]
fn fresh_salt_login_succeeds_and_revalidates() {
    let old_hash = hash_pwd_under(Scheme::V1, "correct-horse", 42);
    let mut store = store_with(vec![user(1, "alice", Some(old_hash), Some(42), 1000)]);
    let issuer = TokenIssuer::new(777);
    let r = login_with_fresh_salt(&mut store, &issuer, "alice", "correct-horse");
    assert!(r.is_ok());
    let salt = store.users[0].pwd_salt.expect("migration stored a salt");
    let new_hash = store.users[0].pwd.clone().unwrap();
    assert_eq!(validate_pwd("correct-horse", salt, &new_hash), Ok(SchemeStatus::Current));
}

#[test]
fn logout_requested_clears_session() {
    let issuer = TokenIssuer::new(777);
    let mut session = issuer.issue("alice", 1000);
    assert!(session.is_some());
    let r = logout(&mut session, true);
    assert!(r.did_logout);
    assert!(session.is_none());
}

#[test]
fn logout_not_requested_is_a_no_op() {
    let issuer = TokenIssuer::new(777);
    let mut session = issuer.issue("alice", 1000);
    let before = session;
    let r = logout(&mut session, false);
    assert!(!r.did_logout);
    assert_eq!(session, before);
    // Logout when requested works on an empty session too.
    let mut none_session = None;
    let r2 = logout(&mut none_session, true);
    assert!(r2.did_logout);
    assert!(none_session.is_none());
}

#[test]
fn token_signatures_are_deterministic_per_input() {
    let issuer = TokenIssuer::new(777);
    assert_eq!(issuer.issue("alice", 1000), issuer.issue("alice", 1000));
    assert_ne!(issuer.issue("alice", 1000), issuer.issue("bob", 1000));
    assert_ne!(issuer.issue("alice", 1000), issuer.issue("alice", 1001));
    assert_eq!(TokenIssuer::without_secret().issue("alice", 1000), None);
}

#[test]
fn store_refuses_duplicate_keys() {
    let mut s = CredentialStore::new();
    assert!(s.add_user(user(1, "alice", None, None, 1)));
    assert!(!s.add_user(user(2, "alice", None, None, 2)));
    assert!(!s.add_user(user(1, "bob", None, None, 3)));
    assert!(s.add_user(user(2, "bob", None, None, 4)));
    assert_eq!(s.users.len(), 2);
}

#[test]
fn store_lookup_and_update() {
    let mut s = store_with(vec![user(1, "alice", None, None, 1), user(2, "bob", None, None, 2)]);
    assert!(s.find_by_username("alice").is_some());
    assert_eq!(s.find_by_username("alice").unwrap().id, 1);
    assert!(s.find_by_username("ghost").is_none());
    assert_eq!(s.update_password(9, vec![1], 5), Err(StoreError::UserNotFound));
    assert_eq!(s.update_password(2, vec![1, 2], 5), Ok(()));
    assert_eq!(s.users[1].pwd, Some(vec![1, 2]));
    assert_eq!(s.users[1].pwd_salt, Some(5));
    // The other record is untouched.
    assert_eq!(s.users[0].pwd, None);
}

#[test]
fn resolution_names_map_to_months() {
    assert_eq!(resolution_months("All time"), Some(60));
    assert_eq!(resolution_months("1 year"), Some(12));
    assert_eq!(resolution_months("3 year"), Some(36));
    assert_eq!(resolution_months("2 year"), None);
    assert_eq!(resolution_months(""), None);
}

#[test]
fn claim_history_spans_months_ascending() {
    let now: u64 = 1_700_000_000;
    let data = claim_history(now, "1 year").expect("known resolution");
    assert_eq!(data.len(), 12);
    assert_eq!(data[11].timestamp_month as u64, now);
    assert_eq!(data[0].timestamp_month as u64, now - 11 * MONTH_SECS);
    for w in data.windows(2) {
        assert_eq!(w[1].timestamp_month - w[0].timestamp_month, MONTH_SECS as u32);
    }
    for p in &data {
        assert!(p.volume < VOLUME_BOUND);
    }
    assert_eq!(claim_history(now, "All time").unwrap().len(), 60);
    assert_eq!(claim_history(now, "3 year").unwrap().len(), 36);
    assert!(claim_history(now, "5 year").is_none());
}

#[test]
fn migrator_is_a_no_op_on_current_and_best_effort_on_outdated() {
    let old_hash = hash_pwd_under(Scheme::V1, "correct-horse", 42);
    let mut store = store_with(vec![user(1, "alice", Some(old_hash.clone()), Some(42), 1000)]);
    // Current scheme: nothing is written.
    assert_eq!(migrate_if_outdated(&mut store, SchemeStatus::Current, 1, "correct-horse", 99), Ok(()));
    assert_eq!(store.users[0].pwd, Some(old_hash));
    // Outdated: the record is rewritten under the current scheme.
    assert_eq!(migrate_if_outdated(&mut store, SchemeStatus::Outdated, 1, "correct-horse", 99), Ok(()));
    assert_eq!(store.users[0].pwd, Some(hash_pwd("correct-horse", 99)));
    assert_eq!(store.users[0].pwd_salt, Some(99));
    // An unknown id cannot be migrated.
    assert_eq!(
        migrate_if_outdated(&mut store, SchemeStatus::Outdated, 9, "correct-horse", 99),
        Err(StoreError::UserNotFound)
    );
}
