//! Password hashing with self-describing, scheme-tagged stored hashes.
//!
//! A stored hash is a byte string `#v1#` or `#v2#` followed by the eight
//! little-endian bytes of a 64-bit digest of the salted password.  The
//! scheme tag makes the format self-describing: the verifier recomputes
//! the digest under the scheme named by the tag and compares in constant
//! time, then reports whether that scheme is still the preferred one.

use vstd::prelude::*;
use vstd::string::StringSliceAdditionalSpecFns;

verus! {

/// Modulus of the rolling digest: a prime, so the mixing step
/// distributes residues well.  The digest is a lightweight keyed
/// checksum, not a slow password-stretching function; the scheme
/// machinery around it is what this library is about.
pub const HASH_MODULUS: u64 = 1_000_000_007;

/// A password-hashing scheme, identified by the tag embedded in a
/// stored hash.  `V1` is deprecated; `V2` is the current preferred one.
#[derive(Clone, Copy, Debug, PartialEq, Eq, Structural)]
pub enum Scheme {
    V1,
    V2,
}

/// Classification of a stored hash's scheme, produced alongside a
/// successful verification.
#[derive(Clone, Copy, Debug, PartialEq, Eq, Structural)]
pub enum SchemeStatus {
    Current,
    Outdated,
}

/// Why verification failed: either the digests differ, or the stored
/// hash is not a well-formed encoded hash at all.
#[derive(Clone, Copy, Debug, PartialEq, Eq, Structural)]
pub enum VerificationError {
    Mismatch,
    MalformedHash,
}

/// The scheme new hashes are written under.
pub open spec fn current_scheme() -> Scheme {
    Scheme::V2
}

/// Multiplier of the rolling digest, per scheme.
pub open spec fn scheme_mult(s: Scheme) -> u64 {
    match s {
        Scheme::V1 => 31,
        Scheme::V2 => 131,
    }
}

/// Initial accumulator of the rolling digest: the salt, offset per
/// scheme so the two schemes hash nothing alike.
pub open spec fn scheme_init(s: Scheme, salt: u64) -> u64 {
    match s {
        Scheme::V1 => (salt % HASH_MODULUS) as u64,
        Scheme::V2 => ((salt % HASH_MODULUS + 7919) % (HASH_MODULUS as int)) as u64,
    }
}

/// One mixing step of the rolling digest.
pub open spec fn mix(h: u64, v: u64, mult: u64) -> u64 {
    ((h * mult + v) % (HASH_MODULUS as int)) as u64
}

/// Rolling digest of the first `n` bytes of `pwd`, salted.
pub open spec fn digest64_prefix(s: Scheme, salt: u64, pwd: Seq<u8>, n: int) -> u64
    decreases n,
{
    if n <= 0 {
        scheme_init(s, salt)
    } else {
        mix(digest64_prefix(s, salt, pwd, n - 1), pwd[n - 1] as u64, scheme_mult(s))
    }
}

/// The 64-bit digest of a salted password under a scheme.
pub open spec fn digest64(s: Scheme, salt: u64, pwd: Seq<u8>) -> u64 {
    digest64_prefix(s, salt, pwd, pwd.len() as int)
}

/// The eight little-endian bytes of the digest.
pub open spec fn digest_bytes_spec(s: Scheme, salt: u64, pwd: Seq<u8>) -> Seq<u8> {
    Seq::new(8, |i: int| ((digest64(s, salt, pwd) >> ((8 * i) as u64)) & 0xFF) as u8)
}

/// The four tag bytes that open an encoded hash: `#v1#` or `#v2#`.
pub open spec fn tag_bytes(s: Scheme) -> Seq<u8> {
    match s {
        Scheme::V1 => seq![35u8, 118u8, 49u8, 35u8],
        Scheme::V2 => seq![35u8, 118u8, 50u8, 35u8],
    }
}

/// An encoded hash: the scheme tag followed by the digest bytes.
pub open spec fn encode_spec(s: Scheme, digest: Seq<u8>) -> Seq<u8> {
    tag_bytes(s) + digest
}

/// The stored hash that hashing `pwd` with `salt` under `s` produces.
pub open spec fn stored_hash_spec(s: Scheme, salt: u64, pwd: Seq<u8>) -> Seq<u8> {
    encode_spec(s, digest_bytes_spec(s, salt, pwd))
}

/// Parse of an encoded hash: the scheme named by its tag and its eight
/// digest bytes, or nothing when the bytes are not a well-formed hash.
pub open spec fn parse_spec(stored: Seq<u8>) -> Option<(Scheme, Seq<u8>)> {
    if stored.len() == 12 && stored[0] == 35u8 && stored[1] == 118u8 && stored[3] == 35u8
        && (stored[2] == 49u8 || stored[2] == 50u8) {
        let s = if stored[2] == 49u8 {
            Scheme::V1
        } else {
            Scheme::V2
        };
        Some((s, stored.subrange(4, 12)))
    } else {
        None
    }
}

/// What verifying `pwd` with `salt` against `stored` yields: a malformed
/// stored hash is fatal, a digest mismatch is an authentication failure,
/// and a match reports whether the stored scheme is still current.
pub open spec fn validate_spec(pwd: Seq<u8>, salt: u64, stored: Seq<u8>) -> Result<
    SchemeStatus,
    VerificationError,
> {
    match parse_spec(stored) {
        None => Err(VerificationError::MalformedHash),
        Some((s, digest)) => if digest == digest_bytes_spec(s, salt, pwd) {
            Ok(
                if s == current_scheme() {
                    SchemeStatus::Current
                } else {
                    SchemeStatus::Outdated
                },
            )
        } else {
            Err(VerificationError::Mismatch)
        },
    }
}

fn scheme_mult_exec(s: Scheme) -> (r: u64)
    ensures
        r == scheme_mult(s),
{
    match s {
        Scheme::V1 => 31,
        Scheme::V2 => 131,
    }
}

fn scheme_init_exec(s: Scheme, salt: u64) -> (r: u64)
    ensures
        r == scheme_init(s, salt),
        r < HASH_MODULUS,
{
    match s {
        Scheme::V1 => salt % HASH_MODULUS,
        Scheme::V2 => (salt % HASH_MODULUS + 7919) % HASH_MODULUS,
    }
}

pub(crate) fn mix_exec(h: u64, v: u64, mult: u64) -> (r: u64)
    requires
        h < HASH_MODULUS,
        mult <= 131,
        v <= 0xFFFF_FFFF,
    ensures
        r == mix(h, v, mult),
        r < HASH_MODULUS,
{
    proof {
        assert(h * mult <= 1_000_000_006 * 131) by (nonlinear_arith)
            requires
                h <= 1_000_000_006,
                mult <= 131,
        ;
    }
    (h * mult + v) % HASH_MODULUS
}

/// The eight little-endian digest bytes of `pwd` salted with `salt`
/// under scheme `s`.
fn digest_bytes(s: Scheme, salt: u64, pwd: &[u8]) -> (r: Vec<u8>)
    ensures
        r@ == digest_bytes_spec(s, salt, pwd@),
{
    let mult = scheme_mult_exec(s);
    let mut h = scheme_init_exec(s, salt);
    let n = pwd.len();
    for i in 0..n
        invariant
            n == pwd@.len(),
            mult == scheme_mult(s),
            h == digest64_prefix(s, salt, pwd@, i as int),
            h < HASH_MODULUS,
    {
        h = mix_exec(h, pwd[i] as u64, mult);
    }
    let mut out: Vec<u8> = Vec::new();
    for j in 0..8usize
        invariant
            h == digest64(s, salt, pwd@),
            out@.len() == j,
            forall|k: int| 0 <= k < j ==> out@[k] == ((h >> ((8 * k) as u64)) & 0xFF) as u8,
    {
        let sh: u64 = 8 * (j as u64);
        let b: u64 = (h >> sh) & 0xFF;
        proof {
            assert((h >> sh) & 0xFF < 256) by (bit_vector);
        }
        out.push(b as u8);
    }
    proof {
        assert(out@ =~= digest_bytes_spec(s, salt, pwd@));
    }
    out
}

/// The encoded hash: scheme tag, then the digest bytes.
fn encode_hash(s: Scheme, digest: Vec<u8>) -> (r: Vec<u8>)
    ensures
        r@ == encode_spec(s, digest@),
{
    let mut out: Vec<u8> = Vec::new();
    out.push(35);
    out.push(118);
    out.push(
        match s {
            Scheme::V1 => 49,
            Scheme::V2 => 50,
        },
    );
    out.push(35);
    let n = digest.len();
    for i in 0..n
        invariant
            n == digest@.len(),
            out@ == tag_bytes(s) + digest@.subrange(0, i as int),
    {
        out.push(digest[i]);
        proof {
            assert(tag_bytes(s) + digest@.subrange(0, i as int) + seq![digest@[i as int]]
                =~= tag_bytes(s) + digest@.subrange(0, i + 1));
        }
    }
    proof {
        assert(digest@.subrange(0, digest@.len() as int) =~= digest@);
    }
    out
}

/// Hash `pwd` salted with `salt` under scheme `s`, yielding the
/// self-describing encoded hash ready to store.
pub fn hash_pwd_under(s: Scheme, pwd: &str, salt: u64) -> (r: Vec<u8>)
    ensures
        r@ == stored_hash_spec(s, salt, pwd.spec_bytes()),
{
    let digest = digest_bytes(s, salt, pwd.as_bytes());
    encode_hash(s, digest)
}

/// Hash `pwd` salted with `salt` under the current preferred scheme.
pub fn hash_pwd(pwd: &str, salt: u64) -> (r: Vec<u8>)
    ensures
        r@ == stored_hash_spec(current_scheme(), salt, pwd.spec_bytes()),
{
    hash_pwd_under(Scheme::V2, pwd, salt)
}

/// How an executable parse result corresponds to `parse_spec`'s answer.
pub open spec fn parse_agrees(r: Option<(Scheme, Vec<u8>)>, q: Option<(Scheme, Seq<u8>)>) -> bool {
    match r {
        None => q is None,
        Some(p) => q matches Some(sq) && p.0 == sq.0 && p.1@ == sq.1,
    }
}

/// Split an encoded hash into its scheme and digest bytes, or report
/// that it is malformed.
fn parse_hash(stored: &[u8]) -> (r: Option<(Scheme, Vec<u8>)>)
    ensures
        parse_agrees(r, parse_spec(stored@)),
{
    if stored.len() != 12 {
        return None;
    }
    if stored[0] != 35 || stored[1] != 118 || stored[3] != 35 {
        return None;
    }
    let s = if stored[2] == 49 {
        Scheme::V1
    } else if stored[2] == 50 {
        Scheme::V2
    } else {
        return None;
    };
    let digest = vstd::slice::slice_to_vec(&stored[4..12]);
    Some((s, digest))
}

/// Whether two digests hold the same bytes.  The comparison always
/// scans both digests whole, so its timing does not reveal the first
/// differing position.
pub fn digests_match(a: &[u8], b: &[u8]) -> (r: bool)
    ensures
        r == (a@ == b@),
{
    if a.len() != b.len() {
        return false;
    }
    let mut acc: u8 = 0;
    let n = a.len();
    for i in 0..n
        invariant
            n == a@.len(),
            a@.len() == b@.len(),
            acc == 0 <==> (forall|k: int| 0 <= k < i ==> a@[k] == b@[k]),
    {
        proof {
            assert(forall|x: u8, y: u8| (x | y) == 0 <==> x == 0 && y == 0) by (bit_vector);
            assert(forall|x: u8, y: u8| (x ^ y) == 0 <==> x == y) by (bit_vector);
        }
        acc = acc | (a[i] ^ b[i]);
    }
    if acc == 0 {
        proof {
            assert(a@ =~= b@);
        }
        true
    } else {
        proof {
            let k = choose|k: int| 0 <= k < a@.len() && a@[k] != b@[k];
            assert(a@[k] != b@[k]);
        }
        false
    }
}

/// Verify `pwd` salted with `salt` against the stored hash: recompute
/// the digest under the scheme the stored hash names, compare, and
/// report whether that scheme is still the current one.
pub fn validate_pwd(pwd: &str, salt: u64, stored: &[u8]) -> (r: Result<
    SchemeStatus,
    VerificationError,
>)
    ensures
        r == validate_spec(pwd.spec_bytes(), salt, stored@),
{
    match parse_hash(stored) {
        None => Err(VerificationError::MalformedHash),
        Some((s, stored_digest)) => {
            let computed = digest_bytes(s, salt, pwd.as_bytes());
            if digests_match(computed.as_slice(), stored_digest.as_slice()) {
                if s == Scheme::V2 {
                    Ok(SchemeStatus::Current)
                } else {
                    Ok(SchemeStatus::Outdated)
                }
            } else {
                Err(VerificationError::Mismatch)
            }
        },
    }
}

/// Law: a hash freshly produced from a password and salt under scheme
/// `s` verifies against that same password and salt, and reports
/// whether `s` is the current scheme.
pub proof fn lemma_validate_fresh_hash(s: Scheme, salt: u64, pwd: Seq<u8>)
    ensures
        validate_spec(pwd, salt, stored_hash_spec(s, salt, pwd)) == Ok::<
            SchemeStatus,
            VerificationError,
        >(
            if s == current_scheme() {
                SchemeStatus::Current
            } else {
                SchemeStatus::Outdated
            },
        ),
{
    let dg = digest_bytes_spec(s, salt, pwd);
    let st = stored_hash_spec(s, salt, pwd);
    assert(dg.len() == 8);
    assert(st.len() == 12);
    assert(st.subrange(4, 12) =~= dg);
    match s {
        Scheme::V1 => {
            assert(st[0] == 35u8 && st[1] == 118u8 && st[2] == 49u8 && st[3] == 35u8);
            assert(parse_spec(st) == Some((Scheme::V1, st.subrange(4, 12))));
        },
        Scheme::V2 => {
            assert(st[0] == 35u8 && st[1] == 118u8 && st[2] == 50u8 && st[3] == 35u8);
            assert(parse_spec(st) == Some((Scheme::V2, st.subrange(4, 12))));
        },
    }
}

} // verus!
