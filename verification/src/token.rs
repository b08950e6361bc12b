//! The session-token issuer: signs a username with the user's token
//! salt and a process-wide signing secret handed in at construction.

use vstd::prelude::*;
use vstd::string::StrSliceExecFns;
use crate::hash;

verus! {

/// An opaque session token: the signature the issuer derived from the
/// username, the user's token salt and the signing secret.  The caller
/// delivers it, for instance as a cookie value.
#[derive(Clone, Copy, Debug, PartialEq, Eq, Structural)]
pub struct SessionToken {
    pub sig: u64,
}

/// The signature of a username under a token salt and signing secret:
/// a rolling digest seeded with the salt, fed the secret and then each
/// character of the username.
pub open spec fn sig_of(name: Seq<char>, token_salt: u64, secret: u64) -> u64 {
    sig_prefix(name, token_salt, secret, name.len() as int)
}

/// The signature digest after the first `n` characters of the name.
pub open spec fn sig_prefix(name: Seq<char>, token_salt: u64, secret: u64, n: int) -> u64
    decreases n,
{
    if n <= 0 {
        hash::mix((token_salt % hash::HASH_MODULUS) as u64, secret % 0x1_0000_0000, 131)
    } else {
        hash::mix(sig_prefix(name, token_salt, secret, n - 1), (name[n - 1] as u32) as u64, 131)
    }
}

/// Issues session tokens.  The signing secret is handed in when the
/// issuer is built; an issuer without one cannot sign and refuses to
/// issue.
pub struct TokenIssuer {
    pub secret: Option<u64>,
}

impl TokenIssuer {
    /// An issuer that signs with `secret`.
    pub fn new(secret: u64) -> (r: TokenIssuer)
        ensures
            r.secret == Some(secret),
    {
        TokenIssuer { secret: Some(secret) }
    }

    /// An issuer whose signing secret is unavailable: every issue
    /// request fails.
    pub fn without_secret() -> (r: TokenIssuer)
        ensures
            r.secret is None,
    {
        TokenIssuer { secret: None }
    }

    /// Sign `username` with `token_salt`, or report that no signing
    /// secret is available.
    pub fn issue(&self, username: &str, token_salt: u64) -> (r: Option<SessionToken>)
        ensures
            match self.secret {
                Some(sec) => r == Some(SessionToken { sig: sig_of(username@, token_salt, sec) }),
                None => r is None,
            },
    {
        let sec = match self.secret {
            Some(s) => s,
            None => {
                return None;
            },
        };
        let mut h = hash::mix_exec(token_salt % hash::HASH_MODULUS, sec % 0x1_0000_0000, 131);
        let n = username.unicode_len();
        for i in 0..n
            invariant
                n == username@.len(),
                h == sig_prefix(username@, token_salt, sec, i as int),
                h < hash::HASH_MODULUS,
        {
            let c = username.get_char(i);
            h = hash::mix_exec(h, (c as u32) as u64, 131);
        }
        Some(SessionToken { sig: h })
    }
}

} // verus!
