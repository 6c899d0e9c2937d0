//! The private child jar: a facade over a parent [`CookieJar`] that seals
//! every value it stores and unseals, verifies and decodes every value it
//! hands back. Any unseal failure is collapsed into "absent", so an observer
//! cannot tell a missing cookie from one that failed to authenticate.

use crate::jar::{Cookie, CookieJar};
use crate::seal::{seal, seal_encoding, unseal, unseal_spec, SealError, UnsealError};
use vstd::prelude::*;

verus! {

/// Why a private jar could not be constructed.
#[derive(Clone, Copy, Debug, PartialEq, Eq, Structural)]
pub enum ConfigError {
    /// The key is not exactly 32 bytes long.
    InvalidKeyLength,
}

/// A child jar that seals the cookies added through it and unseals the
/// cookies retrieved through it, so that the values stored in the parent jar
/// are assured confidentiality, integrity and authenticity.
pub struct PrivateJar {
    key: Vec<u8>,
}

impl View for PrivateJar {
    type V = Seq<u8>;

    closed spec fn view(&self) -> Seq<u8> {
        self.key@
    }
}

impl PrivateJar {
    /// Well-formed: the key is exactly 32 bytes.
    pub open spec fn wf(&self) -> bool {
        self@.len() == 32
    }

    /// Build a private jar over the given secret key. The key must be exactly
    /// 32 bytes, checked eagerly here and never again.
    pub fn new(key: &[u8]) -> (r: Result<PrivateJar, ConfigError>)
        ensures
            r matches Ok(j) ==> j.wf() && j@ == key@,
            r is Err <==> key@.len() != 32,
    {
        if key.len() != 32 {
            Err(ConfigError::InvalidKeyLength)
        } else {
            Ok(PrivateJar { key: vstd::slice::slice_to_vec(key) })
        }
    }

    /// Look a cookie up in the parent jar and unseal its value. Returns the
    /// cookie with its decrypted plaintext where the name is stored and its
    /// value authenticates and decodes; `None` otherwise — "absent" and
    /// "failed to unseal" are deliberately indistinguishable.
    pub fn get(&self, parent: &CookieJar, name: &str) -> (r: Option<Cookie>)
        requires
            self.wf(),
            parent.wf(),
        ensures
            r matches Some(c) ==> parent@.contains_key(name@) && c.name@ == name@ && unseal_spec(
                self@,
                parent@[name@],
            ) == Result::<Seq<char>, UnsealError>::Ok(c.value@),
            r is None ==> !parent@.contains_key(name@) || unseal_spec(self@, parent@[name@]) is Err,
    {
        match parent.get(name) {
            Some(stored) => match unseal(stored.value.as_str(), self.key.as_slice()) {
                Ok(plain) => Some(Cookie { name: stored.name.clone(), value: plain }),
                Err(_) => None,
            },
            None => None,
        }
    }

    /// Seal the cookie's value and store the sealed cookie in the parent jar.
    /// On success the parent holds, under the cookie's name, a base64 payload
    /// made with a fresh nonce, which unseals under this jar's key to exactly
    /// the value that went in; the plaintext itself is never stored. On
    /// failure the parent jar is unchanged.
    pub fn add(&self, parent: &mut CookieJar, cookie: Cookie) -> (r: Result<(), SealError>)
        requires
            self.wf(),
            old(parent).wf(),
        ensures
            final(parent).wf(),
            r is Ok ==> {
                &&& final(parent)@.contains_key(cookie.name@)
                &&& unseal_spec(self@, final(parent)@[cookie.name@]) == Result::<
                    Seq<char>,
                    UnsealError,
                >::Ok(cookie.value@)
                &&& exists|nonce: Seq<u8>|
                    nonce.len() == 12 && final(parent)@ == old(parent)@.insert(
                        cookie.name@,
                        #[trigger] seal_encoding(self@, nonce, cookie.value@),
                    )
            },
            r is Err ==> final(parent)@ == old(parent)@,
    {
        match seal(cookie.value.as_str(), self.key.as_slice()) {
            Ok(sealed) => {
                parent.add(Cookie { name: cookie.name, value: sealed });
                Ok(())
            },
            Err(e) => Err(e),
        }
    }

    /// Remove the cookie of the same name from the parent jar; matching is
    /// entirely the parent's, unaffected by sealing.
    pub fn remove(&self, parent: &mut CookieJar, cookie: Cookie)
        requires
            old(parent).wf(),
        ensures
            final(parent).wf(),
            final(parent)@ == old(parent)@.remove(cookie.name@),
    {
        parent.remove(cookie);
    }
}

/// Extends [`CookieJar`] with a `private` method to obtain a private child
/// jar over a secret key.
pub trait Private {
    /// A private jar using `key` to seal and unseal the cookies it stores in
    /// and retrieves from a parent jar, handed to each of its calls. The key
    /// must be exactly 32 bytes and, for security, must be cryptographically
    /// random; any other length fails eagerly with a configuration error.
    fn private(&self, key: &[u8]) -> (r: Result<PrivateJar, ConfigError>)
        ensures
            r matches Ok(j) ==> j.wf() && j@ == key@,
            r is Err <==> key@.len() != 32,
    ;
}

impl Private for CookieJar {
    fn private(&self, key: &[u8]) -> (r: Result<PrivateJar, ConfigError>) {
        PrivateJar::new(key)
    }
}

} // verus!
