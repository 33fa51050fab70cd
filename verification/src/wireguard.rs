//! WireGuard key material as the daemon reports it.

use vstd::prelude::*;

verus! {

/// A WireGuard public key together with its creation time as a Unix
/// timestamp.
#[derive(Debug, PartialEq)]
pub struct PublicKey {
    pub key: Vec<u8>,
    pub created_unix: i64,
}

impl Clone for PublicKey {
    fn clone(&self) -> (r: Self)
        ensures
            r.key@ == self.key@,
            r.created_unix == self.created_unix,
    {
        PublicKey { key: self.key.clone(), created_unix: self.created_unix }
    }
}

/// The outcome of asking the server for a new WireGuard key.
#[derive(Debug, PartialEq)]
pub enum KeygenEvent {
    NewKey(PublicKey),
    TooManyKeys,
    GenerationFailure,
}

impl Clone for KeygenEvent {
    fn clone(&self) -> (r: Self)
        ensures
            match (self, &r) {
                (KeygenEvent::NewKey(k), KeygenEvent::NewKey(rk)) => rk.key@ == k.key@
                    && rk.created_unix == k.created_unix,
                (KeygenEvent::TooManyKeys, KeygenEvent::TooManyKeys) => true,
                (KeygenEvent::GenerationFailure, KeygenEvent::GenerationFailure) => true,
                _ => false,
            },
    {
        match self {
            KeygenEvent::NewKey(public_key) => KeygenEvent::NewKey(public_key.clone()),
            KeygenEvent::TooManyKeys => KeygenEvent::TooManyKeys,
            KeygenEvent::GenerationFailure => KeygenEvent::GenerationFailure,
        }
    }
}

} // verus!
