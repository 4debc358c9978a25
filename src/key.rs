use vstd::prelude::*;

verus! {

/// Number of bytes in an application identity.
pub const NAME_LEN: usize = 64;

/// Number of bytes in the nonce of an application key.
pub const NONCE_LEN: usize = 24;

/// Number of bytes in the symmetric key of an application key.
pub const KEY_LEN: usize = 32;

/// Opaque fixed-size identifier of an attached application.
#[derive(Debug, Clone, Copy, PartialEq, Eq)]
pub struct ApplicationIdentity {
    pub name: [u8; 64],
}

/// Symmetric key material issued to one application: a nonce and a key.
#[derive(Debug, Clone, Copy, PartialEq, Eq)]
pub struct ApplicationEncryptionKey {
    pub nonce: [u8; 24],
    pub key: [u8; 32],
}

impl ApplicationIdentity {
    /// Whether the two identities hold the same bytes.
    pub fn same_as(&self, other: &ApplicationIdentity) -> (r: bool)
        ensures
            r == (self.name@ == other.name@),
    {
        let mut i: usize = 0;
        while i < NAME_LEN
            invariant
                i <= NAME_LEN,
                self.name@.len() == NAME_LEN,
                other.name@.len() == NAME_LEN,
                forall|j: int| 0 <= j < i ==> self.name@[j] == other.name@[j],
            decreases NAME_LEN - i,
        {
            if self.name[i] != other.name[i] {
                return false;
            }
            i = i + 1;
        }
        assert(self.name@ =~= other.name@);
        true
    }
}

/// Relies on sodiumoxide::crypto::secretbox::gen_nonce: a nonce drawn from
/// libsodium's secure random source.
#[verifier::external_body]
fn random_nonce() -> (r: [u8; 24]) {
    sodiumoxide::crypto::secretbox::gen_nonce().0
}

/// Relies on sodiumoxide::crypto::secretbox::gen_key: a key drawn from
/// libsodium's secure random source.
#[verifier::external_body]
fn random_key() -> (r: [u8; 32]) {
    sodiumoxide::crypto::secretbox::gen_key().0
}

impl ApplicationEncryptionKey {
    /// Fresh key material: a random nonce and a random key.
    pub fn generate() -> (r: ApplicationEncryptionKey)
        ensures
            r.nonce@.len() == NONCE_LEN,
            r.key@.len() == KEY_LEN,
    {
        let nonce = random_nonce();
        let key = random_key();
        ApplicationEncryptionKey { nonce, key }
    }
}

} // verus!
