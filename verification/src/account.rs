//! The identity of an account.

use vstd::prelude::*;

verus! {

/// The 32-byte hash under which the host knows an account.
#[derive(Clone, Copy, Debug, PartialEq, Eq)]
pub struct AccountHash(pub [u8; 32]);

impl AccountHash {
    /// The account hash made of the given bytes.
    pub fn new(value: [u8; 32]) -> (hash: AccountHash)
        ensures
            hash.0 == value,
    {
        AccountHash(value)
    }

    /// The bytes of the hash.
    pub fn value(&self) -> (value: [u8; 32])
        ensures
            value == self.0,
    {
        self.0
    }
}

} // verus!
