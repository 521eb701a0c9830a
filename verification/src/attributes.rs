//! `TPMA_OBJECT`: object attributes as a bitmask over named flags.

use vstd::prelude::*;

verus! {

/// Not used
pub const OBJECT_ATTR_NOT_USED: u32 = 0x0000_0001;

/// Hierarchy is immutable
pub const OBJECT_ATTR_FIXED_TPM: u32 = 0x0000_0002;

/// TPM chip reset invalidates also saved contexts
pub const OBJECT_ATTR_ST_CLEAR: u32 = 0x0000_0004;

/// Parent is immutable
pub const OBJECT_ATTR_FIXED_PARENT: u32 = 0x0000_0010;

/// TPM-only generated secrets
pub const OBJECT_ATTR_SENSITIVE_DATA_ORIGIN: u32 = 0x0000_0020;

/// Allow user access without policy session
pub const OBJECT_ATTR_USER_WITH_AUTH: u32 = 0x0000_0040;

/// Deny admin access without policy session
pub const OBJECT_ATTR_ADMIN_WITH_POLICY: u32 = 0x0000_0080;

/// Deny dictionary attack protections
pub const OBJECT_ATTR_NO_DA: u32 = 0x0000_0400;

/// Encrypted duplication
pub const OBJECT_ATTR_ENCRYPTED_DUPLICATION: u32 = 0x0000_0800;

/// Manipulate only structures of known format
pub const OBJECT_ATTR_RESTRICTED: u32 = 0x0001_0000;

/// Decrypt with the private key
pub const OBJECT_ATTR_DECRYPT: u32 = 0x0002_0000;

/// Encrypt with the private key
pub const OBJECT_ATTR_ENCRYPT: u32 = 0x0004_0000;

/// `TPMA_OBJECT`: a bitmask over named boolean object attributes. Any
/// combination of bits is representable; this layer performs no validation
/// of mutually exclusive combinations, which is deferred to the caller.
#[derive(Clone, Copy, Debug, PartialEq, Eq, Structural)]
pub struct ObjectAttributes {
    /// The raw attribute bits.
    pub bits: u32,
}

impl ObjectAttributes {
    /// Returns the attribute set with no flag set.
    pub fn empty() -> (r: Self)
        ensures
            r.bits == 0u32,
    {
        ObjectAttributes { bits: 0 }
    }

    /// Returns the attribute set carrying exactly the given raw bits.
    pub fn from_bits(bits: u32) -> (r: Self)
        ensures
            r.bits == bits,
    {
        ObjectAttributes { bits }
    }

    /// Returns the raw bits.
    pub fn bits(&self) -> (r: u32)
        ensures
            r == self.bits,
    {
        self.bits
    }

    /// Tests whether every flag of `flags` is set.
    pub fn contains(&self, flags: u32) -> (r: bool)
        ensures
            r == (self.bits & flags == flags),
    {
        self.bits & flags == flags
    }

    /// Sets every flag of `flags`.
    pub fn set(&mut self, flags: u32)
        ensures
            final(self).bits == old(self).bits | flags,
    {
        self.bits = self.bits | flags;
    }

    /// Clears every flag of `flags`.
    pub fn clear(&mut self, flags: u32)
        ensures
            final(self).bits == old(self).bits & !flags,
    {
        self.bits = self.bits & !flags;
    }
}

} // verus!
