//! Versions of Sapling signatures.

use crate::signature::{Binding, SigType, Signature, SpendAuth};
use vstd::prelude::*;

verus! {

/// The Sapling sighash version.
#[derive(Debug, Clone, Copy, Eq, PartialEq, PartialOrd, Ord)]
pub enum SaplingSighashVersion {
    /// Version V0.
    V0,
    /// No version (used for Sapling and TXv5 compatibility).
    /// TXv5 does not require the sighash versioning bytes.
    NoVersion,
}

/// The byte that encodes a version in a PCZT.
pub open spec fn version_byte(version: SaplingSighashVersion) -> u8 {
    match version {
        SaplingSighashVersion::V0 => 0,
        SaplingSighashVersion::NoVersion => u8::MAX,
    }
}

impl SaplingSighashVersion {
    /// The byte that encodes this version, for compatibility with the PCZT encoding.
    pub fn to_u8(&self) -> (byte: u8)
        ensures
            byte == version_byte(*self),
            *self == SaplingSighashVersion::V0 ==> byte == 0,
            *self == SaplingSighashVersion::NoVersion ==> byte == 255,
    {
        match self {
            SaplingSighashVersion::V0 => 0,
            SaplingSighashVersion::NoVersion => u8::MAX,
        }
    }
}

/// The Sapling versioned signature.
#[derive(Debug, Eq, PartialEq)]
pub struct SaplingVersionedSig<T: SigType> {
    pub(crate) version: SaplingSighashVersion,
    pub(crate) sig: Signature<T>,
}

impl<T: SigType> Clone for SaplingVersionedSig<T> {
    fn clone(&self) -> (copy: Self)
        ensures
            copy == *self,
    {
        SaplingVersionedSig { version: self.version, sig: self.sig }
    }
}

/// What a versioned signature is made of.
impl<T: SigType> View for SaplingVersionedSig<T> {
    type V = (SaplingSighashVersion, Signature<T>);

    open(crate) spec fn view(&self) -> (SaplingSighashVersion, Signature<T>) {
        (self.version, self.sig)
    }
}

impl<T: SigType> SaplingVersionedSig<T> {
    /// Constructs a `SaplingVersionedSig` from its constituent parts.
    pub fn new(version: SaplingSighashVersion, sig: Signature<T>) -> (versioned: Self)
        ensures
            versioned@ == (version, sig),
    {
        SaplingVersionedSig { version, sig }
    }

    /// Returns the version of the signature.
    pub fn version(&self) -> (version: &SaplingSighashVersion)
        ensures
            *version == self@.0,
    {
        &self.version
    }

    /// Returns the signature.
    pub fn sig(&self) -> (sig: &Signature<T>)
        ensures
            *sig == self@.1,
    {
        &self.sig
    }
}

/// A versioned Sapling SpendAuth signature.
pub type VerSpendAuthSig = SaplingVersionedSig<SpendAuth>;

/// A versioned Sapling binding signature.
pub type VerBindingSig = SaplingVersionedSig<Binding>;

} // verus!
