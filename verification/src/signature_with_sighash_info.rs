//! Defines `SighashInfo` and signatures with `SighashInfo`.

use crate::signature::{Binding, SigType, Signature, SpendAuth};
use vstd::prelude::*;

verus! {

/// The sighash version and associated information
#[derive(Debug)]
pub struct SighashInfo {
    pub version: u8,
    pub associated_information: Vec<u8>,
}

impl Clone for SighashInfo {
    fn clone(&self) -> (copy: Self)
        ensures
            copy.version == self.version,
            copy.associated_information@ == self.associated_information@,
    {
        SighashInfo {
            version: self.version,
            associated_information: self.associated_information.clone(),
        }
    }
}

/// The sighash version and associated information for Sapling binding/authorizing signatures.
pub fn sapling_sig_v0() -> (info: SighashInfo)
    ensures
        info.version == 0x00,
        info.associated_information@ == Seq::<u8>::empty(),
{
    SighashInfo { version: 0x00, associated_information: vec![] }
}

/// A signature with the version of its sighash and the information that goes with it.
#[derive(Debug)]
pub struct SignatureWithSighashInfo<T: SigType> {
    pub(crate) info: SighashInfo,
    pub(crate) signature: Signature<T>,
}

impl<T: SigType> Clone for SignatureWithSighashInfo<T> {
    fn clone(&self) -> (copy: Self)
        ensures
            copy.info().version == self.info().version,
            copy.info().associated_information@ == self.info().associated_information@,
            copy.bare() == self.bare(),
    {
        SignatureWithSighashInfo { info: self.info.clone(), signature: self.signature }
    }
}

/// The version byte, the associated information and the signature, in this order.
pub open spec fn encoding(version: u8, associated_information: Seq<u8>, signature: Seq<u8>) -> Seq<
    u8,
> {
    seq![version] + associated_information + signature
}

impl<T: SigType> SignatureWithSighashInfo<T> {
    /// What the signature is made over.
    pub open(crate) spec fn info(&self) -> SighashInfo {
        self.info
    }

    /// The signature without its information.
    pub open(crate) spec fn bare(&self) -> Signature<T> {
        self.signature
    }

    /// Adds the information to a signature.
    pub fn new(info: SighashInfo, signature: Signature<T>) -> (informed: Self)
        ensures
            informed.info() == info,
            informed.bare() == signature,
    {
        SignatureWithSighashInfo { info, signature }
    }

    /// Encodes the signature with its information.
    pub fn to_bytes(&self) -> (bytes: Vec<u8>)
        requires
            1 + self.info().associated_information@.len() + 64 <= isize::MAX,
        ensures
            bytes@ == encoding(
                self.info().version,
                self.info().associated_information@,
                self.bare()@,
            ),
            bytes@.len() == 1 + self.info().associated_information@.len() + self.bare()@.len(),
            bytes@[0] == self.info().version,
            forall|i: int|
                0 <= i < self.info().associated_information@.len() ==> #[trigger] bytes@[1 + i]
                    == self.info().associated_information@[i],
            forall|i: int|
                0 <= i < self.bare()@.len() ==> #[trigger] bytes@[1
                    + self.info().associated_information@.len() + i] == self.bare()@[i],
    {
        let mut result: Vec<u8> = Vec::with_capacity(
            1 + self.info.associated_information.len() + 64,
        );
        result.push(self.info.version);
        result.extend_from_slice(self.info.associated_information.as_slice());
        result.extend_from_slice(&self.signature.to_bytes());
        result
    }

    /// Returns the signature.
    pub fn signature(&self) -> (signature: &Signature<T>)
        ensures
            *signature == self.bare(),
    {
        &self.signature
    }
}

/// Binding signature containing the sighash information and the signature itself.
pub type BindingSignatureWithSighashInfo = SignatureWithSighashInfo<Binding>;

/// Authorizing signature containing the sighash information and the signature itself.
pub type SpendAuthSignatureWithSighashInfo = SignatureWithSighashInfo<SpendAuth>;

} // verus!
