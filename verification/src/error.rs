//! What can go wrong while a bundle is built or signed.

use vstd::prelude::*;

verus! {

/// The errors of building and signing a bundle.
#[derive(Clone, Copy, Debug, PartialEq, Eq, Structural)]
pub enum Error {
    AnchorMismatch,
    BindingSig,
    /// A signature is valid for more than one input. This should never happen if `alpha`
    /// is sampled correctly, and indicates a critical failure in randomness generation.
    DuplicateSignature,
    InvalidAddress,
    InvalidAmount,
    /// External signature is not valid.
    InvalidExternalSignature,
    /// A bundle could not be built because required signatures were missing.
    MissingSignatures,
    SpendProof,
}

/// The text that describes an error.
pub open spec fn error_message(error: Error) -> Seq<char> {
    match error {
        Error::AnchorMismatch => "Anchor mismatch (anchors for all spends must be equal)"@,
        Error::BindingSig => "Failed to create bindingSig"@,
        Error::DuplicateSignature => "Signature valid for more than one input"@,
        Error::InvalidAddress => "Invalid address"@,
        Error::InvalidAmount => "Invalid amount"@,
        Error::InvalidExternalSignature => "External signature was invalid"@,
        Error::MissingSignatures => "Required signatures were missing during build"@,
        Error::SpendProof => "Failed to create Sapling spend proof"@,
    }
}

/// No two errors are described by the same text.
pub proof fn law_messages_differ(a: Error, b: Error)
    ensures
        error_message(a) == error_message(b) <==> a == b,
{
    reveal_strlit("Anchor mismatch (anchors for all spends must be equal)");
    reveal_strlit("Failed to create bindingSig");
    reveal_strlit("Signature valid for more than one input");
    reveal_strlit("Invalid address");
    reveal_strlit("Invalid amount");
    reveal_strlit("External signature was invalid");
    reveal_strlit("Required signatures were missing during build");
    reveal_strlit("Failed to create Sapling spend proof");
    // No two of them are of one length.
    assert("Anchor mismatch (anchors for all spends must be equal)"@.len() == 54);
    assert("Failed to create bindingSig"@.len() == 27);
    assert("Signature valid for more than one input"@.len() == 39);
    assert("Invalid address"@.len() == 15);
    assert("Invalid amount"@.len() == 14);
    assert("External signature was invalid"@.len() == 30);
    assert("Required signatures were missing during build"@.len() == 45);
    assert("Failed to create Sapling spend proof"@.len() == 36);
}

impl Error {
    /// The text that describes this error.
    pub fn to_string(&self) -> (text: String)
        ensures
            text@ == error_message(*self),
            *self == Error::AnchorMismatch ==> text@
                == "Anchor mismatch (anchors for all spends must be equal)"@,
            *self == Error::BindingSig ==> text@ == "Failed to create bindingSig"@,
            *self == Error::DuplicateSignature ==> text@
                == "Signature valid for more than one input"@,
            *self == Error::InvalidAddress ==> text@ == "Invalid address"@,
            *self == Error::InvalidAmount ==> text@ == "Invalid amount"@,
            *self == Error::InvalidExternalSignature ==> text@
                == "External signature was invalid"@,
            *self == Error::MissingSignatures ==> text@
                == "Required signatures were missing during build"@,
            *self == Error::SpendProof ==> text@ == "Failed to create Sapling spend proof"@,
    {
        match self {
            Error::AnchorMismatch => {
                "Anchor mismatch (anchors for all spends must be equal)".to_string()
            },
            Error::BindingSig => "Failed to create bindingSig".to_string(),
            Error::DuplicateSignature => "Signature valid for more than one input".to_string(),
            Error::InvalidAddress => "Invalid address".to_string(),
            Error::InvalidAmount => "Invalid amount".to_string(),
            Error::InvalidExternalSignature => "External signature was invalid".to_string(),
            Error::MissingSignatures => {
                "Required signatures were missing during build".to_string()
            },
            Error::SpendProof => "Failed to create Sapling spend proof".to_string(),
        }
    }
}

} // verus!
