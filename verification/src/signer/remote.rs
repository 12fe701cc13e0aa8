//! What a signer that asks a remote signing service decides about the
//! service's answers.

use crate::signer::{Signature, SignerError, SignerErrorView};
use crate::text;
use vstd::prelude::*;

verus! {

/// What the signing service answered to a signing request.
#[derive(Debug, Clone, PartialEq, Eq)]
pub enum SignReply {
    /// The response held no signature.
    Missing,
    /// The response held a signature, but not a raw one.
    NotRaw,
    /// The response held these raw signature bytes.
    Raw(Vec<u8>),
}

/// What a [`SignReply`] holds.
pub enum SignReplyView {
    Missing,
    NotRaw,
    Raw(Seq<u8>),
}

impl View for SignReply {
    type V = SignReplyView;

    open spec fn view(&self) -> SignReplyView {
        match self {
            SignReply::Missing => SignReplyView::Missing,
            SignReply::NotRaw => SignReplyView::NotRaw,
            SignReply::Raw(bytes) => SignReplyView::Raw(bytes@),
        }
    }
}

/// The signature in the service's answer. Only a raw signature of 65 bytes
/// with a known recovery byte is one; it is carried with the recovery byte
/// shifted by 27.
pub open spec fn signature_in(reply: SignReplyView) -> Result<Seq<u8>, SignerErrorView> {
    match reply {
        SignReplyView::Missing => Err(SignerErrorView::RemoteError("no signature in response"@)),
        SignReplyView::NotRaw => Err(SignerErrorView::InvalidSignature("expected raw signature"@)),
        SignReplyView::Raw(bytes) => if bytes.len() != 65 {
            Err(
                SignerErrorView::InvalidSignature(
                    "expected 65 bytes, got "@ + text::decimal(bytes.len()),
                ),
            )
        } else if !crate::signer::is_recovery_byte(bytes[64]) {
            Err(
                SignerErrorView::InvalidSignature(
                    "invalid parity: "@ + text::decimal(bytes[64] as nat),
                ),
            )
        } else {
            Ok(bytes.subrange(0, 64).push(crate::signer::normal_recovery_byte(bytes[64])))
        },
    }
}

/// The wallet that signing is asked of must exist: a response without one is
/// a remote error.
pub fn require_wallet<W>(wallet: Option<W>) -> (out: Result<W, SignerError>)
    ensures
        match wallet {
            Some(found) => out == Ok::<W, SignerError>(found),
            None => out matches Err(error) && error@ == SignerErrorView::RemoteError(
                "wallet not found"@,
            ),
        },
{
    match wallet {
        Some(found) => Ok(found),
        None => Err(SignerError::RemoteError(String::from_str("wallet not found"))),
    }
}

/// Reads the signature out of the service's answer to a signing request.
pub fn signature_from_reply(reply: SignReply) -> (out: Result<Signature, SignerError>)
    ensures
        crate::signer::outcome_view(out) == signature_in(reply@),
{
    match reply {
        SignReply::Missing => Err(
            SignerError::RemoteError(String::from_str("no signature in response")),
        ),
        SignReply::NotRaw => Err(
            SignerError::InvalidSignature(String::from_str("expected raw signature")),
        ),
        SignReply::Raw(bytes) => {
            let len: usize = bytes.len();
            if len != 65 {
                return Err(
                    SignerError::InvalidSignature(
                        text::prefixed(
                            "expected 65 bytes, got ",
                            text::decimal_string(len as u64).as_str(),
                        ),
                    ),
                );
            }
            match crate::signer::parse_raw_signature(bytes.as_slice()) {
                Ok(signature) => Ok(signature),
                Err(detail) => Err(SignerError::InvalidSignature(detail)),
            }
        },
    }
}

} // verus!
