//! Failure taxonomy for the facade operations. Every failure names its
//! remote or input cause, so a caller can tell a signer problem from a
//! chain-data problem from bad input; none is swallowed or degraded to a
//! default value.

use vstd::prelude::*;

verus! {

/// Why a facade operation failed.
#[derive(Clone, Copy, PartialEq, Eq, Structural, Debug)]
pub enum BtcError {
    /// The remote signer call failed or timed out; no key was produced.
    SignerUnavailable,
    /// The signer returned bytes that do not decode as a valid compressed
    /// elliptic-curve point.
    MalformedKey,
    /// The UTXO or fee query against the chain-data provider failed; no
    /// partial or stale balance is reported in its place.
    ChainDataUnavailable,
    /// Caller-supplied address text is not a supported address for the
    /// deployment's active network.
    InvalidAddressFormat,
}

/// The operator-facing message for each failure.
pub open spec fn spec_message(e: BtcError) -> Seq<char> {
    match e {
        BtcError::SignerUnavailable => "signer unavailable: public key request failed"@,
        BtcError::MalformedKey => "malformed key: signer bytes are not a valid compressed point"@,
        BtcError::ChainDataUnavailable => "chain data unavailable: UTXO or fee query failed"@,
        BtcError::InvalidAddressFormat => "invalid address format for the active network"@,
    }
}

impl BtcError {
    /// A human-readable message, distinct per failure cause.
    pub fn message(&self) -> (m: String)
        ensures
            m@ == spec_message(*self),
    {
        match self {
            BtcError::SignerUnavailable => String::from_str(
                "signer unavailable: public key request failed",
            ),
            BtcError::MalformedKey => String::from_str(
                "malformed key: signer bytes are not a valid compressed point",
            ),
            BtcError::ChainDataUnavailable => String::from_str(
                "chain data unavailable: UTXO or fee query failed",
            ),
            BtcError::InvalidAddressFormat => String::from_str(
                "invalid address format for the active network",
            ),
        }
    }
}

} // verus!
