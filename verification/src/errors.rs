//! Error taxonomy surfaced by the library.
use vstd::prelude::*;

verus! {

/// Why an operation failed. Every fallible public function names in its
/// contract exactly which of these it returns, and when.
#[derive(Clone, Copy, Debug, PartialEq, Eq, Structural)]
pub enum MithrasError {
    /// The system CSPRNG refused to fill a buffer.
    RandomGeneration,
    /// Edwards-Y decompression rejected a compressed point.
    CurvePointDecompression,
    /// HPKE setup, seal or open failed (including AEAD authentication).
    HpkeOperation,
    /// A fixed-width field did not match its declared length or range.
    DataConversion,
    /// The bech32m encoder rejected the address payload.
    AddressEncoding,
    /// The address string is not valid bech32m.
    AddressBech32,
    /// The address carries a human-readable prefix other than `mith`.
    AddressWrongHrp,
    /// The address payload is not exactly the documented width.
    AddressWrongLength,
    /// The address names a network byte this library does not know.
    AddressUnknownNetwork,
    /// The address names a suite byte this library does not know.
    AddressUnknownSuite,
    /// The envelope blob is not exactly the documented width.
    EnvelopeWrongLength,
    /// The envelope carries a version byte this library does not know.
    EnvelopeUnknownVersion,
    /// The envelope carries a suite byte this library does not know.
    EnvelopeUnknownSuite,
}

/// The flattened error shape used by the binding layer: one variant holding
/// a rendered message.
#[derive(Debug)]
pub enum MithrasCryptoError {
    Error(String),
}

impl MithrasError {
    /// A short stable name for the error, for rendering at the edges.
    pub fn label(&self) -> (r: &'static str) {
        match self {
            MithrasError::RandomGeneration => "random generation failed",
            MithrasError::CurvePointDecompression => "curve point decompression failed",
            MithrasError::HpkeOperation => "hpke operation failed",
            MithrasError::DataConversion => "data conversion failed",
            MithrasError::AddressEncoding => "address encoding failed",
            MithrasError::AddressBech32 => "address is not valid bech32m",
            MithrasError::AddressWrongHrp => "address prefix is not mith",
            MithrasError::AddressWrongLength => "address payload has the wrong length",
            MithrasError::AddressUnknownNetwork => "address names an unknown network",
            MithrasError::AddressUnknownSuite => "address names an unknown suite",
            MithrasError::EnvelopeWrongLength => "envelope has the wrong length",
            MithrasError::EnvelopeUnknownVersion => "envelope names an unknown version",
            MithrasError::EnvelopeUnknownSuite => "envelope names an unknown suite",
        }
    }

    /// Wrap the error for the binding layer.
    pub fn to_crypto_error(&self) -> MithrasCryptoError {
        MithrasCryptoError::Error(self.label().to_owned())
    }
}

} // verus!
