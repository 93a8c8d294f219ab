//! The ways in which encoding and decoding fail.
use vstd::prelude::*;
use vstd::std_specs::convert::FromSpecImpl;

verus! {

/// Why an encode or a decode call gave up. Every failure ends the whole call:
/// no partly decoded value is ever handed out.
#[derive(Debug, Clone, Copy, PartialEq, Eq)]
pub enum PduError {
    /// The buffer holds `received` bytes where the next step needs `expected`.
    NotEnoughBytes { received: usize, expected: usize },
    /// A capability set declares a length that does not even cover its header.
    InvalidLength,
    /// A capability set carries a type code that the protocol does not define.
    InvalidType,
    /// The bytes of the source descriptor are not valid text.
    InvalidText,
    /// A length does not fit the 16-bit field that has to carry it.
    LengthOverflow,
}

pub type PduResult<T> = Result<T, PduError>;

/// What can be wrong with a capability set, for callers that want one error type
/// for the codec and for what they check in the decoded fields.
#[derive(Debug)]
pub enum CapabilitySetsError {
    IOError(std::io::Error),
    Utf8Error(std::string::FromUtf8Error),
    InvalidType,
    InvalidCompressionFlag,
    InvalidMultipleRectSupport,
    InvalidProtocolVersion,
    InvalidCompressionTypes,
    InvalidUpdateCapFlag,
    InvalidRemoteUnshareFlag,
    InvalidCompressionLevel,
    InvalidBrushSupportLevel,
    InvalidGlyphSupportLevel,
    InvalidRfxICapVersion,
    InvalidRfxICapTileSize,
    InvalidRfxICapColorConvBits,
    InvalidRfxICapTransformBits,
    InvalidRfxICapEntropyBits,
    InvalidRfxCapsetBlockType,
    InvalidRfxCapsetType,
    InvalidRfxCapsBlockType,
    InvalidRfxCapsBockLength,
    InvalidRfxCapsNumCapsets,
    InvalidCodecProperty,
    InvalidCodecID,
    InvalidChunkSize,
    InvalidPropertyLength,
    InvalidLength,
    Pdu(PduError),
}

/// `std::io::Error`, carried by [`CapabilitySetsError::IOError`] and never looked into.
#[verifier::external_type_specification]
#[verifier::external_body]
pub struct ExIoError(std::io::Error);

impl From<PduError> for CapabilitySetsError {
    fn from(e: PduError) -> (res: Self) {
        CapabilitySetsError::Pdu(e)
    }
}

impl FromSpecImpl<PduError> for CapabilitySetsError {
    open spec fn obeys_from_spec() -> bool {
        true
    }

    open spec fn from_spec(e: PduError) -> Self {
        CapabilitySetsError::Pdu(e)
    }
}

} // verus!
