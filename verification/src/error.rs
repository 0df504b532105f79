//! The binding's error taxonomy and its mapping from native result codes.

use vstd::prelude::*;

verus! {

/// Result code the native library returns on success.
pub const CODEC_OK: u32 = 0;
/// Native code for an unspecified failure.
pub const CODEC_ERROR: u32 = 1;
/// Native code for a failed memory operation.
pub const CODEC_MEM_ERROR: u32 = 2;
/// Native code for an interface version mismatch.
pub const CODEC_ABI_MISMATCH: u32 = 3;
/// Native code for a capability the algorithm lacks.
pub const CODEC_INCAPABLE: u32 = 4;
/// Native code for a bitstream the decoder cannot parse at all.
pub const CODEC_UNSUP_BITSTREAM: u32 = 5;
/// Native code for a feature of the bitstream the decoder does not implement.
pub const CODEC_UNSUP_FEATURE: u32 = 6;
/// Native code for corrupt coded data in the current frame.
pub const CODEC_CORRUPT_FRAME: u32 = 7;
/// Native code for an invalid application-supplied parameter.
pub const CODEC_INVALID_PARAM: u32 = 8;
/// Native code meaning an iterator has no further entries.
pub const CODEC_LIST_END: u32 = 9;

/// The error taxonomy mirroring the native library's result codes.
///
/// Severity is advisory and documented per variant; the binding preserves it
/// but never acts on it.
#[derive(Clone, Copy, Eq, PartialEq, Structural, Debug)]
pub enum Error {
    /// A native code outside the named set, carried through unchanged.
    Generic(u32),
    /// A memory operation failed.
    Mem,
    /// The version tag sent on creation does not match the native library.
    AbiMismatch,
    /// The algorithm does not have a required capability.
    Incapable,
    /// The bitstream could not be parsed at the highest level. This SHOULD be
    /// treated as fatal to the stream.
    UnsupportedBitstream,
    /// The bitstream uses a feature the decoder does not implement. This MAY
    /// be treated as fatal to the stream or to the current group of pictures.
    UnsupportedFrame,
    /// The coded data for the current frame is corrupt or incomplete. This
    /// MAY be treated as fatal to the stream or to the current group of
    /// pictures; continuing may show artifacts.
    CorruptFrame,
    /// An application-supplied parameter is not valid.
    InvalidParam,
    /// An iterator reached the end of its list.
    ListEnd,
}

/// The taxonomy member a native result code maps to: each named code has its
/// own member, and every other code keeps its value in `Generic`.
pub open spec fn error_of_code(v: u32) -> Error {
    if v == CODEC_MEM_ERROR {
        Error::Mem
    } else if v == CODEC_ABI_MISMATCH {
        Error::AbiMismatch
    } else if v == CODEC_INCAPABLE {
        Error::Incapable
    } else if v == CODEC_UNSUP_BITSTREAM {
        Error::UnsupportedBitstream
    } else if v == CODEC_UNSUP_FEATURE {
        Error::UnsupportedFrame
    } else if v == CODEC_CORRUPT_FRAME {
        Error::CorruptFrame
    } else if v == CODEC_INVALID_PARAM {
        Error::InvalidParam
    } else if v == CODEC_LIST_END {
        Error::ListEnd
    } else {
        Error::Generic(v)
    }
}

impl From<u32> for Error {
    fn from(v: u32) -> Error {
        if v == CODEC_MEM_ERROR {
            Error::Mem
        } else if v == CODEC_ABI_MISMATCH {
            Error::AbiMismatch
        } else if v == CODEC_INCAPABLE {
            Error::Incapable
        } else if v == CODEC_UNSUP_BITSTREAM {
            Error::UnsupportedBitstream
        } else if v == CODEC_UNSUP_FEATURE {
            Error::UnsupportedFrame
        } else if v == CODEC_CORRUPT_FRAME {
            Error::CorruptFrame
        } else if v == CODEC_INVALID_PARAM {
            Error::InvalidParam
        } else if v == CODEC_LIST_END {
            Error::ListEnd
        } else {
            Error::Generic(v)
        }
    }
}

impl vstd::std_specs::convert::FromSpecImpl<u32> for Error {
    open spec fn obeys_from_spec() -> bool {
        true
    }

    open spec fn from_spec(v: u32) -> Error {
        error_of_code(v)
    }
}

/// The short description of each taxonomy member.
pub open spec fn spec_description(e: Error) -> Seq<char> {
    match e {
        Error::Generic(_) => "Unspecified error"@,
        Error::Mem => "Memory operation failed"@,
        Error::AbiMismatch => "ABI version mismatch"@,
        Error::Incapable => "Algorithm does not have required capability"@,
        Error::UnsupportedBitstream => "The given bitstream is not supported"@,
        Error::UnsupportedFrame => "Encoded bitstream uses an unsupported feature"@,
        Error::CorruptFrame => "The coded data for this stream is corrupt or incomplete"@,
        Error::InvalidParam => "An application-supplied parameter is not valid"@,
        Error::ListEnd => "An iterator reached the end of list"@,
    }
}

impl Error {
    /// A short human-readable description of the error.
    pub fn description(&self) -> (r: &'static str)
        ensures
            r@ == spec_description(*self),
    {
        match *self {
            Error::Generic(_) => "Unspecified error",
            Error::Mem => "Memory operation failed",
            Error::AbiMismatch => "ABI version mismatch",
            Error::Incapable => "Algorithm does not have required capability",
            Error::UnsupportedBitstream => "The given bitstream is not supported",
            Error::UnsupportedFrame => "Encoded bitstream uses an unsupported feature",
            Error::CorruptFrame => "The coded data for this stream is corrupt or incomplete",
            Error::InvalidParam => "An application-supplied parameter is not valid",
            Error::ListEnd => "An iterator reached the end of list",
        }
    }
}

/// Law: mapping native codes into the taxonomy never merges two codes. Each
/// named code yields its own member, and distinct unnamed codes yield
/// `Generic` members carrying distinct values.
pub proof fn lemma_error_code_mapping_injective(a: u32, b: u32)
    requires
        a != b,
    ensures
        error_of_code(a) != error_of_code(b),
{
}

} // verus!
