//! The ways a request can fail, and the status each is answered with.

use vstd::prelude::*;

verus! {

/// The status of a response to a malformed key.
pub const STATUS_NOT_FOUND: u16 = 404;

/// The status of a response to a source that cannot be decoded or encoded.
pub const STATUS_INTERNAL_SERVER_ERROR: u16 = 500;

/// Why a request produced no image. Every kind is final: nothing is retried.
#[derive(Debug, PartialEq, Eq)]
pub enum ApiError {
    /// The content key is malformed; it is carried along.
    InvalidKey(String),
    /// The source could not be read or parsed; the decoder's words are carried along.
    DecodeError(String),
    /// The encoder rejected the raster; its words are carried along.
    EncodeError(String),
    /// The container holds no video stream.
    NoVideoStream,
    /// No keyframe of the video was retained.
    NoSuitableFrame,
}

impl ApiError {
    /// The status that answers each kind of failure.
    pub open spec fn spec_status_code(self) -> u16 {
        match self {
            ApiError::InvalidKey(_) => STATUS_NOT_FOUND,
            ApiError::DecodeError(_) => STATUS_INTERNAL_SERVER_ERROR,
            ApiError::EncodeError(_) => STATUS_INTERNAL_SERVER_ERROR,
            ApiError::NoVideoStream => STATUS_INTERNAL_SERVER_ERROR,
            ApiError::NoSuitableFrame => STATUS_INTERNAL_SERVER_ERROR,
        }
    }

    /// The status that answers this failure.
    pub fn status_code(&self) -> (code: u16)
        ensures
            code == self.spec_status_code(),
    {
        match self {
            ApiError::InvalidKey(_) => STATUS_NOT_FOUND,
            ApiError::DecodeError(_) => STATUS_INTERNAL_SERVER_ERROR,
            ApiError::EncodeError(_) => STATUS_INTERNAL_SERVER_ERROR,
            ApiError::NoVideoStream => STATUS_INTERNAL_SERVER_ERROR,
            ApiError::NoSuitableFrame => STATUS_INTERNAL_SERVER_ERROR,
        }
    }
}

} // verus!
