//! Error taxonomy of the copy pipeline.
//!
//! Setup failures (missing input, bad permissions, metadata trouble) are
//! reported before any stage starts; channel trouble is reported while the
//! stages run.

use vstd::prelude::*;

verus! {

/// An input/output failure, raised while preparing or running a stage.
/// Each variant carries a human-readable detail string.
#[derive(Debug, PartialEq, Eq, Hash, Clone)]
pub enum IoError {
    InputFileDoesNotExist(String),
    InputFileNoReadPermission(String),
    InputFileOpenError(String),
    FileMetadataAcquireError(String),
    ChannelEror(String),
}

/// A pipeline-level failure: either an [`IoError`] or anything else.
#[derive(Debug, PartialEq, Eq, Hash, Clone)]
pub enum DdError {
    IoError(IoError),
    OtherError(String),
}

impl From<IoError> for DdError {
    fn from(e: IoError) -> (r: Self) {
        DdError::IoError(e)
    }
}

impl vstd::std_specs::convert::FromSpecImpl<IoError> for DdError {
    open spec fn obeys_from_spec() -> bool {
        true
    }

    open spec fn from_spec(e: IoError) -> Self {
        DdError::IoError(e)
    }
}

} // verus!
