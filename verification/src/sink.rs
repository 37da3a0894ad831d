//! The writer stage: validates and models the writable output, and appends
//! each received payload in arrival order.
//!
//! Writes are single-writer and sequential: the position only ever advances,
//! by exactly the payload length of each block written, so the output is at
//! every moment a prefix of what was sent.

use vstd::prelude::*;
use crate::config::SinkConfig;
use crate::errors::IoError;

verus! {

/// The writer stage's own record, built once the output is open and
/// truncated: block size from the configuration, identity and size from the
/// output's metadata.
#[derive(Debug, Clone, Copy)]
pub struct WriterState {
    pub write_size: usize,
    pub inode: u64,
    pub file_size: usize,
    pub position: usize,
    pub estimated_size: usize,
}

impl WriterState {
    /// Captures the opened output's identity and size for the stage.
    pub fn new(config: &SinkConfig, inode: u64, file_size: usize) -> (r: Self)
        ensures
            r.write_size == config.block_size,
            r.inode == inode,
            r.file_size == file_size,
            r.position == 0,
            r.estimated_size == file_size,
    {
        WriterState {
            write_size: config.block_size,
            inode,
            file_size,
            position: 0,
            estimated_size: file_size,
        }
    }

    /// Accounts one completed write of `n` bytes: the position advances by
    /// exactly `n`, never backwards.
    pub fn record_write(&mut self, n: usize)
        requires
            old(self).position + n <= usize::MAX,
        ensures
            final(self).position == old(self).position + n,
            final(self).write_size == old(self).write_size,
            final(self).inode == old(self).inode,
            final(self).file_size == old(self).file_size,
            final(self).estimated_size == old(self).estimated_size,
    {
        self.position = self.position + n;
    }
}

/// The writable-access rule of the writer stage, applied to what the
/// filesystem reported after the output was created if absent: no metadata
/// at all is an open error, a read-only output cannot be written and is
/// refused, anything else passes.
pub fn sink_access_decision(metadata_readonly: Option<bool>, error_text: String) -> (r: Result<
    (),
    IoError,
>)
    ensures
        metadata_readonly is None ==> (r matches Err(e)
            && e matches IoError::InputFileOpenError(m) && m@ == error_text@),
        metadata_readonly == Some(true) ==> (r matches Err(e)
            && e matches IoError::InputFileNoReadPermission(m) && m@
            == "Output file is not writable"@),
        metadata_readonly == Some(false) ==> r is Ok,
{
    match metadata_readonly {
        None => Err(IoError::InputFileOpenError(error_text)),
        Some(true) => Err(
            IoError::InputFileNoReadPermission("Output file is not writable".to_owned()),
        ),
        Some(false) => Ok(()),
    }
}

} // verus!
