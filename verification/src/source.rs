//! The reader stage: validates and models the readable input, and streams
//! its contents block by block.
//!
//! The byte-readable capability has two concrete shapes: a filesystem path
//! (opened outside the library, which then receives its identity and size
//! here) and the in-memory [`MemSource`], which the verified pipeline run
//! consumes directly and which can simulate a mid-stream read failure.

use vstd::prelude::*;
use crate::block::Block;
use crate::config::SourceConfig;
use crate::errors::IoError;

verus! {

/// How many bytes the next read moves: all that is left, capped at `max`.
pub open spec fn chunk_size(len: int, pos: int, max: int) -> int {
    if len - pos < max {
        len - pos
    } else {
        max
    }
}

/// An in-memory byte source: the concrete readable capability the verified
/// pipeline consumes.  `fail_at == Some(k)` simulates an input whose `k`-th
/// read call (counting from zero) reports an error.
pub struct MemSource {
    pub data: Vec<u8>,
    pub pos: usize,
    pub reads_done: u64,
    pub fail_at: Option<u64>,
}

impl MemSource {
    /// The cursor never passes the end of the data.
    pub open spec fn wf(&self) -> bool {
        self.pos <= self.data@.len()
    }

    /// Whether the very next read call reports the simulated failure.
    pub open spec fn next_read_fails(&self) -> bool {
        self.fail_at matches Some(k) && self.reads_done == k
    }

    /// A source that reads `data` without failures.
    pub fn new(data: Vec<u8>) -> (r: Self)
        ensures
            r.data@ == data@,
            r.pos == 0,
            r.reads_done == 0,
            r.fail_at is None,
            r.wf(),
    {
        MemSource { data, pos: 0, reads_done: 0, fail_at: None }
    }

    /// A source whose read call number `fail_after` (counting from zero)
    /// reports an error; the calls before it succeed.
    pub fn with_failure(data: Vec<u8>, fail_after: u64) -> (r: Self)
        ensures
            r.data@ == data@,
            r.pos == 0,
            r.reads_done == 0,
            r.fail_at == Some(fail_after),
            r.wf(),
    {
        MemSource { data, pos: 0, reads_done: 0, fail_at: Some(fail_after) }
    }

    /// One read call: hands out the next `chunk_size` bytes as a block (the
    /// empty block at end of stream), or the simulated error, which leaves
    /// the source untouched.
    pub fn read_block(&mut self, max: usize) -> (r: Result<Block, IoError>)
        requires
            old(self).wf(),
            max >= 1,
            old(self).reads_done < u64::MAX,
        ensures
            final(self).wf(),
            final(self).data@ == old(self).data@,
            final(self).fail_at == old(self).fail_at,
            old(self).next_read_fails() ==> {
                &&& r matches Err(e) && e is InputFileOpenError
                &&& final(self).pos == old(self).pos
                &&& final(self).reads_done == old(self).reads_done
            },
            !old(self).next_read_fails() ==> {
                let n = chunk_size(old(self).data@.len() as int, old(self).pos as int, max as int);
                &&& r matches Ok(b) && b@ == old(self).data@.subrange(
                    old(self).pos as int,
                    old(self).pos + n,
                )
                &&& final(self).pos == old(self).pos + n
                &&& final(self).reads_done == old(self).reads_done + 1
            },
    {
        let fails = match self.fail_at {
            Some(k) => self.reads_done == k,
            None => false,
        };
        if fails {
            Err(IoError::InputFileOpenError("simulated read failure".to_owned()))
        } else {
            let remaining = self.data.len() - self.pos;
            let n = if remaining < max {
                remaining
            } else {
                max
            };
            let end = self.pos + n;
            let b = Block::from_slice(vstd::slice::slice_subrange(
                self.data.as_slice(),
                self.pos,
                end,
            ));
            self.pos = end;
            self.reads_done = self.reads_done + 1;
            Ok(b)
        }
    }
}

/// The reader stage's own record, built once the input is open: block size
/// from the configuration, identity and size from the input's metadata.
/// The size is advisory (`estimated_size` feeds reporting only); the bytes
/// actually moved are whatever the reads return.
#[derive(Debug, Clone, Copy)]
pub struct ReaderState {
    pub read_size: usize,
    pub inode: u64,
    pub file_size: usize,
    pub position: usize,
    pub estimated_size: usize,
}

impl ReaderState {
    /// Captures the opened input's identity and size for the stage.
    pub fn new(config: &SourceConfig, inode: u64, file_size: usize) -> (r: Self)
        ensures
            r.read_size == config.block_size,
            r.inode == inode,
            r.file_size == file_size,
            r.position == 0,
            r.estimated_size == file_size,
    {
        ReaderState {
            read_size: config.block_size,
            inode,
            file_size,
            position: 0,
            estimated_size: file_size,
        }
    }
}

/// The readable-access rule of the reader stage, applied to what the
/// filesystem reported: no metadata at all is an open error; an input whose
/// read access is denied is refused; a readable input passes, whether or
/// not it is also writable.
pub fn source_access_decision(read_access: Option<bool>, error_text: String) -> (r: Result<
    (),
    IoError,
>)
    ensures
        read_access is None ==> (r matches Err(e)
            && e matches IoError::InputFileOpenError(m) && m@ == error_text@),
        read_access == Some(false) ==> (r matches Err(e)
            && e matches IoError::InputFileNoReadPermission(m) && m@
            == "Input file does not permit read access"@),
        read_access == Some(true) ==> r is Ok,
{
    match read_access {
        None => Err(IoError::InputFileOpenError(error_text)),
        Some(false) => Err(
            IoError::InputFileNoReadPermission(
                "Input file does not permit read access".to_owned(),
            ),
        ),
        Some(true) => Ok(()),
    }
}

} // verus!
