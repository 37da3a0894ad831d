//! Aggregate input/output statistics, one record per direction.
//!
//! Each record is mutated only by its owning stage: the reader feeds
//! [`ReadStatistics`], the writer [`WriteStatistics`].  The coordinator reads
//! both for the final report.
//!
//! Each stamping operation comes in two layers: a `..._at` function takes a
//! clock reading as an argument and pins every stamp exactly, and the plain
//! function feeds it the wall clock, of whose value nothing can be said.

use vstd::prelude::*;
use crate::clock::{clock_now_nanos, stamp_or};

verus! {

/// Counters of the reader stage: bytes and operations since `init`, plus
/// wall-clock stamps of the start and of the latest operation.
#[derive(Debug, Clone, Copy, PartialEq)]
pub struct ReadStatistics {
    pub total_bytes_read: u64,
    pub started_at: i64,
    pub last_read_at: i64,
    pub total_reads: u64,
    pub total_errors: u64,
}

impl ReadStatistics {
    /// A zeroed record.
    pub fn new() -> (r: Self)
        ensures
            r.total_bytes_read == 0,
            r.total_reads == 0,
            r.total_errors == 0,
            r.started_at == 0,
            r.last_read_at == 0,
    {
        ReadStatistics {
            total_bytes_read: 0,
            started_at: 0,
            last_read_at: 0,
            total_reads: 0,
            total_errors: 0,
        }
    }

    /// Resets every counter and stamps the start with the given clock
    /// reading (zero when the clock could not be read).
    pub fn init_at(&mut self, reading: Option<i64>)
        ensures
            final(self).total_bytes_read == 0,
            final(self).total_reads == 0,
            final(self).total_errors == 0,
            final(self).started_at == stamp_or(reading, 0),
            final(self).last_read_at == final(self).started_at,
    {
        let now: i64 = match reading {
            Some(n) => n,
            None => 0,
        };
        self.total_bytes_read = 0;
        self.started_at = now;
        self.last_read_at = now;
        self.total_reads = 0;
        self.total_errors = 0;
    }

    /// Resets every counter and stamps the start from the wall clock;
    /// called exactly once, at stage startup.
    pub fn init(&mut self)
        ensures
            final(self).total_bytes_read == 0,
            final(self).total_reads == 0,
            final(self).total_errors == 0,
            final(self).started_at == final(self).last_read_at,
    {
        self.init_at(clock_now_nanos());
    }

    /// Records one successful read of `bytes_read` bytes, stamping the
    /// operation with the given clock reading (an unreadable clock leaves
    /// the stamp in place).
    pub fn add_read_at(&mut self, bytes_read: u64, reading: Option<i64>)
        requires
            old(self).total_reads < u64::MAX,
            old(self).total_bytes_read + bytes_read <= u64::MAX,
        ensures
            final(self).total_reads == old(self).total_reads + 1,
            final(self).total_bytes_read == old(self).total_bytes_read + bytes_read,
            final(self).total_errors == old(self).total_errors,
            final(self).started_at == old(self).started_at,
            final(self).last_read_at == stamp_or(reading, old(self).last_read_at),
    {
        self.total_reads = self.total_reads + 1;
        self.total_bytes_read = self.total_bytes_read + bytes_read;
        match reading {
            Some(n) => self.last_read_at = n,
            None => {},
        }
    }

    /// Records one successful read of `bytes_read` bytes, stamped from the
    /// wall clock.
    pub fn add_read(&mut self, bytes_read: u64)
        requires
            old(self).total_reads < u64::MAX,
            old(self).total_bytes_read + bytes_read <= u64::MAX,
        ensures
            final(self).total_reads == old(self).total_reads + 1,
            final(self).total_bytes_read == old(self).total_bytes_read + bytes_read,
            final(self).total_errors == old(self).total_errors,
            final(self).started_at == old(self).started_at,
    {
        self.add_read_at(bytes_read, clock_now_nanos());
    }

    /// Records one failed read.
    pub fn add_error(&mut self)
        requires
            old(self).total_errors < u64::MAX,
        ensures
            final(self).total_errors == old(self).total_errors + 1,
            final(self).total_reads == old(self).total_reads,
            final(self).total_bytes_read == old(self).total_bytes_read,
            final(self).started_at == old(self).started_at,
            final(self).last_read_at == old(self).last_read_at,
    {
        self.total_errors = self.total_errors + 1;
    }
}

impl Default for ReadStatistics {
    fn default() -> (r: Self)
        ensures
            r.total_bytes_read == 0,
            r.total_reads == 0,
            r.total_errors == 0,
            r.started_at == 0,
            r.last_read_at == 0,
    {
        ReadStatistics::new()
    }
}

/// Counters of the writer stage, the mirror of [`ReadStatistics`].
#[derive(Debug, Clone, Copy, PartialEq)]
pub struct WriteStatistics {
    pub total_bytes_written: u64,
    pub started_at: i64,
    pub last_write_at: i64,
    pub total_writes: u64,
    pub total_errors: u64,
}

impl WriteStatistics {
    /// A zeroed record.
    pub fn new() -> (r: Self)
        ensures
            r.total_bytes_written == 0,
            r.total_writes == 0,
            r.total_errors == 0,
            r.started_at == 0,
            r.last_write_at == 0,
    {
        WriteStatistics {
            total_bytes_written: 0,
            started_at: 0,
            last_write_at: 0,
            total_writes: 0,
            total_errors: 0,
        }
    }

    /// Resets every counter and stamps the start with the given clock
    /// reading (zero when the clock could not be read).
    pub fn init_at(&mut self, reading: Option<i64>)
        ensures
            final(self).total_bytes_written == 0,
            final(self).total_writes == 0,
            final(self).total_errors == 0,
            final(self).started_at == stamp_or(reading, 0),
            final(self).last_write_at == final(self).started_at,
    {
        let now: i64 = match reading {
            Some(n) => n,
            None => 0,
        };
        self.total_bytes_written = 0;
        self.started_at = now;
        self.last_write_at = now;
        self.total_writes = 0;
        self.total_errors = 0;
    }

    /// Resets every counter and stamps the start from the wall clock;
    /// called exactly once, at stage startup.
    pub fn init(&mut self)
        ensures
            final(self).total_bytes_written == 0,
            final(self).total_writes == 0,
            final(self).total_errors == 0,
            final(self).started_at == final(self).last_write_at,
    {
        self.init_at(clock_now_nanos());
    }

    /// Records one completed write of `bytes_written` bytes, stamping the
    /// operation with the given clock reading (an unreadable clock leaves
    /// the stamp in place).
    pub fn add_write_at(&mut self, bytes_written: u64, reading: Option<i64>)
        requires
            old(self).total_writes < u64::MAX,
            old(self).total_bytes_written + bytes_written <= u64::MAX,
        ensures
            final(self).total_writes == old(self).total_writes + 1,
            final(self).total_bytes_written == old(self).total_bytes_written + bytes_written,
            final(self).total_errors == old(self).total_errors,
            final(self).started_at == old(self).started_at,
            final(self).last_write_at == stamp_or(reading, old(self).last_write_at),
    {
        self.total_writes = self.total_writes + 1;
        self.total_bytes_written = self.total_bytes_written + bytes_written;
        match reading {
            Some(n) => self.last_write_at = n,
            None => {},
        }
    }

    /// Records one completed write of `bytes_written` bytes, stamped from
    /// the wall clock.
    pub fn add_write(&mut self, bytes_written: u64)
        requires
            old(self).total_writes < u64::MAX,
            old(self).total_bytes_written + bytes_written <= u64::MAX,
        ensures
            final(self).total_writes == old(self).total_writes + 1,
            final(self).total_bytes_written == old(self).total_bytes_written + bytes_written,
            final(self).total_errors == old(self).total_errors,
            final(self).started_at == old(self).started_at,
    {
        self.add_write_at(bytes_written, clock_now_nanos());
    }

    /// Records one failed write.
    pub fn add_error(&mut self)
        requires
            old(self).total_errors < u64::MAX,
        ensures
            final(self).total_errors == old(self).total_errors + 1,
            final(self).total_writes == old(self).total_writes,
            final(self).total_bytes_written == old(self).total_bytes_written,
            final(self).started_at == old(self).started_at,
            final(self).last_write_at == old(self).last_write_at,
    {
        self.total_errors = self.total_errors + 1;
    }
}

impl Default for WriteStatistics {
    fn default() -> (r: Self)
        ensures
            r.total_bytes_written == 0,
            r.total_writes == 0,
            r.total_errors == 0,
            r.started_at == 0,
            r.last_write_at == 0,
    {
        WriteStatistics::new()
    }
}

} // verus!
