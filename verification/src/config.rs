//! Configuration consumed by the pipeline.
//!
//! [`Args`] mirrors the command-line surface: input and output locations, a
//! block size, and the `count`/`skip`/`seek` knobs, which are accepted but
//! inert in the current pipeline.  The two stage configurations are derived
//! from it once, before the pipeline starts.

use vstd::prelude::*;

verus! {

/// The external argument surface.  `input_file == None` selects the standard
/// input stream, `output_file == None` the standard output stream.
#[derive(Debug, Clone)]
pub struct Args {
    pub input_file: Option<String>,
    pub output_file: Option<String>,
    /// Block size in bytes: how many bytes move per read or write call.
    pub bs: usize,
    /// Optional cap on the number of blocks to copy (accepted, inert).
    pub count: Option<usize>,
    /// Blocks to discard from the start of the input (accepted, inert).
    pub skip: usize,
    /// Blocks to discard from the start of the output (accepted, inert).
    pub seek: usize,
}

/// Immutable configuration of the reader stage.
#[derive(Debug, Clone)]
pub struct SourceConfig {
    pub input_file: String,
    pub buffer_size: usize,
    pub block_size: usize,
}

impl SourceConfig {
    /// A fresh configuration with the default block size of 512 bytes.
    pub fn new() -> (r: Self)
        ensures
            r.input_file@.len() == 0,
            r.buffer_size == 512,
            r.block_size == 512,
    {
        SourceConfig { input_file: String::new(), buffer_size: 512, block_size: 512 }
    }

    /// Derives the reader configuration from the argument surface; a missing
    /// input location becomes the empty string (the standard input stream).
    pub fn from_args(args: &Args) -> (r: Self)
        ensures
            args.input_file matches Some(f) ==> r.input_file@ == f@,
            args.input_file is None ==> r.input_file@.len() == 0,
            r.buffer_size == args.bs,
            r.block_size == args.bs,
    {
        let input_file = match &args.input_file {
            Some(f) => f.clone(),
            None => String::new(),
        };
        SourceConfig { input_file, buffer_size: args.bs, block_size: args.bs }
    }
}

impl Default for SourceConfig {
    fn default() -> (r: Self)
        ensures
            r.input_file@.len() == 0,
            r.buffer_size == 512,
            r.block_size == 512,
    {
        SourceConfig::new()
    }
}

/// Immutable configuration of the writer stage.  The four `enable_*` flags
/// are a checksum extension point; no current stage feeds them.
#[derive(Debug, Clone)]
pub struct SinkConfig {
    pub output_file: String,
    pub block_size: usize,
    pub enable_hash: bool,
    pub enable_crc32: bool,
    pub enable_sha3: bool,
    pub enable_blake2b: bool,
}

impl SinkConfig {
    /// A fresh configuration with the default block size of 512 bytes and
    /// every checksum flag off.
    pub fn new() -> (r: Self)
        ensures
            r.output_file@.len() == 0,
            r.block_size == 512,
            !r.enable_hash && !r.enable_crc32 && !r.enable_sha3 && !r.enable_blake2b,
    {
        SinkConfig {
            output_file: String::new(),
            block_size: 512,
            enable_hash: false,
            enable_crc32: false,
            enable_sha3: false,
            enable_blake2b: false,
        }
    }

    /// Derives the writer configuration from the argument surface; a missing
    /// output location becomes the empty string (the standard output stream).
    pub fn from_args(args: &Args) -> (r: Self)
        ensures
            args.output_file matches Some(f) ==> r.output_file@ == f@,
            args.output_file is None ==> r.output_file@.len() == 0,
            r.block_size == args.bs,
            !r.enable_hash && !r.enable_crc32 && !r.enable_sha3 && !r.enable_blake2b,
    {
        let output_file = match &args.output_file {
            Some(f) => f.clone(),
            None => String::new(),
        };
        SinkConfig {
            output_file,
            block_size: args.bs,
            enable_hash: false,
            enable_crc32: false,
            enable_sha3: false,
            enable_blake2b: false,
        }
    }
}

impl Default for SinkConfig {
    fn default() -> (r: Self)
        ensures
            r.output_file@.len() == 0,
            r.block_size == 512,
            !r.enable_hash && !r.enable_crc32 && !r.enable_sha3 && !r.enable_blake2b,
    {
        SinkConfig::new()
    }
}

} // verus!
