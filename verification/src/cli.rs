//! Command-line request model: the parsed arguments, their validation, and
//! the error taxonomy with its process exit codes.
//!
//! Parsing the command line and touching the filesystem are I/O and live in
//! the binary around this crate; it hands the parsed values over in
//! [`Args`] and reports failures with [`CliError`].

use vstd::prelude::*;

verus! {

/// Parsed command-line arguments of the imaging tool.
#[derive(Debug, Clone)]
pub struct Args {
    /// HEALPix nside parameter (must be a power of 2).
    pub nside: u32,
    /// Show source positions on the output image.
    pub show_sources: bool,
    /// Input JSON data file.
    pub file: String,
    /// Show statistics overlay.
    pub show_stats: bool,
    /// Show colorbar.
    pub show_colorbar: bool,
    /// Output SVG file name (auto-generated if not specified).
    pub output: Option<String>,
}

/// A failed command-line request, with a process exit code for each kind.
#[derive(Debug, Clone, PartialEq, Eq)]
pub enum CliError {
    /// The resolution parameter is invalid (zero).
    InvalidNside(u32),
    /// The input file does not exist.
    FileNotFound(String),
    /// The input file could not be read.
    FileRead(String),
    /// The input JSON could not be parsed.
    InvalidJson(String),
    /// Reconstruction or rendering failed.
    Processing(String),
    /// The output file could not be written.
    OutputWrite(String),
}

impl CliError {
    /// The process exit code for this error: 2 for a request the user can
    /// correct (bad resolution, missing file), 1 otherwise.
    pub fn exit_code(&self) -> (r: i32)
        ensures
            r == 2 <==> (*self is InvalidNside || *self is FileNotFound),
            r == 1 <==> !(*self is InvalidNside || *self is FileNotFound),
    {
        match self {
            CliError::InvalidNside(_) => 2,
            CliError::FileNotFound(_) => 2,
            CliError::FileRead(_) => 1,
            CliError::InvalidJson(_) => 1,
            CliError::Processing(_) => 1,
            CliError::OutputWrite(_) => 1,
        }
    }
}

impl Args {
    /// Validates the resolution parameter: zero is rejected, anything else
    /// is accepted.  Whether the input file exists is checked by the caller
    /// that owns the filesystem.
    pub fn validate(&self) -> (r: Result<(), CliError>)
        ensures
            self.nside == 0 <==> r == Err::<(), CliError>(CliError::InvalidNside(self.nside)),
            self.nside != 0 <==> r == Ok::<(), CliError>(()),
    {
        if self.nside == 0 {
            return Err(CliError::InvalidNside(self.nside));
        }

        Ok(())
    }
}

/// A processing configuration carries over the matching argument fields.
impl From<&Args> for crate::ProcessingConfig {
    fn from(args: &Args) -> Self {
        Self {
            nside: args.nside,
            show_sources: args.show_sources,
            show_stats: args.show_stats,
            show_colorbar: args.show_colorbar,
        }
    }
}

impl vstd::std_specs::convert::FromSpecImpl<&Args> for crate::ProcessingConfig {
    open spec fn obeys_from_spec() -> bool {
        true
    }

    open spec fn from_spec(args: &Args) -> Self {
        crate::ProcessingConfig {
            nside: args.nside,
            show_sources: args.show_sources,
            show_stats: args.show_stats,
            show_colorbar: args.show_colorbar,
        }
    }
}

} // verus!
