//! Error kinds reported by the byte readers, bit readers and codebooks that
//! bitstream parsing is built on. Decoders fold them into their own error
//! taxonomy.
use vstd::prelude::*;

verus! {

/// Errors that byte-level input and output can report.
#[derive(Debug, Clone, Copy, PartialEq, Eq, Structural)]
pub enum ByteIOError {
    /// The end of the byte source was reached.
    EOF,
    /// The operation does not fit the mode the source was opened in.
    WrongMode,
    /// The operation is not implemented for this source.
    NotImplemented,
    /// Reading failed.
    ReadError,
    /// Writing failed.
    WriteError,
    /// Seeking failed.
    SeekError,
    /// No data is available yet.
    NoData,
}

/// Errors that bit-level reading can report.
#[derive(Debug, Clone, Copy, PartialEq, Eq, Structural)]
pub enum BitReaderError {
    /// The reader reached the end of the bitstream.
    BitstreamEnd,
    /// More bits were requested than a single read can return.
    TooManyBitsRequested,
    /// The reader was constructed with invalid parameters.
    InvalidValue,
}

/// Errors that codebook construction and lookup can report.
#[derive(Debug, Clone, Copy, PartialEq, Eq, Structural)]
pub enum CodebookError {
    /// The codebook description is invalid.
    InvalidCodebook,
    /// Allocation failed.
    MemoryError,
    /// The bitstream holds a code outside the codebook.
    InvalidCode,
}

} // verus!
