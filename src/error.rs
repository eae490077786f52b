use vstd::prelude::*;

verus! {

/// Why a task could not be built.
#[derive(Debug, Clone, PartialEq, Eq)]
pub enum ConstructionError {
    /// The configuration names an option that the task does not recognise.
    UnknownOption { name: String },
}

/// Why one tick of a task's work failed.
#[derive(Debug, Clone, Copy, PartialEq, Eq, Structural)]
pub enum ProcessError {
    /// The input envelope held a payload that the task cannot work on.
    BadInput,
}

/// What went wrong while decoding bytes.
#[derive(Debug, Clone, Copy, PartialEq, Eq, Structural)]
pub enum DecodeErrorKind {
    /// The bytes end before the field that starts at the offset.
    UnexpectedEnd,
    /// A buffer's length prefix is not the buffer's fixed size.
    WrongLength { found: u32 },
    /// A flag byte is neither 0 nor 1.
    InvalidBool { byte: u8 },
}

/// A decoding failure, with the byte offset of the field that could not be read.
#[derive(Debug, Clone, Copy, PartialEq, Eq, Structural)]
pub struct DecodeError {
    pub offset: usize,
    pub kind: DecodeErrorKind,
}

} // verus!
