//! Failures of the codecs and of a connection.

use vstd::prelude::*;

verus! {

/// Why a message could not be turned back into a record.
#[derive(Clone, Copy, Debug, PartialEq, Eq, Structural)]
pub enum CodecError {
    /// The binary buffer is truncated, badly framed, or a field runs past its end.
    CorruptMessage,
    /// The binary buffer declares a layout other than the schema's.
    SchemaMismatch,
    /// The text is not well-formed.
    MalformedText,
    /// A text field holds a value of the wrong type.
    TypeMismatch,
    /// The image text is not the base64 form of any byte string.
    EncodingMismatch,
    /// Reading from the peer failed.
    IoFailure,
}

/// How reading a text message failed, as the text parser classifies it.
#[derive(Clone, Copy, Debug, PartialEq, Eq, Structural)]
pub enum TextFault {
    /// The text is not well-formed, or not UTF-8.
    Syntax,
    /// The text ended in the middle of a value.
    Eof,
    /// The text is well-formed but a field holds a value of the wrong type.
    Data,
    /// Reading the text failed.
    Io,
}

/// The codec error for a failure of the text parser.
pub fn text_fault_error(f: TextFault) -> (e: CodecError)
    ensures
        e == match f {
            TextFault::Syntax | TextFault::Eof => CodecError::MalformedText,
            TextFault::Data => CodecError::TypeMismatch,
            TextFault::Io => CodecError::IoFailure,
        },
{
    match f {
        TextFault::Syntax | TextFault::Eof => CodecError::MalformedText,
        TextFault::Data => CodecError::TypeMismatch,
        TextFault::Io => CodecError::IoFailure,
    }
}

} // verus!
