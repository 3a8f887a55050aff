use vstd::prelude::*;

verus! {

/// The failure taxonomy of the decoding pipeline. Every failure is terminal
/// for the current attempt: the resolver never retries with another encoding.
#[derive(Debug, Clone)]
pub enum DecodeError {
    /// The byte buffer was empty where content was required.
    EmptyInput,
    /// The encoding label resolves to no entry of the codepage table.
    UnsupportedEncoding { label: String },
    /// The transcoding primitive reported failure for these bytes.
    TranscodeFailed { encoding: String, codepage: u32 },
    /// The wide-character buffer handed back by the transcoder cannot be
    /// assembled into valid Unicode.
    InvalidWideSequence,
    /// The UTF-16 code-unit sequence holds an unpaired surrogate.
    InvalidUtf16Sequence,
    /// A read of the input source failed; raised by callers that own the
    /// I/O edge and propagated through the same channel by convention.
    IoFailure,
}

} // verus!
