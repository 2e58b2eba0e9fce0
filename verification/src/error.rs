//! Errors.

use vstd::prelude::*;
use vstd::utf8::{decode_utf8, valid_utf8};

verus! {

/// The universal error type.
#[derive(Debug)]
pub enum Error {
    /// A miscellaneous error occurred.
    Failed,
    /// Compilation of the shader failed.
    ///
    /// The string represents the error message that the driver reported.
    CompileFailed(String),
    /// Shader linking failed.
    ///
    /// The string represents the error message that the driver reported.
    LinkFailed(String),
}

/// An `Error` with its message as a sequence of characters.
pub enum ErrorView {
    Failed,
    CompileFailed(Seq<char>),
    LinkFailed(Seq<char>),
}

impl View for Error {
    type V = ErrorView;

    open spec fn view(&self) -> ErrorView {
        match self {
            Error::Failed => ErrorView::Failed,
            Error::CompileFailed(message) => ErrorView::CompileFailed(message@),
            Error::LinkFailed(message) => ErrorView::LinkFailed(message@),
        }
    }
}

/// The position of the first terminator, a zero byte, of `log` from `from`
/// on, and the length of `log` where it holds none.
pub open spec fn terminator(log: Seq<u8>, from: int) -> int
    decreases log.len() - from,
{
    if from < 0 || from >= log.len() || log[from] == 0 {
        from
    } else {
        terminator(log, from + 1)
    }
}

/// The bytes of `log` before its first terminator: what the driver wrote as
/// text, without the terminator and the unused rest of the buffer.
pub open spec fn before_terminator(log: Seq<u8>) -> Seq<u8> {
    log.subrange(0, terminator(log, 0))
}

/// The message that a driver's log holds: the text that its bytes before the
/// first terminator encode, and the empty text where they are no valid UTF-8.
pub open spec fn log_text(log: Seq<u8>) -> Seq<char> {
    if valid_utf8(before_terminator(log)) {
        decode_utf8(before_terminator(log))
    } else {
        Seq::empty()
    }
}

/// The terminator is found inside the log or at its end, and no byte before
/// it is a terminator.
pub proof fn lemma_terminator(log: Seq<u8>, from: int)
    requires
        0 <= from <= log.len(),
    ensures
        from <= terminator(log, from) <= log.len(),
        terminator(log, from) < log.len() ==> log[terminator(log, from)] == 0,
        forall|i: int| from <= i < terminator(log, from) ==> log[i] != 0,
    decreases log.len() - from,
{
    if from < log.len() && log[from] != 0 {
        lemma_terminator(log, from + 1);
    }
}

/// The text of a log ends before its terminator: the bytes of the message
/// are the longest start of the log that holds no zero byte.
pub proof fn text_ends_before_terminator(log: Seq<u8>)
    ensures
        before_terminator(log).len() <= log.len(),
        forall|i: int| 0 <= i < before_terminator(log).len() ==> before_terminator(log)[i] == log[i] && log[i] != 0,
        before_terminator(log).len() < log.len() ==> log[before_terminator(log).len() as int] == 0,
{
    lemma_terminator(log, 0);
}

/// `String::from_utf8` of the standard library: the string whose UTF-8
/// encoding is `bytes`, and nothing where `bytes` are no valid UTF-8. This
/// contract is believed, not proved.
#[verifier::external_body]
fn string_from_utf8(bytes: Vec<u8>) -> (text: Option<String>)
    ensures
        text is Some <==> valid_utf8(bytes@),
        text matches Some(s) ==> s@ == decode_utf8(bytes@),
{
    String::from_utf8(bytes).ok()
}

/// Returns the bytes of `log` before its first terminator.
pub fn text_of(log: &[u8]) -> (text: &[u8])
    ensures
        text@ == before_terminator(log@),
{
    let mut end: usize = 0;
    while end < log.len() && log[end] != 0
        invariant
            end <= log@.len(),
            terminator(log@, end as int) == terminator(log@, 0),
        decreases log@.len() - end,
    {
        end += 1;
    }
    vstd::slice::slice_subrange(log, 0, end)
}

/// Turns the log that a driver wrote into the message of an error.
pub fn message_from_log(log: Vec<u8>) -> (message: String)
    ensures
        message@ == log_text(log@),
{
    let text = vstd::slice::slice_to_vec(text_of(log.as_slice()));
    match string_from_utf8(text) {
        Some(text) => text,
        None => String::new(),
    }
}

} // verus!
