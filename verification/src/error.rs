//! The failures of the service, their classes and their diagnostics.

use crate::text::{concat_str, push_char};
use vstd::prelude::*;

verus! {

/// Who has to act on a failure.
#[derive(Debug, Clone, Copy, PartialEq, Eq, Structural)]
pub enum ErrorClass {
    /// The request was at fault: sending it again gives the same failure.
    ClientInput,
    /// The server or the engine was at fault.
    Server,
}

/// A failure of decoding or rendering.
#[derive(Debug, Clone, PartialEq, Eq)]
pub enum DiagramError {
    /// The encoded diagram holds this character, which is outside PlantUML's
    /// alphabet.
    InvalidEncoding(char),
    /// The encoded diagram is not base64; the decoder's words are kept.
    Base64DecodeFailed(String),
    /// The decoded bytes are not a zlib stream of UTF-8 text; the cause is
    /// kept.
    DecompressionFailed(String),
    /// The request body is not UTF-8; the cause is kept.
    InvalidUtf8(String),
    /// The diagram source is empty or whitespace only.
    EmptyInput,
    /// The engine could not be launched.
    EngineUnavailable,
    /// The diagram source could not be written to the engine.
    InputFailed,
    /// The engine's exit could not be awaited.
    WaitFailed,
    /// The engine exited with a failure; its diagnostics are kept.
    RenderFailed(String),
    /// The engine exited cleanly and wrote nothing, as it does for a diagram
    /// with a syntax error; its diagnostics are kept.
    EmptyOutput(String),
    /// The engine ran out of time and was stopped.
    Timeout,
    /// The engine's validation report is not UTF-8.
    InvalidValidationOutput,
}

/// What a [`DiagramError`] says, with text as sequences of characters.
pub enum Fault {
    InvalidEncoding(char),
    Base64DecodeFailed(Seq<char>),
    DecompressionFailed(Seq<char>),
    InvalidUtf8(Seq<char>),
    EmptyInput,
    EngineUnavailable,
    InputFailed,
    WaitFailed,
    RenderFailed(Seq<char>),
    EmptyOutput(Seq<char>),
    Timeout,
    InvalidValidationOutput,
}

impl Fault {
    /// The class of the failure. What can be told from the request alone is
    /// the client's fault, and so is what the engine makes of the diagram: a
    /// failing exit, for which the diagram is presumed to be at fault, and an
    /// empty output, which is its way of reporting a syntax error. An engine
    /// that cannot be run, that cannot be talked to or that does not finish
    /// is the server's fault, and so is a report that is no text.
    pub open spec fn class(self) -> ErrorClass {
        match self {
            Fault::InvalidEncoding(_) => ErrorClass::ClientInput,
            Fault::Base64DecodeFailed(_) => ErrorClass::ClientInput,
            Fault::DecompressionFailed(_) => ErrorClass::ClientInput,
            Fault::InvalidUtf8(_) => ErrorClass::ClientInput,
            Fault::EmptyInput => ErrorClass::ClientInput,
            Fault::RenderFailed(_) => ErrorClass::ClientInput,
            Fault::EmptyOutput(_) => ErrorClass::ClientInput,
            Fault::EngineUnavailable => ErrorClass::Server,
            Fault::InputFailed => ErrorClass::Server,
            Fault::WaitFailed => ErrorClass::Server,
            Fault::Timeout => ErrorClass::Server,
            Fault::InvalidValidationOutput => ErrorClass::Server,
        }
    }

    /// The HTTP status that goes with the failure's class.
    pub open spec fn status(self) -> u16 {
        match self.class() {
            ErrorClass::ClientInput => 400,
            ErrorClass::Server => 500,
        }
    }

    /// The diagnostic in words.
    pub open spec fn message(self) -> Seq<char> {
        match self {
            Fault::InvalidEncoding(c) => "Invalid character in encoding: "@.push(c),
            Fault::Base64DecodeFailed(cause) => "Base64 decode failed: "@ + cause,
            Fault::DecompressionFailed(cause) => "Decompression failed: "@ + cause,
            Fault::InvalidUtf8(cause) => "Invalid UTF-8 in request body: "@ + cause,
            Fault::EmptyInput => "Empty PlantUML source"@,
            Fault::EngineUnavailable => "Failed to spawn PlantUML process"@,
            Fault::InputFailed => "Failed to write to PlantUML stdin"@,
            Fault::WaitFailed => "Failed to wait for PlantUML process"@,
            Fault::RenderFailed(stderr) => "PlantUML process failed: "@ + stderr,
            Fault::EmptyOutput(stderr) => "PlantUML generated empty output. Stderr: "@ + stderr,
            Fault::Timeout => "PlantUML process timed out"@,
            Fault::InvalidValidationOutput => "Failed to decode PlantUML text output"@,
        }
    }
}

impl View for DiagramError {
    type V = Fault;

    open spec fn view(&self) -> Fault {
        match self {
            DiagramError::InvalidEncoding(c) => Fault::InvalidEncoding(*c),
            DiagramError::Base64DecodeFailed(cause) => Fault::Base64DecodeFailed(cause@),
            DiagramError::DecompressionFailed(cause) => Fault::DecompressionFailed(cause@),
            DiagramError::InvalidUtf8(cause) => Fault::InvalidUtf8(cause@),
            DiagramError::EmptyInput => Fault::EmptyInput,
            DiagramError::EngineUnavailable => Fault::EngineUnavailable,
            DiagramError::InputFailed => Fault::InputFailed,
            DiagramError::WaitFailed => Fault::WaitFailed,
            DiagramError::RenderFailed(stderr) => Fault::RenderFailed(stderr@),
            DiagramError::EmptyOutput(stderr) => Fault::EmptyOutput(stderr@),
            DiagramError::Timeout => Fault::Timeout,
            DiagramError::InvalidValidationOutput => Fault::InvalidValidationOutput,
        }
    }
}

impl DiagramError {
    /// Who has to act on this failure.
    pub fn class(&self) -> (class: ErrorClass)
        ensures
            class == self@.class(),
    {
        match self {
            DiagramError::InvalidEncoding(_)
            | DiagramError::Base64DecodeFailed(_)
            | DiagramError::DecompressionFailed(_)
            | DiagramError::InvalidUtf8(_)
            | DiagramError::EmptyInput
            | DiagramError::RenderFailed(_)
            | DiagramError::EmptyOutput(_) => ErrorClass::ClientInput,
            DiagramError::EngineUnavailable
            | DiagramError::InputFailed
            | DiagramError::WaitFailed
            | DiagramError::Timeout
            | DiagramError::InvalidValidationOutput => ErrorClass::Server,
        }
    }

    /// The HTTP status to answer with: 400 for the client's faults, 500 for
    /// the server's.
    pub fn status_code(&self) -> (status: u16)
        ensures
            status == self@.status(),
    {
        match self.class() {
            ErrorClass::ClientInput => 400,
            ErrorClass::Server => 500,
        }
    }

    /// The diagnostic in words. What the decoder or the engine reported is
    /// part of it, unchanged.
    pub fn message(&self) -> (message: String)
        ensures
            message@ == self@.message(),
    {
        match self {
            DiagramError::InvalidEncoding(c) => {
                let mut message = "Invalid character in encoding: ".to_owned();
                push_char(&mut message, *c);
                message
            },
            DiagramError::Base64DecodeFailed(cause) => concat_str(
                "Base64 decode failed: ",
                cause.as_str(),
            ),
            DiagramError::DecompressionFailed(cause) => concat_str(
                "Decompression failed: ",
                cause.as_str(),
            ),
            DiagramError::InvalidUtf8(cause) => concat_str(
                "Invalid UTF-8 in request body: ",
                cause.as_str(),
            ),
            DiagramError::EmptyInput => "Empty PlantUML source".to_owned(),
            DiagramError::EngineUnavailable => "Failed to spawn PlantUML process".to_owned(),
            DiagramError::InputFailed => "Failed to write to PlantUML stdin".to_owned(),
            DiagramError::WaitFailed => "Failed to wait for PlantUML process".to_owned(),
            DiagramError::RenderFailed(stderr) => concat_str(
                "PlantUML process failed: ",
                stderr.as_str(),
            ),
            DiagramError::EmptyOutput(stderr) => concat_str(
                "PlantUML generated empty output. Stderr: ",
                stderr.as_str(),
            ),
            DiagramError::Timeout => "PlantUML process timed out".to_owned(),
            DiagramError::InvalidValidationOutput => "Failed to decode PlantUML text output"
                .to_owned(),
        }
    }
}

/// The content of a result that holds text.
pub open spec fn text_result(r: Result<String, DiagramError>) -> Result<Seq<char>, Fault> {
    match r {
        Ok(text) => Ok(text@),
        Err(e) => Err(e@),
    }
}

/// The content of a result that holds bytes.
pub open spec fn bytes_result(r: Result<Vec<u8>, DiagramError>) -> Result<Seq<u8>, Fault> {
    match r {
        Ok(bytes) => Ok(bytes@),
        Err(e) => Err(e@),
    }
}

/// What a failure carries from the decoder or the engine stands at the end
/// of its diagnostic, character for character.
pub proof fn lemma_message_keeps_cause(cause: Seq<char>)
    ensures
        cause.is_suffix_of(Fault::Base64DecodeFailed(cause).message()),
        cause.is_suffix_of(Fault::DecompressionFailed(cause).message()),
        cause.is_suffix_of(Fault::InvalidUtf8(cause).message()),
        cause.is_suffix_of(Fault::RenderFailed(cause).message()),
        cause.is_suffix_of(Fault::EmptyOutput(cause).message()),
{
}

} // verus!
