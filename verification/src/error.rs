//! Errors of the backend and their texts.

use crate::pipeline::{ElementName, End};
use crate::stream;
use crate::text::{decimal, decimal_text, lemma_decimal_reads_back, value};
use vstd::prelude::*;
use vstd::string::*;

verus! {

/// What goes wrong while a pipeline is put together.
#[derive(Debug, PartialEq, Eq)]
pub enum GsError {
    /// GStreamer reported this error.
    PipelineError(String),
}

impl GsError {
    /// The text that describes the error.
    pub open spec fn text(self) -> Seq<char> {
        match self {
            GsError::PipelineError(e) => "Stream with id "@ + e@ + " not found"@,
        }
    }

    /// Renders the error.
    pub fn message(&self) -> (r: String)
        ensures
            r@ == self.text(),
    {
        match self {
            GsError::PipelineError(e) => enclose("Stream with id ", e.as_str(), " not found"),
        }
    }
}

/// An unexpected failure inside the audio backend.
#[derive(Debug, PartialEq, Eq)]
pub enum BackendError {
    /// The format code has no raw audio format.
    UnsupportedFormat(u8),
    /// The rate code has no sample rate.
    UnsupportedRate(u8),
    /// A thread panicked while it held a lock.
    PoisonedLock,
    /// A thread panicked while it held the lock on the streams.
    PoisonedStreamsLock,
    /// There is no worker for the stream.
    SenderOutOfBounds,
    /// `read` could not set the pipeline playing.
    ReadPipelineFailed(String),
    /// `start` could not set the pipeline playing.
    StartPipelineFailed(String),
    /// `stop` could not reset the pipeline.
    StopPipelineFailed(String),
    /// `prepare` could not make the pipeline ready.
    ReadyPipelineFailed(String),
    /// `read` could not wake the worker.
    SignalFailed(String),
    /// `write` or `start` could not wake the worker.
    WriteSignalFailed(String),
    /// The pipeline could not be built.
    Pipeline(GsError),
    /// The pipeline has no element of this name.
    ElementNotFound(ElementName),
    /// The element is not an application source or sink.
    DowncastFailed(ElementName),
}

impl BackendError {
    /// The text that describes the error.
    pub open spec fn text(self) -> Seq<char> {
        match self {
            BackendError::UnsupportedFormat(f) => "Unsupported audio format: "@ + decimal(f as nat),
            BackendError::UnsupportedRate(f) => "Unsupported sample rate: "@ + decimal(f as nat),
            BackendError::PoisonedLock => "Poisoned lock"@,
            BackendError::PoisonedStreamsLock => "Poisoned streams lock"@,
            BackendError::SenderOutOfBounds => "Sender index out of bounds"@,
            BackendError::ReadPipelineFailed(e) => "Failed to start pipeline. Error: "@ + e@,
            BackendError::StartPipelineFailed(e) => "Failed to start pipeline: "@ + e@,
            BackendError::StopPipelineFailed(e) => "Failed to stop pipeline. Error : "@ + e@,
            BackendError::ReadyPipelineFailed(e) => "Failed to set pipeline to READY: "@ + e@,
            BackendError::SignalFailed(e) => "Failed to send signal: "@ + e@,
            BackendError::WriteSignalFailed(e) => "Failed to send write signal: "@ + e@,
            BackendError::Pipeline(e) => e.text(),
            BackendError::ElementNotFound(name) => "Element '"@ + name.text() + "' not found"@,
            BackendError::DowncastFailed(name) => "Failed to downcast "@ + name.text() + match name.end {
                End::Source => " to AppSrc"@,
                End::Sink => " to AppSink"@,
            },
        }
    }

    /// Renders the error.
    pub fn message(&self) -> (r: String)
        ensures
            r@ == self.text(),
    {
        match self {
            BackendError::UnsupportedFormat(f) => prefix(
                "Unsupported audio format: ",
                decimal_text(*f as u32).as_str(),
            ),
            BackendError::UnsupportedRate(f) => prefix(
                "Unsupported sample rate: ",
                decimal_text(*f as u32).as_str(),
            ),
            BackendError::PoisonedLock => "Poisoned lock".to_owned(),
            BackendError::PoisonedStreamsLock => "Poisoned streams lock".to_owned(),
            BackendError::SenderOutOfBounds => "Sender index out of bounds".to_owned(),
            BackendError::ReadPipelineFailed(e) => prefix(
                "Failed to start pipeline. Error: ",
                e.as_str(),
            ),
            BackendError::StartPipelineFailed(e) => prefix(
                "Failed to start pipeline: ",
                e.as_str(),
            ),
            BackendError::StopPipelineFailed(e) => prefix(
                "Failed to stop pipeline. Error : ",
                e.as_str(),
            ),
            BackendError::ReadyPipelineFailed(e) => prefix(
                "Failed to set pipeline to READY: ",
                e.as_str(),
            ),
            BackendError::SignalFailed(e) => prefix("Failed to send signal: ", e.as_str()),
            BackendError::WriteSignalFailed(e) => prefix(
                "Failed to send write signal: ",
                e.as_str(),
            ),
            BackendError::Pipeline(e) => e.message(),
            BackendError::ElementNotFound(name) => enclose(
                "Element '",
                name.to_text().as_str(),
                "' not found",
            ),
            BackendError::DowncastFailed(name) => enclose(
                "Failed to downcast ",
                name.to_text().as_str(),
                match name.end {
                    End::Source => " to AppSrc",
                    End::Sink => " to AppSink",
                },
            ),
        }
    }
}

/// What a command of the backend reports when it fails.
#[derive(Debug, PartialEq, Eq)]
pub enum Error {
    /// There is no such stream, or nothing was prepared for it.
    StreamWithIdNotFound(u32),
    /// The audio backend failed unexpectedly.
    UnexpectedAudioBackendError(BackendError),
    /// The stream does not support the requested parameters.
    UnexpectedAudioBackendConfiguration,
    /// The stream is in the wrong state.
    Stream(stream::Error),
}

/// `head` followed by `tail`.
fn prefix(head: &str, tail: &str) -> (r: String)
    ensures
        r@ == head@ + tail@,
{
    let mut text = head.to_owned();
    text.append(tail);
    text
}

/// `head`, then `middle`, then `tail`.
fn enclose(head: &str, middle: &str, tail: &str) -> (r: String)
    ensures
        r@ == head@ + middle@ + tail@,
{
    let mut text = prefix(head, middle);
    text.append(tail);
    text
}

/// An error that has a cause says what failed, and then the cause in full.
pub proof fn lemma_errors_give_their_cause(cause: String)
    ensures
        BackendError::ReadPipelineFailed(cause).text() == "Failed to start pipeline. Error: "@
            + cause@,
        BackendError::StartPipelineFailed(cause).text() == "Failed to start pipeline: "@ + cause@,
        BackendError::StopPipelineFailed(cause).text() == "Failed to stop pipeline. Error : "@
            + cause@,
        BackendError::ReadyPipelineFailed(cause).text() == "Failed to set pipeline to READY: "@
            + cause@,
        BackendError::SignalFailed(cause).text() == "Failed to send signal: "@ + cause@,
        BackendError::WriteSignalFailed(cause).text() == "Failed to send write signal: "@ + cause@,
        GsError::PipelineError(cause).text() == "Stream with id "@ + cause@ + " not found"@,
        BackendError::Pipeline(GsError::PipelineError(cause)).text() == "Stream with id "@ + cause@
            + " not found"@,
{
}

/// An error about a code or an element says which one: the code or the number
/// of the stream can be read back from the text.
pub proof fn lemma_errors_name_what_they_are_about(code: u8, id: u32)
    ensures
        BackendError::UnsupportedFormat(code).text() == "Unsupported audio format: "@ + decimal(
            code as nat,
        ),
        BackendError::UnsupportedRate(code).text() == "Unsupported sample rate: "@ + decimal(
            code as nat,
        ),
        value(decimal(code as nat)) == code,
        BackendError::ElementNotFound(ElementName { end: End::Source, id }).text()
            == "Element '"@ + ("src"@ + decimal(id as nat)) + "' not found"@,
        BackendError::ElementNotFound(ElementName { end: End::Sink, id }).text() == "Element '"@ + (
        "sink"@ + decimal(id as nat)) + "' not found"@,
        BackendError::DowncastFailed(ElementName { end: End::Source, id }).text()
            == "Failed to downcast "@ + ("src"@ + decimal(id as nat)) + " to AppSrc"@,
        BackendError::DowncastFailed(ElementName { end: End::Sink, id }).text()
            == "Failed to downcast "@ + ("sink"@ + decimal(id as nat)) + " to AppSink"@,
        value(decimal(id as nat)) == id,
{
    lemma_decimal_reads_back(code as nat);
    lemma_decimal_reads_back(id as nat);
}

/// The errors that are always the same.
pub proof fn lemma_fixed_errors()
    ensures
        BackendError::PoisonedLock.text() == "Poisoned lock"@,
        BackendError::PoisonedStreamsLock.text() == "Poisoned streams lock"@,
        BackendError::SenderOutOfBounds.text() == "Sender index out of bounds"@,
{
}

} // verus!
