//! Error types for elements, actors and pipelines.

use vstd::prelude::*;

verus! {

/// `std::io::Error`, carried opaquely by [`ElementError::Io`].
#[verifier::external_type_specification]
#[verifier::external_body]
pub struct ExIoError(std::io::Error);

/// Errors that can occur during element processing.
#[derive(Debug)]
pub enum ElementError {
    /// Processing error, with its description.
    Processing(String),
    /// Configuration error, with its description.
    Configuration(String),
    /// Input/output error.
    Io(std::io::Error),
    /// Shutdown requested.
    Shutdown,
    /// Channel closed.
    ChannelClosed,
}

impl From<std::io::Error> for ElementError {
    fn from(e: std::io::Error) -> (r: ElementError) {
        ElementError::Io(e)
    }
}

impl vstd::std_specs::convert::FromSpecImpl<std::io::Error> for ElementError {
    open spec fn obeys_from_spec() -> bool {
        true
    }

    open spec fn from_spec(v: std::io::Error) -> ElementError {
        ElementError::Io(v)
    }
}

/// Errors that can occur in the actor system.
#[derive(Debug)]
pub enum ActorError {
    /// The actor's mailbox is full.
    MailboxFull,
    /// The actor's mailbox is closed.
    MailboxClosed,
    /// Actor initialization failed.
    InitFailed(String),
    /// Actor processing error.
    ProcessingError(String),
    /// Supervision error.
    SupervisionError(String),
    /// Actor not found.
    NotFound(String),
}

/// Errors that can occur during pipeline execution.
#[derive(Debug)]
pub enum PipelineError {
    /// Pipeline build error.
    Build(String),
    /// Pipeline execution error.
    Execution(String),
    /// Element error.
    Element(ElementError),
    /// Actor error.
    Actor(ActorError),
}

impl From<ElementError> for PipelineError {
    fn from(e: ElementError) -> (r: PipelineError) {
        PipelineError::Element(e)
    }
}

impl vstd::std_specs::convert::FromSpecImpl<ElementError> for PipelineError {
    open spec fn obeys_from_spec() -> bool {
        true
    }

    open spec fn from_spec(v: ElementError) -> PipelineError {
        PipelineError::Element(v)
    }
}

impl From<ActorError> for PipelineError {
    fn from(e: ActorError) -> (r: PipelineError) {
        PipelineError::Actor(e)
    }
}

impl vstd::std_specs::convert::FromSpecImpl<ActorError> for PipelineError {
    open spec fn obeys_from_spec() -> bool {
        true
    }

    open spec fn from_spec(v: ActorError) -> PipelineError {
        PipelineError::Actor(v)
    }
}

} // verus!
