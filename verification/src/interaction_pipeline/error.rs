//! The interaction error taxonomy and how each error surfaces to the user.

use vstd::prelude::*;
use crate::interaction::{
    is_message_callback,
    InteractionCallback,
    InteractionCallbackMessage,
};
use crate::store::{ListError, ReadError, UpsertError};

verus! {

/// Everything that can go wrong between authentication and the reply. Store
/// errors are converted into this taxonomy at the handler boundary and
/// never passed through raw.
#[derive(Debug, Clone, Copy, PartialEq, Eq, Structural)]
pub enum InteractionError {
    NoHandlerFound,
    Unexpected,
    CommandNotImplemented,
    UnknownCommand,
    InvalidCommand,
    KeyNotFound,
}

impl From<UpsertError> for InteractionError {
    /// An upsert can only fail in the engine: surfaced as `Unexpected`.
    fn from(e: UpsertError) -> (r: Self)
        ensures
            r == InteractionError::Unexpected,
    {
        match e {
            UpsertError::Kv(_) => InteractionError::Unexpected,
        }
    }
}

impl vstd::std_specs::convert::FromSpecImpl<UpsertError> for InteractionError {
    open spec fn obeys_from_spec() -> bool {
        true
    }

    open spec fn from_spec(e: UpsertError) -> Self {
        InteractionError::Unexpected
    }
}

impl From<ListError> for InteractionError {
    /// A listing can only fail in the engine: surfaced as `Unexpected`.
    fn from(e: ListError) -> (r: Self)
        ensures
            r == InteractionError::Unexpected,
    {
        match e {
            ListError::Kv(_) => InteractionError::Unexpected,
        }
    }
}

impl vstd::std_specs::convert::FromSpecImpl<ListError> for InteractionError {
    open spec fn obeys_from_spec() -> bool {
        true
    }

    open spec fn from_spec(e: ListError) -> Self {
        InteractionError::Unexpected
    }
}

/// How a read failure surfaces: an absent key — under either name the store
/// may give it — as `KeyNotFound`, an engine failure as `Unexpected`.
pub open spec fn read_error_to_interaction_error(e: ReadError) -> InteractionError {
    match e {
        ReadError::MissingKey => InteractionError::KeyNotFound,
        ReadError::NoData => InteractionError::KeyNotFound,
        ReadError::Kv(_) => InteractionError::Unexpected,
    }
}

impl From<ReadError> for InteractionError {
    fn from(e: ReadError) -> (r: Self)
        ensures
            r == read_error_to_interaction_error(e),
    {
        match e {
            ReadError::MissingKey => InteractionError::KeyNotFound,
            ReadError::NoData => InteractionError::KeyNotFound,
            ReadError::Kv(_) => InteractionError::Unexpected,
        }
    }
}

impl vstd::std_specs::convert::FromSpecImpl<ReadError> for InteractionError {
    open spec fn obeys_from_spec() -> bool {
        true
    }

    open spec fn from_spec(e: ReadError) -> Self {
        read_error_to_interaction_error(e)
    }
}

impl InteractionError {
    /// The HTTP status an error surfaces as: a missing handler or an
    /// unexpected failure is the service's defect (500); everything else is
    /// a user-facing outcome the platform must render, so it stays 200.
    pub fn status_code(&self) -> (r: u16)
        ensures
            r == (match self {
                InteractionError::Unexpected | InteractionError::NoHandlerFound => 500u16,
                _ => 200u16,
            }),
    {
        match self {
            InteractionError::Unexpected | InteractionError::NoHandlerFound => 500,
            _ => 200,
        }
    }

    /// The user-facing reply for an error, or `None` for the 500-class
    /// errors, which answer with an opaque body and leak no detail.
    pub fn response_callback(&self) -> (r: Option<InteractionCallback>)
        ensures
            match self {
                InteractionError::Unexpected | InteractionError::NoHandlerFound => r is None,
                InteractionError::CommandNotImplemented => r matches Some(cb)
                    && is_message_callback(cb, "***This command is not implemented***"@),
                InteractionError::UnknownCommand => r matches Some(cb) && is_message_callback(
                    cb,
                    "***This command is unknown***"@,
                ),
                InteractionError::InvalidCommand => r matches Some(cb) && is_message_callback(
                    cb,
                    "***This command is invalid***"@,
                ),
                InteractionError::KeyNotFound => r matches Some(cb) && is_message_callback(
                    cb,
                    "***Key not found***"@,
                ),
            },
    {
        let content: String = match self {
            InteractionError::Unexpected | InteractionError::NoHandlerFound => {
                return None;
            },
            InteractionError::CommandNotImplemented => {
                "***This command is not implemented***".to_owned()
            },
            InteractionError::UnknownCommand => "***This command is unknown***".to_owned(),
            InteractionError::InvalidCommand => "***This command is invalid***".to_owned(),
            InteractionError::KeyNotFound => "***Key not found***".to_owned(),
        };
        Some(
            InteractionCallback::channel_message_with_source(
                InteractionCallbackMessage { content: Some(content) },
            ),
        )
    }
}

} // verus!
