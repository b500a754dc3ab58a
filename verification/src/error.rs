//! Errors of a service task.

use crate::connection::error::ConnectionError;
use crate::stream::error::StreamError;
use vstd::prelude::*;

verus! {

#[derive(Debug)]
pub enum ServiceError {
    ConnectionError(ConnectionError),
    HubError(StreamError),
    /// The broker refused the registration, for the reason given.
    RegisterFailed(String),
    /// The broker's answer does not fit the role.
    InvalidToken,
    /// The stream's publisher is gone.
    PublishDone,
    /// The last subscriber of a pulled stream is gone.
    NoSubscriber,
}

} // verus!
