//! Error types of the library: conversion failures on the enum
//! codings, wire-parse failures in the drivers, and the hub's
//! messaging failures.

use vstd::prelude::*;
use crate::message::{EmbassyMessage, MessageKind};

verus! {

/// A string that is not the label of any ECC operation.
#[derive(Debug, Clone)]
pub enum ECCOperationError {
    BadString(String),
}

/// A string that is not the label of any ECC state.
#[derive(Debug, Clone)]
pub enum ECCStatusError {
    BadString(String),
}

/// Failure inside a driver: a bad operation label, a response body
/// without the expected element, or an element that does not parse as
/// a number.
#[derive(Debug, Clone)]
pub enum EnvoyError {
    OperationError(ECCOperationError),
    StatusError(ECCStatusError),
    XMLConversionError,
    StringToIntError,
}

/// Failure at the hub or the aggregator: a message could not be
/// handed to a driver, an envelope was decoded as the wrong kind, or
/// the response channel is gone.
#[derive(Debug, Clone)]
pub enum EmbassyError {
    MessageSendError(EmbassyMessage),
    MessageKindError(MessageKind, MessageKind),
    MessageRecieveError,
}

} // verus!
