//! The hub between the async driver pool and the synchronous front
//! end: it owns the sending end of every per-module command channel,
//! the receiving end of the shared response channel, and the broadcast
//! cancel. The channels themselves are tokio's; each operation the hub
//! needs is wrapped once below with the contract tokio documents.

use vstd::prelude::*;
use tokio::sync::broadcast;
use tokio::sync::mpsc;
use crate::error::EmbassyError;
use crate::message::{EmbassyMessage, MessageKind};

verus! {

#[verifier::external_type_specification]
#[verifier::external_body]
#[verifier::reject_recursive_types(T)]
pub struct ExMpscSender<T>(mpsc::Sender<T>);

#[verifier::external_type_specification]
#[verifier::external_body]
#[verifier::reject_recursive_types(T)]
pub struct ExMpscReceiver<T>(mpsc::Receiver<T>);

#[verifier::external_type_specification]
#[verifier::external_body]
#[verifier::reject_recursive_types(T)]
pub struct ExBroadcastSender<T>(broadcast::Sender<T>);

/// Outcome of one non-blocking poll of the response channel.
#[derive(Debug)]
pub enum PollOutcome {
    Message(EmbassyMessage),
    Empty,
    Disconnected,
}

/// Relies on tokio's `mpsc::Sender::blocking_send`: queues the message
/// for the channel's receiver, blocking while the bounded channel is
/// full; when every receiver is gone the message comes back unsent.
/// What a concurrent receiver does with the queue cannot be promised
/// here. Must be called from outside the async runtime, as the hub's
/// synchronous owner does.
#[verifier::external_body]
fn channel_blocking_send(sender: &mpsc::Sender<EmbassyMessage>, message: EmbassyMessage) -> (r:
    Result<(), EmbassyMessage>)
    ensures
        r matches Err(m) ==> m == message,
{
    match sender.blocking_send(message) {
        Ok(()) => Ok(()),
        Err(tokio::sync::mpsc::error::SendError(m)) => Err(m),
    }
}

/// Relies on tokio's `mpsc::Receiver::try_recv`: hands back a queued
/// message if one is ready, else reports the channel empty, or
/// disconnected once every sender is gone and the queue is drained.
/// Which of the three happens depends on the concurrent senders, so
/// nothing more can be promised of the outcome.
#[verifier::external_body]
fn channel_try_recv(receiver: &mut mpsc::Receiver<EmbassyMessage>) -> (r: PollOutcome) {
    match receiver.try_recv() {
        Ok(m) => PollOutcome::Message(m),
        Err(tokio::sync::mpsc::error::TryRecvError::Empty) => PollOutcome::Empty,
        Err(tokio::sync::mpsc::error::TryRecvError::Disconnected) => PollOutcome::Disconnected,
    }
}

/// Relies on tokio's `broadcast::Sender::send`: delivers the message
/// to every receiver subscribed at that moment; with none left it
/// fails and the message comes back.
#[verifier::external_body]
fn channel_broadcast_send(sender: &broadcast::Sender<EmbassyMessage>, message: EmbassyMessage) -> (
    r: Result<usize, EmbassyMessage>)
    ensures
        r matches Err(m) ==> m == message,
{
    match sender.send(message) {
        Ok(n) => Ok(n),
        Err(tokio::sync::broadcast::error::SendError(m)) => Err(m),
    }
}

/// The hub. Command channels are indexed densely by module id:
/// `ecc_senders[id]` feeds the transition driver of module `id`.
#[derive(Debug)]
pub struct Embassy {
    ecc_senders: Vec<mpsc::Sender<EmbassyMessage>>,
    envoy_reciever: mpsc::Receiver<EmbassyMessage>,
    cancel: broadcast::Sender<EmbassyMessage>,
}

impl Embassy {
    /// How many per-module command channels the hub holds.
    pub closed spec fn module_count(&self) -> int {
        self.ecc_senders@.len() as int
    }

    /// Assemble a hub from the channel endpoints the connector
    /// created: the response receiver, one command sender per module
    /// in id order, and the cancel sender.
    pub fn new(
        envoy_reciever: mpsc::Receiver<EmbassyMessage>,
        ecc_senders: Vec<mpsc::Sender<EmbassyMessage>>,
        cancel: broadcast::Sender<EmbassyMessage>,
    ) -> (embassy: Embassy)
        ensures
            embassy.module_count() == ecc_senders@.len(),
    {
        Embassy { ecc_senders, envoy_reciever, cancel }
    }

    /// Fire the broadcast cancel once. Joining the drivers afterwards
    /// is the caller's task. A send failure means every driver is
    /// already gone, which is exactly a clean shutdown, so it is
    /// swallowed.
    pub fn shutdown(&mut self) {
        let cancel_message = EmbassyMessage::compose_cancel();
        match channel_broadcast_send(&self.cancel, cancel_message) {
            Ok(_) => (),
            Err(_) => (),
        }
    }

    /// Hand a lifecycle command to its module's transition driver,
    /// blocking while that driver's bounded channel is full. Envelopes
    /// of any other kind, and command envelopes whose id has no
    /// channel, are silently dropped: only command traffic flows this
    /// way.
    pub fn submit_message(&mut self, message: EmbassyMessage) -> (r: Result<(), EmbassyError>)
        ensures
            message.kind != MessageKind::ECCOperation ==> r is Ok,
            r matches Err(e) ==> {
                &&& message.kind == MessageKind::ECCOperation
                &&& 0 <= message.id < old(self).module_count()
                &&& e matches EmbassyError::MessageSendError(m) && m@ == message@
            },
    {
        if message.kind == MessageKind::ECCOperation {
            let id = message.id;
            if id >= 0 && (id as usize) < self.ecc_senders.len() {
                let idx = id as usize;
                match channel_blocking_send(&self.ecc_senders[idx], message) {
                    Ok(()) => Ok(()),
                    Err(m) => Err(EmbassyError::MessageSendError(m)),
                }
            } else {
                Ok(())
            }
        } else {
            Ok(())
        }
    }

    /// Drain the response channel without blocking: collect queued
    /// envelopes until the channel reports empty. A disconnected
    /// channel — every driver gone while the hub still polls — is the
    /// one failure. The drain is capped at `usize::MAX` envelopes per
    /// call so that it provably ends; far fewer can ever be queued,
    /// and anything left is picked up by the next poll.
    pub fn poll_messages(&mut self) -> (r: Result<Vec<EmbassyMessage>, EmbassyError>)
        ensures
            r matches Err(e) ==> e matches EmbassyError::MessageRecieveError,
    {
        let mut messages: Vec<EmbassyMessage> = Vec::new();
        let mut budget: usize = usize::MAX;
        while budget > 0
            decreases budget,
        {
            match channel_try_recv(&mut self.envoy_reciever) {
                PollOutcome::Message(m) => {
                    messages.push(m);
                },
                PollOutcome::Empty => {
                    return Ok(messages);
                },
                PollOutcome::Disconnected => {
                    return Err(EmbassyError::MessageRecieveError);
                },
            }
            budget -= 1;
        }
        Ok(messages)
    }
}

} // verus!
