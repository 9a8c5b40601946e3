//! A ticket store served by one worker through a bounded request channel,
//! with a one-shot reply channel per request.
use crate::data::{Ticket, TicketDraft, TicketId};
use crate::worker::{request_of, Request};
use std::sync::mpsc::{Receiver, SyncSender, TrySendError};
use vstd::prelude::*;

verus! {

#[verifier::external_type_specification]
#[verifier::external_body]
#[verifier::reject_recursive_types(T)]
pub struct ExSyncSender<T>(SyncSender<T>);

#[verifier::external_type_specification]
#[verifier::external_body]
#[verifier::reject_recursive_types(T)]
pub struct ExReceiver<T>(Receiver<T>);

/// Relies on SyncSender's Clone: another producer end of the same channel.
pub assume_specification<T>[ <SyncSender<T> as Clone>::clone ](sender: &SyncSender<T>) -> SyncSender<T>;

/// A request for the worker, with the channel on which its reply goes back.
pub enum Command {
    Insert { draft: TicketDraft, response_channel: SyncSender<TicketId> },
    Get { id: TicketId, response_channel: SyncSender<Option<Ticket>> },
}

/// The request channel was full when a command was offered to it.
#[derive(Clone, Copy, Debug, PartialEq, Eq, Structural)]
pub struct OverloadedError;

/// Why a call through a client did not produce an answer.
#[derive(Clone, Copy, Debug, PartialEq, Eq, Structural)]
pub enum ClientError {
    /// The request channel was at capacity; nothing was enqueued.
    Overloaded(OverloadedError),
    /// The worker has stopped, before taking the command or before replying.
    WorkerUnavailable,
}

/// What became of an attempt to enqueue without blocking.
#[derive(Clone, Copy, Debug, PartialEq, Eq, Structural)]
pub enum SendOutcome {
    Accepted,
    Full,
    Disconnected,
}

/// Relies on std::sync::mpsc::sync_channel: a connected sender and receiver
/// whose buffer holds `bound` messages.
#[verifier::external_body]
fn sync_channel<T>(bound: usize) -> (SyncSender<T>, Receiver<T>) {
    std::sync::mpsc::sync_channel(bound)
}

/// Relies on SyncSender::try_send: enqueues without blocking, or says whether
/// the buffer was full or the receiver gone. Which one depends on other threads.
#[verifier::external_body]
pub(crate) fn try_send<T>(sender: &SyncSender<T>, message: T) -> SendOutcome {
    match sender.try_send(message) {
        Ok(()) => SendOutcome::Accepted,
        Err(TrySendError::Full(_)) => SendOutcome::Full,
        Err(TrySendError::Disconnected(_)) => SendOutcome::Disconnected,
    }
}

/// Relies on Receiver::recv: blocks for the next message, and gives `None`
/// once every sender is gone and the buffer is empty.
#[verifier::external_body]
fn recv<T>(receiver: &Receiver<T>) -> Option<T> {
    receiver.recv().ok()
}

/// The error, if any, that a client reports for an attempt to enqueue.
pub open spec fn submission_result_spec(outcome: SendOutcome) -> Result<(), ClientError> {
    match outcome {
        SendOutcome::Accepted => Ok(()),
        SendOutcome::Full => Err(ClientError::Overloaded(OverloadedError)),
        SendOutcome::Disconnected => Err(ClientError::WorkerUnavailable),
    }
}

/// The result a client reports for an attempt to enqueue.
pub fn submission_result(outcome: SendOutcome) -> (r: Result<(), ClientError>)
    ensures
        r == submission_result_spec(outcome),
        outcome == SendOutcome::Accepted <==> r is Ok,
        outcome == SendOutcome::Full <==> r == Err::<(), _>(ClientError::Overloaded(OverloadedError)),
        outcome == SendOutcome::Disconnected <==> r == Err::<(), _>(ClientError::WorkerUnavailable),
{
    match outcome {
        SendOutcome::Accepted => Ok(()),
        SendOutcome::Full => Err(ClientError::Overloaded(OverloadedError)),
        SendOutcome::Disconnected => Err(ClientError::WorkerUnavailable),
    }
}

/// The result a client reports once waiting for a reply is over: the reply
/// itself, or the worker's absence when the reply channel closed empty.
pub fn reply_result<T>(reply: Option<T>) -> (r: Result<T, ClientError>)
    ensures
        match reply {
            Some(v) => r == Ok::<T, ClientError>(v),
            None => r == Err::<T, ClientError>(ClientError::WorkerUnavailable),
        },
{
    match reply {
        Some(v) => Ok(v),
        None => Err(ClientError::WorkerUnavailable),
    }
}

/// A handle on the worker; clones all feed the same request channel.
///
/// `attempts` records, for every command this handle offered, the request it
/// carried and what the channel made of it.
#[derive(Clone)]
pub struct TicketStoreClient {
    sender: SyncSender<Command>,
    attempts: Ghost<Seq<(Request, SendOutcome)>>,
}

impl TicketStoreClient {
    /// The requests this handle offered, in order, each with its outcome.
    pub closed spec fn attempts(&self) -> Seq<(Request, SendOutcome)> {
        self.attempts@
    }

    /// A client that submits on the producer end of a request channel.
    pub fn new(sender: SyncSender<Command>) -> (c: Self)
        ensures
            c.attempts() == Seq::<(Request, SendOutcome)>::empty(),
    {
        TicketStoreClient { sender, attempts: Ghost(Seq::empty()) }
    }

    /// Offers a command to the worker without blocking. The command is
    /// enqueued exactly when the outcome recorded for it is `Accepted`; a full
    /// channel gives `Overloaded` and a channel without worker
    /// `WorkerUnavailable`.
    pub fn submit(&mut self, command: Command) -> (r: Result<(), ClientError>)
        ensures
            final(self).attempts() == old(self).attempts().push(
                (request_of(command), final(self).attempts().last().1),
            ),
            r == submission_result_spec(final(self).attempts().last().1),
    {
        let ghost request = request_of(command);
        let outcome = try_send(&self.sender, command);
        self.attempts = Ghost(self.attempts@.push((request, outcome)));
        submission_result(outcome)
    }

    /// Asks the worker to add a ticket built from `draft`, and waits for the
    /// id. `Overloaded` comes exactly when the channel was full, and then
    /// nothing was enqueued; an id comes only for an accepted command.
    pub fn insert(&mut self, draft: TicketDraft) -> (r: Result<TicketId, ClientError>)
        ensures
            final(self).attempts() == old(self).attempts().push(
                (Request::Insert(draft), final(self).attempts().last().1),
            ),
            final(self).attempts().last().1 == SendOutcome::Full <==> r == Err::<TicketId, _>(
                ClientError::Overloaded(OverloadedError),
            ),
            final(self).attempts().last().1 == SendOutcome::Disconnected ==> r == Err::<
                TicketId,
                _,
            >(ClientError::WorkerUnavailable),
            r is Ok ==> final(self).attempts().last().1 == SendOutcome::Accepted,
    {
        let (response_channel, replies) = sync_channel(1);
        match self.submit(Command::Insert { draft, response_channel }) {
            Err(e) => Err(e),
            Ok(()) => reply_result(recv(&replies)),
        }
    }

    /// Asks the worker for the ticket with id `id`, and waits for it.
    /// `Overloaded` comes exactly when the channel was full, and then no
    /// lookup was enqueued; an answer comes only for an accepted command.
    pub fn get(&mut self, id: TicketId) -> (r: Result<Option<Ticket>, ClientError>)
        ensures
            final(self).attempts() == old(self).attempts().push(
                (Request::Get(id), final(self).attempts().last().1),
            ),
            final(self).attempts().last().1 == SendOutcome::Full <==> r == Err::<
                Option<Ticket>,
                _,
            >(ClientError::Overloaded(OverloadedError)),
            final(self).attempts().last().1 == SendOutcome::Disconnected ==> r == Err::<
                Option<Ticket>,
                _,
            >(ClientError::WorkerUnavailable),
            r is Ok ==> final(self).attempts().last().1 == SendOutcome::Accepted,
    {
        let (response_channel, replies) = sync_channel(1);
        match self.submit(Command::Get { id, response_channel }) {
            Err(e) => Err(e),
            Ok(()) => reply_result(recv(&replies)),
        }
    }
}

} // verus!
