//! The channel-backed bridge endpoints.
//!
//! `Eip1193Interface` and `Eip1193Task` carry the bridge protocol across two
//! scheduling domains over a pair of unbounded channels of the
//! `async-channel` crate. The channels are shared queues whose contents the
//! verifier cannot see, so the trusted wrappers here state only what holds
//! of every outcome; the worker's own decision — forward a success, drop a
//! failure — is verified against `spec_response_for`, the same spec
//! transition that governs `Bridge`.

use vstd::prelude::*;

use crate::bridge::spec_response_for;

verus! {

/// Declares `async_channel::Sender` so that a request or response sending
/// half can stand in verified signatures and fields. The handle is opaque
/// to the verifier.
#[verifier::external_type_specification]
#[verifier::external_body]
#[verifier::reject_recursive_types(T)]
pub struct ExSender<T>(async_channel::Sender<T>);

/// Declares `async_channel::Receiver`, the matching receiving half; opaque
/// to the verifier as well.
#[verifier::external_type_specification]
#[verifier::external_body]
#[verifier::reject_recursive_types(T)]
pub struct ExReceiver<T>(async_channel::Receiver<T>);

/// Whether the sender and the receiver are halves of one underlying
/// channel, so that what is sent on the one is what is receivable on the
/// other. The relation is a fact about the handles themselves; only
/// `open_channel` establishes it.
pub uninterp spec fn same_channel(
    sender: async_channel::Sender<String>,
    receiver: async_channel::Receiver<String>,
) -> bool;

/// Relies on async_channel::unbounded: creates one unbounded FIFO channel
/// and returns its sending and receiving halves, which therefore belong to
/// the same channel.
#[verifier::external_body]
fn open_channel() -> (halves: (async_channel::Sender<String>, async_channel::Receiver<String>))
    ensures
        same_channel(halves.0, halves.1),
{
    async_channel::unbounded()
}

/// Relies on async_channel::Sender::try_send: enqueues the message without
/// blocking; on failure (a full or a closed channel) the message itself
/// comes back inside the error.
#[verifier::external_body]
fn try_send_text(sender: &async_channel::Sender<String>, message: String) -> (r: Result<
    (),
    String,
>)
    ensures
        r matches Err(returned) ==> returned == message,
{
    match sender.try_send(message) {
        Ok(()) => Ok(()),
        Err(async_channel::TrySendError::Full(returned)) => Err(returned),
        Err(async_channel::TrySendError::Closed(returned)) => Err(returned),
    }
}

/// Relies on async_channel::Receiver::try_recv: takes one queued message
/// without blocking. `None` stands for both an empty and a closed channel,
/// which the bridge treats alike as silent absence.
#[verifier::external_body]
fn try_recv_text(receiver: &async_channel::Receiver<String>) -> (r: Option<String>) {
    match receiver.try_recv() {
        Ok(message) => Some(message),
        Err(async_channel::TryRecvError::Empty) => None,
        Err(async_channel::TryRecvError::Closed) => None,
    }
}

/// Reported by `Eip1193Interface::submit` when the request channel has no
/// remaining receiver; carries the request that could not be enqueued.
#[derive(Debug)]
pub struct SendFailure {
    pub request: String,
}

/// The bridge front end held by the user interface: the sending half of the
/// request channel and the receiving half of the response channel.
pub struct Eip1193Interface {
    pub sender: async_channel::Sender<String>,
    pub receiver: async_channel::Receiver<String>,
}

impl Eip1193Interface {
    /// Pairs the two channel halves into a front-end handle, storing
    /// exactly the given halves; no message is sent or received.
    pub fn new(
        sender: async_channel::Sender<String>,
        receiver: async_channel::Receiver<String>,
    ) -> (interface: Eip1193Interface)
        ensures
            interface.sender == sender,
            interface.receiver == receiver,
    {
        Eip1193Interface { sender, receiver }
    }

    /// Enqueues one request payload without blocking; returns once the
    /// request is queued, not once it is processed. The channel decides the
    /// outcome: enqueueing an unbounded channel fails only when the worker
    /// half is gone, and then the rejected request comes back in the
    /// failure, never silently dropped.
    pub fn submit(&self, request: String) -> (r: Result<(), SendFailure>)
        ensures
            r matches Err(failure) ==> failure.request == request,
    {
        match try_send_text(&self.sender, request) {
            Ok(()) => Ok(()),
            Err(returned) => Err(SendFailure { request: returned }),
        }
    }

    /// Polls the response channel without blocking. `None` is the normal
    /// empty outcome, observed on most render cycles until a response
    /// arrives; whether a payload is available is the channel's to decide.
    pub fn try_receive(&self) -> (r: Option<String>) {
        try_recv_text(&self.receiver)
    }
}

/// The bridge worker endpoint: the receiving half of the request channel
/// and the sending half of the response channel. A host on an asynchronous
/// execution context drives its cycle: poll one request, run the transport
/// call, hand the outcome to `finish` — and re-arms the cycle after each
/// completion so that every submitted request is eventually serviced.
pub struct Eip1193Task {
    sender: async_channel::Sender<String>,
    receiver: async_channel::Receiver<String>,
}

impl Eip1193Task {
    /// The response-sending half this worker holds.
    pub closed spec fn spec_sender(&self) -> async_channel::Sender<String> {
        self.sender
    }

    /// The request-receiving half this worker holds.
    pub closed spec fn spec_receiver(&self) -> async_channel::Receiver<String> {
        self.receiver
    }

    /// Pairs the two channel halves into a worker handle, storing exactly
    /// the given halves; no message is sent or received and nothing is
    /// spawned.
    pub fn new(
        sender: async_channel::Sender<String>,
        receiver: async_channel::Receiver<String>,
    ) -> (task: Eip1193Task)
        ensures
            task.spec_sender() == sender,
            task.spec_receiver() == receiver,
    {
        Eip1193Task { sender, receiver }
    }

    /// The worker's non-blocking poll for one queued request. An empty poll
    /// is a normal condition, not an error; a request this poll returns has
    /// left the channel and is observed by no other poll.
    pub fn poll_request(&self) -> (r: Option<String>) {
        try_recv_text(&self.receiver)
    }

    /// Applies the worker's decision to one transport outcome: a success is
    /// forwarded on the response channel, a failure is dropped and never
    /// answered. Returns whether a response was enqueued; with a successful
    /// outcome only a closed channel can refuse it.
    pub fn finish(&self, outcome: Result<String, String>) -> (delivered: bool)
        ensures
            delivered ==> spec_response_for(outcome) is Some,
    {
        match outcome {
            Ok(text) => match try_send_text(&self.sender, text) {
                Ok(()) => true,
                Err(_) => false,
            },
            Err(_) => false,
        }
    }
}

/// Builds one bridge: two fresh unbounded channels wired so that the
/// interface's sender and the task's receiver are halves of one channel
/// (requests), and the task's sender and the interface's receiver are
/// halves of the other (responses) — whatever the interface submits is
/// what the task polls, and whatever the task finishes with is what the
/// interface receives. The task half still needs a host that drives its
/// cycle on an asynchronous execution context.
pub fn build_bridge() -> (endpoints: (Eip1193Task, Eip1193Interface))
    ensures
        same_channel(endpoints.1.sender, endpoints.0.spec_receiver()),
        same_channel(endpoints.0.spec_sender(), endpoints.1.receiver),
{
    let (task_send, interface_receive) = open_channel();
    let (interface_send, task_receive) = open_channel();
    (
        Eip1193Task::new(task_send, task_receive),
        Eip1193Interface::new(interface_send, interface_receive),
    )
}

} // verus!
