//! The verified protocol core of the bridge.
//!
//! `BridgeView` is the mathematical state of one bridge: the pending
//! requests and the pending responses, oldest first. The four spec
//! transitions say exactly what each step of the request/response lifecycle
//! does to that state, and `Bridge` is an executable form of the state whose
//! methods are proved to follow the transitions. The proof functions at the
//! bottom state the bridge laws: delivery, no duplication, silent absence
//! and order preservation.

use vstd::prelude::*;

use crate::queue::MessageQueue;

verus! {

/// The state of one bridge: the requests the worker has not yet taken and
/// the responses the interface has not yet taken, each oldest first.
pub struct BridgeView {
    pub requests: Seq<String>,
    pub responses: Seq<String>,
}

/// Submitting a request appends it at the back of the request queue and
/// touches nothing else.
pub open spec fn spec_submit(v: BridgeView, request: String) -> BridgeView {
    BridgeView { requests: v.requests.push(request), responses: v.responses }
}

/// A worker poll takes the oldest pending request, or nothing when none is
/// pending; a taken request leaves the queue, so no later poll sees it.
pub open spec fn spec_worker_poll(v: BridgeView) -> (BridgeView, Option<String>) {
    if v.requests.len() == 0 {
        (v, None)
    } else {
        (
            BridgeView { requests: v.requests.drop_first(), responses: v.responses },
            Some(v.requests[0]),
        )
    }
}

/// The worker's decision on one transport outcome: a success is forwarded
/// as the response payload, a failure is dropped and never answered.
pub open spec fn spec_response_for(outcome: Result<String, String>) -> Option<String> {
    match outcome {
        Ok(text) => Some(text),
        Err(_) => None,
    }
}

/// Finishing a cycle appends the response decided for the outcome, if any,
/// at the back of the response queue; a dropped outcome changes nothing.
pub open spec fn spec_worker_finish(v: BridgeView, outcome: Result<String, String>) -> BridgeView {
    match spec_response_for(outcome) {
        Some(text) => BridgeView { requests: v.requests, responses: v.responses.push(text) },
        None => v,
    }
}

/// An interface poll takes the oldest pending response, or nothing when
/// none is pending, and then leaves the state exactly as it was.
pub open spec fn spec_try_receive(v: BridgeView) -> (BridgeView, Option<String>) {
    if v.responses.len() == 0 {
        (v, None)
    } else {
        (
            BridgeView { requests: v.requests, responses: v.responses.drop_first() },
            Some(v.responses[0]),
        )
    }
}

/// One successful worker cycle at the spec level: poll one request and,
/// when one was pending, finish with the given transport success. With no
/// pending request the transport is never invoked and nothing changes.
pub open spec fn spec_cycle(v: BridgeView, result: String) -> BridgeView {
    if v.requests.len() == 0 {
        v
    } else {
        spec_worker_finish(spec_worker_poll(v).0, Ok(result))
    }
}

/// Runs one successful worker cycle per given transport result, oldest
/// request first.
pub open spec fn spec_run_cycles(v: BridgeView, results: Seq<String>) -> BridgeView
    decreases results.len(),
{
    if results.len() == 0 {
        v
    } else {
        spec_run_cycles(spec_cycle(v, results[0]), results.drop_first())
    }
}

/// A bridge held in one place: both queues owned together, for a host whose
/// interface and worker share one scheduling domain. Every method is proved
/// to follow the corresponding spec transition, so the laws below hold of
/// any run of this type.
pub struct Bridge {
    requests: MessageQueue,
    responses: MessageQueue,
}

impl View for Bridge {
    type V = BridgeView;

    closed spec fn view(&self) -> BridgeView {
        BridgeView { requests: self.requests@, responses: self.responses@ }
    }
}

impl Bridge {
    /// Creates a quiescent bridge: nothing pending in either direction.
    pub fn new() -> (bridge: Bridge)
        ensures
            bridge@.requests == Seq::<String>::empty(),
            bridge@.responses == Seq::<String>::empty(),
    {
        Bridge { requests: MessageQueue::new(), responses: MessageQueue::new() }
    }

    /// Enqueues one request payload. Returns once the request is queued,
    /// not once it is processed; the queue is unbounded, so enqueueing
    /// always succeeds.
    pub fn submit(&mut self, request: String)
        ensures
            final(self)@ == spec_submit(old(self)@, request),
    {
        self.requests.push(request);
    }

    /// The worker's non-blocking poll for one request. An empty poll is a
    /// normal condition, not an error.
    pub fn worker_poll(&mut self) -> (r: Option<String>)
        ensures
            final(self)@ == spec_worker_poll(old(self)@).0,
            r == spec_worker_poll(old(self)@).1,
    {
        self.requests.try_pop()
    }

    /// Applies the worker's decision to one transport outcome: a success is
    /// enqueued as the response, a failure is dropped with no response.
    pub fn worker_finish(&mut self, outcome: Result<String, String>)
        ensures
            final(self)@ == spec_worker_finish(old(self)@, outcome),
    {
        match outcome {
            Ok(text) => {
                self.responses.push(text);
            },
            Err(_) => {},
        }
    }

    /// The interface's non-blocking poll for one response. `None` is the
    /// normal empty outcome, observed on most render cycles.
    pub fn try_receive(&mut self) -> (r: Option<String>)
        ensures
            final(self)@ == spec_try_receive(old(self)@).0,
            r == spec_try_receive(old(self)@).1,
    {
        self.responses.try_pop()
    }

    /// The number of requests the worker has not yet taken.
    pub fn pending_request_count(&self) -> (n: usize)
        ensures
            n == self@.requests.len(),
    {
        self.requests.len()
    }

    /// The number of responses the interface has not yet taken.
    pub fn pending_response_count(&self) -> (n: usize)
        ensures
            n == self@.responses.len(),
    {
        self.responses.len()
    }
}

/// Delivery: a request submitted to a quiescent bridge is what the next
/// worker poll takes, and when the transport succeeds, the next interface
/// poll returns exactly the transport result and the bridge is quiescent
/// again — the response is observed exactly once.
pub proof fn delivery_law(v: BridgeView, request: String, result: String)
    requires
        v.requests.len() == 0,
        v.responses.len() == 0,
    ensures
        ({
            let queued = spec_submit(v, request);
            let (served, polled) = spec_worker_poll(queued);
            let answered = spec_worker_finish(served, Ok(result));
            let (drained, received) = spec_try_receive(answered);
            polled == Some(request) && received == Some(result) && drained.requests.len() == 0
                && drained.responses.len() == 0
        }),
{
}

/// Complete service: when the worker runs one successful cycle per pending
/// request, every request is consumed and the transport results join the
/// pending responses in cycle order — no request is left behind and none
/// is answered twice.
pub proof fn complete_service_law(v: BridgeView, results: Seq<String>)
    requires
        results.len() == v.requests.len(),
    ensures
        spec_run_cycles(v, results).requests.len() == 0,
        spec_run_cycles(v, results).responses == v.responses + results,
    decreases results.len(),
{
    if results.len() == 0 {
        assert(spec_run_cycles(v, results).responses =~= v.responses + results);
    } else {
        let next = spec_cycle(v, results[0]);
        complete_service_law(next, results.drop_first());
        assert(next.responses + results.drop_first() =~= v.responses + results);
    }
}

/// No duplication: a worker poll removes the request it returns, so the
/// request a poll takes is never observed by a second poll; with a single
/// pending request the second poll reports emptiness and changes nothing.
pub proof fn no_duplication_law(v: BridgeView)
    requires
        v.requests.len() == 1,
    ensures
        ({
            let (once, first) = spec_worker_poll(v);
            let (twice, second) = spec_worker_poll(once);
            first == Some(v.requests[0]) && second is None && twice == once
        }),
{
}

/// Silent absence: an interface poll of a bridge with no pending response
/// returns nothing and leaves the state exactly as it was.
pub proof fn silent_absence_law(v: BridgeView)
    requires
        v.responses.len() == 0,
    ensures
        spec_try_receive(v).1 is None,
        spec_try_receive(v).0 == v,
{
}

/// Order preservation: two requests submitted back to back are polled in
/// submission order, and when both transport calls succeed, their responses
/// are received in the order the worker produced them.
pub proof fn order_law(
    v: BridgeView,
    request_a: String,
    request_b: String,
    result_a: String,
    result_b: String,
)
    requires
        v.requests.len() == 0,
        v.responses.len() == 0,
    ensures
        ({
            let queued = spec_submit(spec_submit(v, request_a), request_b);
            let (served_a, polled_a) = spec_worker_poll(queued);
            let answered_a = spec_worker_finish(served_a, Ok(result_a));
            let (served_b, polled_b) = spec_worker_poll(answered_a);
            let answered_b = spec_worker_finish(served_b, Ok(result_b));
            let (drained_a, received_a) = spec_try_receive(answered_b);
            let (drained_b, received_b) = spec_try_receive(drained_a);
            polled_a == Some(request_a) && polled_b == Some(request_b) && received_a == Some(
                result_a,
            ) && received_b == Some(result_b) && drained_b.requests.len() == 0
                && drained_b.responses.len() == 0
        }),
{
}

} // verus!
