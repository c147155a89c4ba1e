//! The two-phase shutdown handshake.
//!
//! One watch invocation owns a pair of single-use, single-value signal
//! channels: `request_shutdown` / `shutdown_requested`, originated by the
//! interrupt listener and received by the watch activity, and
//! `shutdown_done` / `wait_for_shutdown_done`, originated by the watch
//! activity after it has released its backend resources and received by the
//! interrupt listener. Each channel is consumed exactly once and then
//! discarded; the pair lives exactly as long as the invocation.

use vstd::prelude::*;

verus! {

/// The declared type of the sending half of a single-value channel
/// (`tokio::sync::oneshot::Sender`); the library holds and consumes one to
/// originate the shutdown request.
#[verifier::external_type_specification]
#[verifier::external_body]
#[verifier::reject_recursive_types(T)]
pub struct ExOneshotSender<T>(tokio::sync::oneshot::Sender<T>);

/// The declared type of the receiving half of a single-value channel
/// (`tokio::sync::oneshot::Receiver`); the library only passes receivers
/// through to the activities that await them.
#[verifier::external_type_specification]
#[verifier::external_body]
#[verifier::reject_recursive_types(T)]
pub struct ExOneshotReceiver<T>(tokio::sync::oneshot::Receiver<T>);

/// The declared type of the error a oneshot receiver resolves to when its
/// sender is dropped without sending; it reaches the library only through
/// the events the activities report.
#[verifier::external_type_specification]
#[verifier::external_body]
pub struct ExOneshotRecvError(tokio::sync::oneshot::error::RecvError);

/// Relies on tokio::sync::oneshot::channel: creates a fresh connected
/// sender/receiver pair for one value. Which receiver a sender reaches is
/// not modelled; the handshake protocol is stated over the handshake's own
/// state instead.
pub assume_specification<T>[ tokio::sync::oneshot::channel::<T> ]() -> (
    tokio::sync::oneshot::Sender<T>,
    tokio::sync::oneshot::Receiver<T>,
);

/// Relies on tokio::sync::oneshot::Sender::send: sending consumes the
/// sender, so a channel carries at most one value; it returns the value back
/// exactly when the receiving half is already gone, and never waits.
pub assume_specification<T>[ tokio::sync::oneshot::Sender::<T>::send ](
    sender: tokio::sync::oneshot::Sender<T>,
    value: T,
) -> (r: Result<(), T>)
    ensures
        r matches Err(returned) ==> returned == value,
;

/// The channel ends a watch invocation hands out when the watch starts.
///
/// The two receivers and the done-sender leave the orchestrator: the watch
/// activity gets `shutdown_requested` (so its loop can observe cancellation)
/// and `shutdown_done` (so it can confirm completion after releasing backend
/// resources); the interrupt activity gets `wait_for_shutdown_done` (so it
/// returns only once completion is confirmed). The request-sender stays
/// inside the handshake.
#[derive(Debug)]
pub struct WatchEnds {
    /// Resolves once shutdown has been requested; observed by the watch
    /// activity at each iteration boundary of its internal loop.
    pub shutdown_requested: tokio::sync::oneshot::Receiver<()>,
    /// Consumed by the watch activity, exactly once, after it has released
    /// its backend resources.
    pub shutdown_done: tokio::sync::oneshot::Sender<()>,
    /// Resolves once the watch activity has confirmed completion; awaited by
    /// the interrupt activity after it originated the shutdown request.
    pub wait_for_shutdown_done: tokio::sync::oneshot::Receiver<()>,
}

/// One watch invocation's shutdown handshake: the retained request-sender
/// together with the protocol state the contracts speak about.
#[derive(Debug)]
pub struct ShutdownHandshake {
    request_shutdown: Option<tokio::sync::oneshot::Sender<()>>,
    requested: bool,
    done_observed: bool,
}

impl ShutdownHandshake {
    /// Whether the shutdown request has been originated.
    pub closed spec fn requested(&self) -> bool {
        self.requested
    }

    /// Whether the watch activity's completion signal has been observed by
    /// the interrupt side.
    pub closed spec fn done_observed(&self) -> bool {
        self.done_observed
    }

    /// The handshake's own invariant: the request is originated at most once
    /// (the sender is consumed by it), and completion can only have been
    /// observed after the request was originated.
    pub closed spec fn wf(&self) -> bool {
        &&& self.requested == (self.request_shutdown is None)
        &&& self.done_observed ==> self.requested
    }

    /// Whether the shutdown request has been originated.
    pub fn is_requested(&self) -> (b: bool)
        ensures
            b == self.requested(),
    {
        self.requested
    }

    /// Whether the watch activity's completion signal has been observed.
    pub fn is_done_observed(&self) -> (b: bool)
        ensures
            b == self.done_observed(),
    {
        self.done_observed
    }

    /// Create the handshake pair for one watch invocation: two fresh
    /// single-value channels, nothing yet requested or observed.
    pub fn new() -> (r: (ShutdownHandshake, WatchEnds))
        ensures
            r.0.wf(),
            !r.0.requested(),
            !r.0.done_observed(),
    {
        let (request_shutdown, shutdown_requested) = tokio::sync::oneshot::channel::<()>();
        let (shutdown_done, wait_for_shutdown_done) = tokio::sync::oneshot::channel::<()>();
        (
            ShutdownHandshake {
                request_shutdown: Some(request_shutdown),
                requested: false,
                done_observed: false,
            },
            WatchEnds { shutdown_requested, shutdown_done, wait_for_shutdown_done },
        )
    }

    /// Originate the shutdown request, consuming the request channel: the
    /// first phase of the handshake, fired at most once per instance.
    ///
    /// Returns whether the request could still be delivered; it cannot when
    /// the watch activity already dropped its receiving half, which violates
    /// the handshake (the watch side must hold it until it confirms
    /// completion).
    pub fn request_shutdown(&mut self) -> (delivered: bool)
        requires
            old(self).wf(),
            !old(self).requested(),
        ensures
            final(self).wf(),
            final(self).requested(),
            final(self).done_observed() == old(self).done_observed(),
    {
        let sender = self.request_shutdown.take().unwrap();
        self.requested = true;
        match sender.send(()) {
            Ok(()) => true,
            Err(()) => false,
        }
    }

    /// Record that the interrupt side has observed the watch activity's
    /// completion signal: the second phase of the handshake, possible only
    /// after the first.
    pub fn observe_done(&mut self)
        requires
            old(self).wf(),
            old(self).requested(),
            !old(self).done_observed(),
        ensures
            final(self).wf(),
            final(self).requested(),
            final(self).done_observed(),
    {
        self.done_observed = true;
    }
}

} // verus!
