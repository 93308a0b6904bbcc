//! Start and stop of the proxy: which messages the workers get at either
//! end, and what the accept loop does with what happens to it.

use crate::server::remote::{RemoteMessage, S3Remote};
use vstd::prelude::*;

verus! {

/// A signal that asks the proxy to stop.
#[derive(Debug, Clone, Copy, PartialEq, Eq, Structural)]
pub enum Signal {
    Interrupt,
    Terminate,
}

/// What can happen to the accept loop.
#[derive(Debug, Clone, Copy, PartialEq, Eq, Structural)]
pub enum LoopEvent {
    /// A signal arrived.
    Signal(Signal),
    /// A client connected.
    Connection,
    /// Accepting a connection failed.
    AcceptError,
}

/// What the accept loop does next.
#[derive(Debug, Clone, Copy, PartialEq, Eq, Structural)]
pub enum LoopAction {
    /// Serve the new connection, and go on accepting.
    Serve,
    /// Log the failure, and go on accepting.
    Report,
    /// Leave the loop and shut down.
    Shutdown,
}

/// One step of shutting the proxy down.
#[derive(Debug, Clone, Copy, PartialEq, Eq, Structural)]
pub enum ShutdownStep {
    /// Let the requests that are in flight finish; take no new connection.
    DrainConnections,
    /// Send every worker its shutdown message.
    StopWorkers,
    /// Wait until every worker has ended.
    JoinWorkers,
}

/// What the accept loop does for `event`: either signal ends it, a
/// connection is served, a failed accept is reported and nothing more.
pub open spec fn action_for(event: LoopEvent) -> LoopAction {
    match event {
        LoopEvent::Signal(_) => LoopAction::Shutdown,
        LoopEvent::Connection => LoopAction::Serve,
        LoopEvent::AcceptError => LoopAction::Report,
    }
}

/// What the accept loop does for `event`.
pub fn on_loop_event(event: LoopEvent) -> (action: LoopAction)
    ensures
        action == action_for(event),
{
    match event {
        LoopEvent::Signal(_) => LoopAction::Shutdown,
        LoopEvent::Connection => LoopAction::Serve,
        LoopEvent::AcceptError => LoopAction::Report,
    }
}

/// The steps of a shutdown, in order: first the requests in flight are
/// let finish, then the workers are told to stop, then they are waited for.
/// A request that is still being served finds its workers alive.
pub fn shutdown_steps() -> (steps: Vec<ShutdownStep>)
    ensures
        steps@ == seq![
            ShutdownStep::DrainConnections,
            ShutdownStep::StopWorkers,
            ShutdownStep::JoinWorkers,
        ],
{
    let mut steps: Vec<ShutdownStep> = Vec::new();
    steps.push(ShutdownStep::DrainConnections);
    steps.push(ShutdownStep::StopWorkers);
    steps.push(ShutdownStep::JoinWorkers);
    steps
}

/// The messages sent before the proxy starts to listen: one health check
/// for every remote, in the order of the configuration.
pub fn warm_up<B>(remotes: &Vec<S3Remote>) -> (messages: Vec<(usize, RemoteMessage<B>)>)
    ensures
        messages@.len() == remotes@.len(),
        forall|i: int|
            0 <= i < messages@.len() ==> (#[trigger] messages@[i]).0 == i && messages@[i].1
                is HealthCheck,
{
    let mut messages: Vec<(usize, RemoteMessage<B>)> = Vec::new();
    let mut i: usize = 0;
    while i < remotes.len()
        invariant
            i <= remotes.len(),
            messages@.len() == i,
            forall|k: int|
                0 <= k < messages@.len() ==> (#[trigger] messages@[k]).0 == k && messages@[k].1
                    is HealthCheck,
        decreases remotes.len() - i,
    {
        messages.push((i, RemoteMessage::HealthCheck));
        i += 1;
    }
    messages
}

/// The messages sent when the proxy stops: one shutdown for every remote.
/// A worker gets it behind everything already in its mailbox, so what is
/// in flight is finished first.
pub fn wind_down<B>(remotes: &Vec<S3Remote>) -> (messages: Vec<(usize, RemoteMessage<B>)>)
    ensures
        messages@.len() == remotes@.len(),
        forall|i: int|
            0 <= i < messages@.len() ==> (#[trigger] messages@[i]).0 == i && messages@[i].1
                is Shutdown,
{
    let mut messages: Vec<(usize, RemoteMessage<B>)> = Vec::new();
    let mut i: usize = 0;
    while i < remotes.len()
        invariant
            i <= remotes.len(),
            messages@.len() == i,
            forall|k: int|
                0 <= k < messages@.len() ==> (#[trigger] messages@[k]).0 == k && messages@[k].1
                    is Shutdown,
        decreases remotes.len() - i,
    {
        messages.push((i, RemoteMessage::Shutdown));
        i += 1;
    }
    messages
}

} // verus!
