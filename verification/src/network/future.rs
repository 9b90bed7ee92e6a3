//! The client side of a command: it is handed to the event loop on the first poll,
//! and every later poll asks the shared state for the outcome.
use vstd::prelude::*;

use crate::error::Error;
use crate::network::command::NetCommand;
use crate::network::shared::{finish_spec, poll_spec, Poll, SharedState};
use std::task::Waker;

verus! {

/// A command on its way to the event loop; `command` is there until it is sent.
#[derive(Debug)]
pub struct CommandFuture {
    pub command: Option<NetCommand>,
}

/// What a poll of the future does.
#[derive(Debug)]
pub enum FutureStep {
    /// Send this command to the event loop.
    Submit(NetCommand),
    /// The command was sent: ask the shared state for the outcome.
    AwaitResult,
}

/// What a poll makes of the future's command, and the step it takes.
pub open spec fn future_poll_spec(command: Option<NetCommand>) -> (Option<NetCommand>, FutureStep) {
    match command {
        Some(c) => (None, FutureStep::Submit(c)),
        None => (None, FutureStep::AwaitResult),
    }
}

/// The poll that sent the command, given whether the event loop took it: when it
/// did, the poll asks the shared state on behalf of `waker`, as any later poll
/// does, so the waker is kept for the finish; when the channel to the loop is
/// closed, the answer is that error and the state stays as it is.
pub open spec fn submission_spec<T>(sent: bool, state: SharedState<T>, waker: Waker) -> (SharedState<T>, Poll<Result<T, Error>>) {
    if sent {
        poll_spec(state, waker)
    } else {
        (state, Poll::Ready(Err(Error::CommandChannelClosed)))
    }
}

impl CommandFuture {
    pub fn new(command: NetCommand) -> (f: CommandFuture)
        ensures
            f.command == Some(command),
    {
        CommandFuture { command: Some(command) }
    }

    /// One poll: the first hands out the command to send, the later ones wait for
    /// the outcome.
    pub fn poll(&mut self) -> (step: FutureStep)
        ensures
            (final(self).command, step) == future_poll_spec(old(self).command),
    {
        match self.command.take() {
            Some(c) => FutureStep::Submit(c),
            None => FutureStep::AwaitResult,
        }
    }

    /// The answer of the poll that sent the command, given whether the event loop
    /// took it; `state` is the state shared with the command and `waker` wakes the
    /// polling task.
    pub fn submitted<T>(sent: bool, state: &mut SharedState<T>, waker: Waker) -> (answer: Poll<Result<T, Error>>)
        ensures
            (*final(state), answer) == submission_spec(sent, *old(state), waker),
    {
        if sent {
            state.poll(waker)
        } else {
            Poll::Ready(Err(Error::CommandChannelClosed))
        }
    }
}

/// Law: a future hands out its command once; every poll after the first waits for
/// the outcome.
pub proof fn lemma_submits_once(command: Option<NetCommand>)
    ensures
        future_poll_spec(future_poll_spec(command).0).1 is AwaitResult,
        future_poll_spec(future_poll_spec(command).0).0 is None,
{
}

/// Law: the outcome of a sent command reaches the task awaiting it. When the
/// command finishes after the poll that sent it, the finish calls that poll's
/// waker and the next poll hands over the outcome; when it finished before, the
/// sending poll hands it over at once.
pub proof fn lemma_outcome_reaches_client<T>(state: SharedState<T>, waker: Waker, result: Result<T, Error>, later: Waker)
    requires
        state.result is None,
    ensures
        submission_spec(true, state, waker).1 is Pending,
        finish_spec(submission_spec(true, state, waker).0, result).1 == Some(waker),
        poll_spec(finish_spec(submission_spec(true, state, waker).0, result).0, later).1 == Poll::Ready(result),
        submission_spec(true, finish_spec(state, result).0, waker).1 == Poll::Ready(result),
{
}

} // verus!
