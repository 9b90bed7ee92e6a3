//! The state that a command shares with the client waiting for it: the outcome
//! once there is one, and the waker of the task that last found none.
use vstd::prelude::*;

use std::task::Waker;

use crate::error::Error;

verus! {

/// `std::task::Waker`, carried through unread.
#[verifier::external_type_specification]
#[verifier::external_body]
pub struct ExWaker(Waker);

/// The answer to a poll: the value, or not yet.
#[derive(Debug)]
pub enum Poll<T> {
    Ready(T),
    Pending,
}

/// The outcome of a command, and the waker to call when it arrives.
#[derive(Debug)]
pub struct SharedState<T> {
    pub result: Option<Result<T, Error>>,
    pub waker: Option<Waker>,
}

/// What a poll with `waker` makes of `state`, and what it answers: a stored
/// outcome is taken out and handed over; with none, the waker is kept.
pub open spec fn poll_spec<T>(state: SharedState<T>, waker: Waker) -> (SharedState<T>, Poll<Result<T, Error>>) {
    match state.result {
        Some(r) => (SharedState { result: None, waker: state.waker }, Poll::Ready(r)),
        None => (SharedState { result: None, waker: Some(waker) }, Poll::Pending),
    }
}

/// What finishing with `result` makes of `state`, and the waker to call: the
/// outcome is stored in place of any earlier one, and the kept waker is taken out.
pub open spec fn finish_spec<T>(state: SharedState<T>, result: Result<T, Error>) -> (SharedState<T>, Option<Waker>) {
    (SharedState { result: Some(result), waker: None }, state.waker)
}

impl<T> Default for SharedState<T> {
    fn default() -> (state: Self)
        ensures
            state.result is None,
            state.waker is None,
    {
        SharedState { result: None, waker: None }
    }
}

impl<T> SharedState<T> {
    /// A state with no outcome and no waker.
    pub fn new() -> (state: Self)
        ensures
            state.result is None,
            state.waker is None,
    {
        SharedState { result: None, waker: None }
    }

    /// Asks for the outcome on behalf of the task that `waker` wakes.
    pub fn poll(&mut self, waker: Waker) -> (answer: Poll<Result<T, Error>>)
        ensures
            (*final(self), answer) == poll_spec(*old(self), waker),
    {
        match self.result.take() {
            Some(r) => Poll::Ready(r),
            None => {
                self.waker = Some(waker);
                Poll::Pending
            },
        }
    }

    /// Stores the outcome and returns the waker to call, if a task waits.
    pub fn finish(&mut self, result: Result<T, Error>) -> (to_wake: Option<Waker>)
        ensures
            (*final(self), to_wake) == finish_spec(*old(self), result),
    {
        self.result = Some(result);
        self.waker.take()
    }
}

/// Law: a poll after a finish hands over the outcome that the finish stored.
pub proof fn lemma_poll_after_finish<T>(state: SharedState<T>, result: Result<T, Error>, waker: Waker)
    ensures
        poll_spec(finish_spec(state, result).0, waker).1 == Poll::Ready(result),
        poll_spec(finish_spec(state, result).0, waker).0.result is None,
{
}

/// Law: an outcome is handed over once; the next poll with no finish between waits.
pub proof fn lemma_outcome_taken_once<T>(state: SharedState<T>, result: Result<T, Error>, w1: Waker, w2: Waker)
    ensures
        poll_spec(poll_spec(finish_spec(state, result).0, w1).0, w2).1 is Pending,
{
}

/// Law: a finish after a poll that found no outcome calls that poll's waker.
pub proof fn lemma_finish_wakes_waiting_task<T>(state: SharedState<T>, waker: Waker, result: Result<T, Error>)
    requires
        state.result is None,
    ensures
        finish_spec(poll_spec(state, waker).0, result).1 == Some(waker),
{
}

/// Law: of two finishes, the later outcome is the one handed over.
pub proof fn lemma_later_finish_wins<T>(state: SharedState<T>, r1: Result<T, Error>, r2: Result<T, Error>, waker: Waker)
    ensures
        poll_spec(finish_spec(finish_spec(state, r1).0, r2).0, waker).1 == Poll::Ready(r2),
{
}

} // verus!
