use std::task::Waker;

use filo::error::Error;
use filo::network::command::{CloseCommand, DialCommand, NetCommand, SwarmOp};
use filo::network::event::{Endpoint, SwarmEvent};
use filo::network::event_loop::EventLoop;
use filo::network::future::{CommandFuture, FutureStep};
use filo::network::peer::PeerId;
use filo::network::shared::{Poll, SharedState};

fn peer(s: &str) -> PeerId {
    PeerId::new(s.to_string())
}

fn established(p: &str, endpoint: Endpoint) -> SwarmEvent {
    SwarmEvent::ConnectionEstablished { peer_id: peer(p), endpoint }
}

fn dial(p: &str) -> NetCommand {
    NetCommand::Dial(DialCommand::new(peer(p)))
}

fn close(p: &str) -> NetCommand {
    NetCommand::Close(CloseCommand::new(peer(p)))
}

#[test]
fn dial_succeeds_on_own_outgoing_connection() {
    let d = DialCommand::new(peer("A"));
    assert!(matches!(d.on_swarm_event(&established("A", Endpoint::Dialer)), Some(Ok(()))));
    assert!(d.on_swarm_event(&established("A", Endpoint::Listener)).is_none());
    assert!(d.on_swarm_event(&established("B", Endpoint::Dialer)).is_none());
    assert!(d.on_swarm_event(&SwarmEvent::Other).is_none());
    assert!(d.on_swarm_event(&SwarmEvent::ConnectionClosed { peer_id: peer("A") }).is_none());
}

#[test]
fn dial_fails_on_outgoing_error_for_its_peer() {
    let d = DialCommand::new(peer("A"));
    let ev = SwarmEvent::OutgoingConnectionError { peer_id: Some(peer("A")), error: "refused".to_string() };
    match d.on_swarm_event(&ev) {
        Some(Err(Error::DialFailed { peer_id, reason })) => {
            assert_eq!(peer_id.as_str(), "A");
            assert_eq!(reason, "refused");
        }
        other => panic!("unexpected {:?}", other),
    }
    let unknown = SwarmEvent::OutgoingConnectionError { peer_id: None, error: "x".to_string() };
    assert!(d.on_swarm_event(&unknown).is_none());
    let other = SwarmEvent::OutgoingConnectionError { peer_id: Some(peer("B")), error: "x".to_string() };
    assert!(d.on_swarm_event(&other).is_none());
}

#[test]
fn close_succeeds_when_connection_closes() {
    let c = CloseCommand::new(peer("A"));
    assert!(matches!(c.on_swarm_event(&SwarmEvent::ConnectionClosed { peer_id: peer("A") }), Some(Ok(()))));
    assert!(c.on_swarm_event(&SwarmEvent::ConnectionClosed { peer_id: peer("B") }).is_none());
    assert!(c.on_swarm_event(&established("A", Endpoint::Dialer)).is_none());
}

#[test]
fn operations_and_refusals() {
    assert!(matches!(dial("A").operation(), SwarmOp::Dial(p) if p.as_str() == "A"));
    assert!(matches!(close("B").operation(), SwarmOp::Disconnect(p) if p.as_str() == "B"));
    assert!(dial("A").run(Ok(())).is_none());
    assert!(close("A").run(Ok(())).is_none());
    match dial("A").run(Err("no addresses".to_string())) {
        Some(Err(Error::DialFailed { peer_id, reason })) => {
            assert_eq!(peer_id.as_str(), "A");
            assert_eq!(reason, "no addresses");
        }
        other => panic!("unexpected {:?}", other),
    }
    match close("A").run(Err(String::new())) {
        Some(Err(Error::NoActiveConnection { peer_id })) => assert_eq!(peer_id.as_str(), "A"),
        other => panic!("unexpected {:?}", other),
    }
}

#[test]
fn event_loop_keeps_refused_commands_waiting() {
    let mut l: EventLoop<u64> = EventLoop::new();
    let done = l.handle_command(dial("A"), 7, Err("bad".to_string()));
    assert!(matches!(done, Some(Err(Error::DialFailed { .. }))));
    assert_eq!(l.active.len(), 1);
    assert!(l.handle_command(close("B"), 8, Ok(())).is_none());
    assert_eq!(l.active.len(), 2);
    assert_eq!(l.active[1].handle, 8);
}

#[test]
fn refused_dial_can_finish_again_on_its_event() {
    let mut l: EventLoop<u64> = EventLoop::new();
    assert!(l.handle_command(dial("A"), 7, Err("bad".to_string())).is_some());
    let ev = SwarmEvent::OutgoingConnectionError { peer_id: Some(peer("A")), error: "later".to_string() };
    let done = l.handle_event(&ev);
    assert_eq!(done.len(), 1);
    assert_eq!(done[0].handle, 7);
    assert!(l.active.is_empty());
}

#[test]
fn event_loop_removes_finished_commands_by_swapping_in_the_last() {
    let mut l: EventLoop<u64> = EventLoop::new();
    l.handle_command(dial("A"), 1, Ok(()));
    l.handle_command(dial("B"), 2, Ok(()));
    l.handle_command(close("C"), 3, Ok(()));
    l.handle_command(dial("D"), 4, Ok(()));
    let done = l.handle_event(&established("A", Endpoint::Dialer));
    assert_eq!(done.len(), 1);
    assert_eq!(done[0].handle, 1);
    assert!(done[0].result.is_ok());
    let handles: Vec<u64> = l.active.iter().map(|a| a.handle).collect();
    assert_eq!(handles, vec![4, 2, 3]);
    let none = l.handle_event(&SwarmEvent::Other);
    assert!(none.is_empty());
    assert_eq!(l.active.len(), 3);
}

#[test]
fn one_event_can_finish_several_commands() {
    let mut l: EventLoop<&str> = EventLoop::new();
    l.handle_command(dial("A"), "first", Ok(()));
    l.handle_command(close("B"), "second", Ok(()));
    l.handle_command(dial("A"), "third", Ok(()));
    l.handle_command(dial("A"), "fourth", Ok(()));
    let ev = SwarmEvent::OutgoingConnectionError { peer_id: Some(peer("A")), error: "e".to_string() };
    let done = l.handle_event(&ev);
    let handles: Vec<&str> = done.iter().map(|c| c.handle).collect();
    assert_eq!(handles, vec!["first", "fourth", "third"]);
    assert!(done.iter().all(|c| matches!(c.result, Err(Error::DialFailed { .. }))));
    assert_eq!(l.active.len(), 1);
    assert_eq!(l.active[0].handle, "second");
}

#[test]
fn close_completes_on_connection_closed_in_the_loop() {
    let mut l: EventLoop<u64> = EventLoop::new();
    l.handle_command(close("B"), 5, Ok(()));
    assert!(l.handle_event(&established("B", Endpoint::Dialer)).is_empty());
    let done = l.handle_event(&SwarmEvent::ConnectionClosed { peer_id: peer("B") });
    assert_eq!(done.len(), 1);
    assert!(matches!(done[0].result, Ok(())));
    assert!(l.active.is_empty());
}

#[test]
fn shared_state_hands_over_the_outcome_once() {
    let mut s: SharedState<u32> = SharedState::new();
    assert!(matches!(s.poll(Waker::noop().clone()), Poll::Pending));
    assert!(s.waker.is_some());
    let woken = s.finish(Ok(5));
    assert!(woken.is_some());
    assert!(s.waker.is_none());
    assert!(matches!(s.poll(Waker::noop().clone()), Poll::Ready(Ok(5))));
    assert!(matches!(s.poll(Waker::noop().clone()), Poll::Pending));
}

#[test]
fn shared_state_later_finish_wins() {
    let mut s: SharedState<u32> = SharedState::default();
    assert!(s.finish(Ok(1)).is_none());
    assert!(s.finish(Err(Error::CommandChannelClosed)).is_none());
    assert!(matches!(s.poll(Waker::noop().clone()), Poll::Ready(Err(Error::CommandChannelClosed))));
}

#[test]
fn command_future_submits_once() {
    let mut f = CommandFuture::new(dial("A"));
    assert!(matches!(f.poll(), FutureStep::Submit(NetCommand::Dial(_))));
    assert!(matches!(f.poll(), FutureStep::AwaitResult));
    assert!(matches!(f.poll(), FutureStep::AwaitResult));
    let mut state: SharedState<()> = SharedState::new();
    assert!(matches!(CommandFuture::submitted(false, &mut state, Waker::noop().clone()), Poll::Ready(Err(Error::CommandChannelClosed))));
    assert!(state.waker.is_none());
}

#[test]
fn sending_poll_keeps_the_waker_for_the_outcome() {
    let mut state: SharedState<()> = SharedState::new();
    assert!(matches!(CommandFuture::submitted(true, &mut state, Waker::noop().clone()), Poll::Pending));
    assert!(state.waker.is_some());
    let woken = state.finish(Ok(()));
    assert!(woken.is_some());
    assert!(matches!(state.poll(Waker::noop().clone()), Poll::Ready(Ok(()))));
}

#[test]
fn sending_poll_takes_an_outcome_that_came_first() {
    let mut state: SharedState<()> = SharedState::new();
    assert!(state.finish(Err(Error::CommandChannelClosed)).is_none());
    assert!(matches!(CommandFuture::submitted(true, &mut state, Waker::noop().clone()), Poll::Ready(Err(Error::CommandChannelClosed))));
}

#[test]
fn peer_ids_compare_by_text() {
    assert!(peer("A").same_as(&peer("A")));
    assert!(!peer("A").same_as(&peer("B")));
    assert_eq!(peer("Q").duplicate().as_str(), "Q");
}
