//! The commands that clients hand to the network event loop: what each asks the
//! transport to do, and how it reacts to the transport's answer and events.
use vstd::prelude::*;

use crate::error::{outcome_view, Error, ErrorView};
use crate::network::event::{Endpoint, SwarmEvent};
use crate::network::peer::PeerId;

verus! {

/// Open a connection to a peer.
#[derive(Debug)]
pub struct DialCommand {
    pub peer_id: PeerId,
}

/// Close the connections to a peer.
#[derive(Debug)]
pub struct CloseCommand {
    pub peer_id: PeerId,
}

/// A command of either kind.
#[derive(Debug)]
pub enum NetCommand {
    Dial(DialCommand),
    Close(CloseCommand),
}

/// An operation on the transport that starts a command.
#[derive(Debug)]
pub enum SwarmOp {
    /// Dial the peer.
    Dial(PeerId),
    /// Disconnect from the peer.
    Disconnect(PeerId),
}

/// How a dial towards `target` reacts to `event`: `None` while it keeps waiting,
/// else the outcome it finishes with.
pub open spec fn dial_reaction(target: Seq<char>, event: SwarmEvent) -> Option<Result<(), ErrorView>> {
    match event {
        SwarmEvent::ConnectionEstablished { peer_id, endpoint } => {
            if peer_id@ == target && endpoint is Dialer {
                Some(Ok(()))
            } else {
                None
            }
        },
        SwarmEvent::OutgoingConnectionError { peer_id, error } => {
            if peer_id is Some && peer_id->0@ == target {
                Some(Err(ErrorView::DialFailed { peer_id: target, reason: error@ }))
            } else {
                None
            }
        },
        _ => None,
    }
}

/// How closing the connections to `target` reacts to `event`.
pub open spec fn close_reaction(target: Seq<char>, event: SwarmEvent) -> Option<Result<(), ErrorView>> {
    match event {
        SwarmEvent::ConnectionClosed { peer_id } => {
            if peer_id@ == target {
                Some(Ok(()))
            } else {
                None
            }
        },
        _ => None,
    }
}

/// How `command` reacts to `event`.
pub open spec fn command_reaction(command: NetCommand, event: SwarmEvent) -> Option<Result<(), ErrorView>> {
    match command {
        NetCommand::Dial(d) => dial_reaction(d.peer_id@, event),
        NetCommand::Close(c) => close_reaction(c.peer_id@, event),
    }
}

/// What `command` finishes with once the transport answered its operation with
/// `answer` (the error text when it refused): `None` while it waits for events.
pub open spec fn run_reaction(command: NetCommand, answer: Result<(), Seq<char>>) -> Option<Result<(), ErrorView>> {
    match answer {
        Ok(()) => None,
        Err(reason) => match command {
            NetCommand::Dial(d) => Some(Err(ErrorView::DialFailed { peer_id: d.peer_id@, reason })),
            NetCommand::Close(c) => Some(Err(ErrorView::NoActiveConnection { peer_id: c.peer_id@ })),
        },
    }
}

/// The transport's answer as plain values.
pub open spec fn answer_view(answer: Result<(), String>) -> Result<(), Seq<char>> {
    match answer {
        Ok(()) => Ok(()),
        Err(e) => Err(e@),
    }
}

/// An outcome that may be absent, as plain values.
pub open spec fn finished_view(finished: Option<Result<(), Error>>) -> Option<Result<(), ErrorView>> {
    match finished {
        None => None,
        Some(outcome) => Some(outcome_view(outcome)),
    }
}

impl DialCommand {
    pub fn new(peer_id: PeerId) -> (command: DialCommand)
        ensures
            command.peer_id@ == peer_id@,
    {
        DialCommand { peer_id }
    }

    /// Reacts to an event: the dial succeeds once a connection to the peer is up
    /// that this node opened, and fails once an outgoing attempt to the peer failed.
    pub fn on_swarm_event(&self, event: &SwarmEvent) -> (finished: Option<Result<(), Error>>)
        ensures
            finished_view(finished) == dial_reaction(self.peer_id@, *event),
    {
        match event {
            SwarmEvent::ConnectionEstablished { peer_id, endpoint } => {
                let dialer = match endpoint {
                    Endpoint::Dialer => true,
                    Endpoint::Listener => false,
                };
                if peer_id.same_as(&self.peer_id) && dialer {
                    Some(Ok(()))
                } else {
                    None
                }
            },
            SwarmEvent::OutgoingConnectionError { peer_id: Some(peer_id), error } => {
                if peer_id.same_as(&self.peer_id) {
                    Some(Err(Error::DialFailed { peer_id: self.peer_id.duplicate(), reason: error.clone() }))
                } else {
                    None
                }
            },
            _ => None,
        }
    }
}

impl CloseCommand {
    pub fn new(peer_id: PeerId) -> (command: CloseCommand)
        ensures
            command.peer_id@ == peer_id@,
    {
        CloseCommand { peer_id }
    }

    /// Reacts to an event: the close succeeds once a connection to the peer closed.
    pub fn on_swarm_event(&self, event: &SwarmEvent) -> (finished: Option<Result<(), Error>>)
        ensures
            finished_view(finished) == close_reaction(self.peer_id@, *event),
    {
        match event {
            SwarmEvent::ConnectionClosed { peer_id } => {
                if peer_id.same_as(&self.peer_id) {
                    Some(Ok(()))
                } else {
                    None
                }
            },
            _ => None,
        }
    }
}

impl NetCommand {
    /// The transport operation that starts the command.
    pub fn operation(&self) -> (op: SwarmOp)
        ensures
            match (self, op) {
                (NetCommand::Dial(d), SwarmOp::Dial(p)) => p@ == d.peer_id@,
                (NetCommand::Close(c), SwarmOp::Disconnect(p)) => p@ == c.peer_id@,
                _ => false,
            },
    {
        match self {
            NetCommand::Dial(d) => SwarmOp::Dial(d.peer_id.duplicate()),
            NetCommand::Close(c) => SwarmOp::Disconnect(c.peer_id.duplicate()),
        }
    }

    /// What the command finishes with right after the transport answered its
    /// operation: a refused dial fails with the transport's reason, a refused
    /// disconnect fails for want of a connection; an accepted one waits for events.
    pub fn run(&self, answer: Result<(), String>) -> (finished: Option<Result<(), Error>>)
        ensures
            finished_view(finished) == run_reaction(*self, answer_view(answer)),
    {
        match answer {
            Ok(()) => None,
            Err(reason) => match self {
                NetCommand::Dial(d) => Some(Err(Error::DialFailed { peer_id: d.peer_id.duplicate(), reason })),
                NetCommand::Close(c) => Some(Err(Error::NoActiveConnection { peer_id: c.peer_id.duplicate() })),
            },
        }
    }

    /// Reacts to an event of the transport: `None` while the command keeps waiting.
    pub fn on_swarm_event(&self, event: &SwarmEvent) -> (finished: Option<Result<(), Error>>)
        ensures
            finished_view(finished) == command_reaction(*self, *event),
    {
        match self {
            NetCommand::Dial(d) => d.on_swarm_event(event),
            NetCommand::Close(c) => c.on_swarm_event(event),
        }
    }
}

/// Law: a dial finishes successfully on exactly the events that report a connection
/// that this node opened to the dial's own peer; a connection to another peer, or
/// one that the peer opened, leaves it waiting.
pub proof fn lemma_dial_succeeds_exactly_on_own_outgoing_connection(target: Seq<char>)
    ensures
        forall|e: SwarmEvent|
            (#[trigger] dial_reaction(target, e) == Some(Ok::<(), ErrorView>(())))
                <==> (e matches SwarmEvent::ConnectionEstablished { peer_id, endpoint } && peer_id@ == target
                && endpoint is Dialer),
        forall|p: PeerId, endpoint: Endpoint|
            p@ != target ==> (#[trigger] dial_reaction(target, SwarmEvent::ConnectionEstablished { peer_id: p, endpoint }))
                is None,
{
}

/// Law: a dial fails on exactly the events that report a failed outgoing attempt
/// to the dial's own peer, and the failure names that peer and carries the
/// transport's description of the attempt.
pub proof fn lemma_dial_fails_exactly_on_own_outgoing_error(target: Seq<char>)
    ensures
        forall|e: SwarmEvent|
            (#[trigger] dial_reaction(target, e) matches Some(Err(_)))
                <==> (e matches SwarmEvent::OutgoingConnectionError { peer_id, error } && peer_id is Some
                && peer_id->0@ == target),
        forall|e: SwarmEvent|
            #![trigger dial_reaction(target, e)]
            e matches SwarmEvent::OutgoingConnectionError { peer_id, error } ==> (peer_id is Some && peer_id->0@ == target
                ==> dial_reaction(target, e) == Some(Err::<(), ErrorView>(ErrorView::DialFailed { peer_id: target, reason: error@ }))),
{
}

/// Law: a dial finishes on no other event: every event that is neither an outgoing
/// connection to its peer nor a failed outgoing attempt to its peer, closed
/// connections and unrelated events among them, leaves it waiting.
pub proof fn lemma_dial_waits_on_other_events(target: Seq<char>)
    ensures
        forall|e: SwarmEvent|
            (#[trigger] dial_reaction(target, e)) is Some
                <==> ((e matches SwarmEvent::ConnectionEstablished { peer_id, endpoint } && peer_id@ == target
                && endpoint is Dialer) || (e matches SwarmEvent::OutgoingConnectionError { peer_id, error }
                && peer_id is Some && peer_id->0@ == target)),
        forall|p: PeerId| #[trigger] dial_reaction(target, SwarmEvent::ConnectionClosed { peer_id: p }) is None,
        dial_reaction(target, SwarmEvent::Other) is None,
{
}

/// Law: closing finishes, successfully, on exactly the events that report that a
/// connection to its own peer closed; every other event leaves it waiting.
pub proof fn lemma_close_finishes_exactly_on_own_closed_connection(target: Seq<char>)
    ensures
        forall|e: SwarmEvent|
            (#[trigger] close_reaction(target, e)) is Some
                <==> (e matches SwarmEvent::ConnectionClosed { peer_id } && peer_id@ == target),
        forall|e: SwarmEvent|
            (#[trigger] close_reaction(target, e)) is Some ==> close_reaction(target, e) == Some(Ok::<(), ErrorView>(())),
        forall|p: PeerId|
            p@ != target ==> (#[trigger] close_reaction(target, SwarmEvent::ConnectionClosed { peer_id: p })) is None,
{
}

/// Law: a command reacts to events as its kind says: a dial finishes only on an
/// outgoing connection to its peer (successfully) or a failed outgoing attempt to
/// its peer (with that failure), never on a closed connection; a close finishes
/// only, and successfully, on a closed connection to its peer.
pub proof fn lemma_command_reactions()
    ensures
        forall|d: DialCommand, e: SwarmEvent|
            (#[trigger] command_reaction(NetCommand::Dial(d), e) == Some(Ok::<(), ErrorView>(())))
                <==> (e matches SwarmEvent::ConnectionEstablished { peer_id, endpoint } && peer_id@ == d.peer_id@
                && endpoint is Dialer),
        forall|d: DialCommand, e: SwarmEvent|
            (#[trigger] command_reaction(NetCommand::Dial(d), e) matches Some(Err(_)))
                <==> (e matches SwarmEvent::OutgoingConnectionError { peer_id, error } && peer_id is Some
                && peer_id->0@ == d.peer_id@),
        forall|d: DialCommand, e: SwarmEvent|
            (e is ConnectionClosed || e is Other) ==> (#[trigger] command_reaction(NetCommand::Dial(d), e)) is None,
        forall|c: CloseCommand, e: SwarmEvent|
            (#[trigger] command_reaction(NetCommand::Close(c), e)) is Some
                <==> (e matches SwarmEvent::ConnectionClosed { peer_id } && peer_id@ == c.peer_id@),
        forall|c: CloseCommand, e: SwarmEvent|
            (#[trigger] command_reaction(NetCommand::Close(c), e)) is Some
                ==> command_reaction(NetCommand::Close(c), e) == Some(Ok::<(), ErrorView>(())),
{
}

/// Law: an operation that the transport accepted finishes no command; a refused
/// dial fails naming its own peer and the transport's reason, and a refused
/// disconnect fails for want of a connection to its own peer.
pub proof fn lemma_run_reactions()
    ensures
        forall|c: NetCommand| #[trigger] run_reaction(c, Ok(())) is None,
        forall|d: DialCommand, reason: Seq<char>|
            #[trigger] run_reaction(NetCommand::Dial(d), Err(reason)) == Some(
                Err::<(), ErrorView>(ErrorView::DialFailed { peer_id: d.peer_id@, reason }),
            ),
        forall|c: CloseCommand, reason: Seq<char>|
            #[trigger] run_reaction(NetCommand::Close(c), Err(reason)) == Some(
                Err::<(), ErrorView>(ErrorView::NoActiveConnection { peer_id: c.peer_id@ }),
            ),
{
}

} // verus!
