//! The bookkeeping of the network event loop: which commands are waiting, and
//! which of them each event of the transport finishes.
use vstd::prelude::*;

use crate::error::{outcome_view, Error, ErrorView};
use crate::network::command::{answer_view, command_reaction, finished_view, run_reaction, NetCommand};
use crate::network::event::SwarmEvent;

verus! {

/// A command that waits for events, with the handle its outcome goes to.
#[derive(Debug)]
pub struct ActiveCommand<H> {
    pub command: NetCommand,
    pub handle: H,
}

/// The outcome of a command that left the loop, with the command's handle.
#[derive(Debug)]
pub struct Completion<H> {
    pub handle: H,
    pub result: Result<(), Error>,
}

/// A completion as plain values.
pub open spec fn completion_view<H>(c: Completion<H>) -> (H, Result<(), ErrorView>) {
    (c.handle, outcome_view(c.result))
}

/// The commands that wait for events of the transport, each with the handle that
/// its outcome goes to.
#[derive(Debug)]
pub struct EventLoop<H> {
    pub active: Vec<ActiveCommand<H>>,
}

/// One pass over `active` from position `i` on, as the event loop makes it for
/// `event`: a command that keeps waiting stays in place and the pass moves on;
/// a command that finishes gives a completion and is replaced by the last
/// command. The result is the commands left and the completions, in order.
pub open spec fn sweep<H>(active: Seq<ActiveCommand<H>>, i: int, event: SwarmEvent) -> (Seq<ActiveCommand<H>>, Seq<(H, Result<(), ErrorView>)>)
    decreases active.len() - i,
{
    if i < 0 || active.len() <= i {
        (active, Seq::empty())
    } else {
        match command_reaction(active[i].command, event) {
            None => sweep(active, i + 1, event),
            Some(outcome) => {
                let rest = sweep(active.update(i, active.last()).drop_last(), i, event);
                (rest.0, seq![(active[i].handle, outcome)] + rest.1)
            },
        }
    }
}

/// Whether a command keeps waiting after `event`.
pub open spec fn keeps_waiting<H>(event: SwarmEvent) -> spec_fn(ActiveCommand<H>) -> bool {
    |a: ActiveCommand<H>| command_reaction(a.command, event) is None
}

/// The completion that `event` gives of a command, if it finishes it.
pub open spec fn completion_for<H>(event: SwarmEvent) -> spec_fn(ActiveCommand<H>) -> Option<(H, Result<(), ErrorView>)> {
    |a: ActiveCommand<H>|
        match command_reaction(a.command, event) {
            Some(outcome) => Some((a.handle, outcome)),
            None => None,
        }
}

proof fn lemma_filter_map_concat<A, B>(a: Seq<A>, b: Seq<A>, f: spec_fn(A) -> Option<B>)
    ensures
        (a + b).filter_map(f) =~= a.filter_map(f) + b.filter_map(f),
    decreases b.len(),
{
    if b.len() == 0 {
        assert(a + b =~= a);
    } else {
        lemma_filter_map_concat(a, b.drop_last(), f);
        assert((a + b).drop_last() =~= a + b.drop_last());
        assert((a + b).last() == b.last());
    }
}

proof fn lemma_singleton_filter<A>(x: A, p: spec_fn(A) -> bool)
    ensures
        seq![x].filter(p) =~= (if p(x) { seq![x] } else { Seq::empty() }),
{
    reveal(Seq::filter);
    assert(seq![x].drop_last() =~= Seq::<A>::empty());
    assert(Seq::<A>::empty().filter(p) =~= Seq::<A>::empty());
}

proof fn lemma_singleton_filter_map<A, B>(x: A, f: spec_fn(A) -> Option<B>)
    ensures
        seq![x].filter_map(f) =~= (match f(x) { Some(y) => seq![y], None => Seq::empty() }),
{
    assert(seq![x].drop_last() =~= Seq::<A>::empty());
    assert(Seq::<A>::empty().filter_map(f) =~= Seq::<B>::empty());
    assert(seq![x].last() == x);
    match f(x) {
        Some(y) => assert(Seq::<B>::empty() + seq![y] =~= seq![y]),
        None => {},
    }
}

/// The pass of `sweep` from position `i` on, when every command before `i` keeps
/// waiting, leaves the commands before `i` and those after that keep waiting, and
/// completes each command after `i` that finishes.
proof fn lemma_sweep_from<H>(s: Seq<ActiveCommand<H>>, i: int, event: SwarmEvent)
    requires
        0 <= i <= s.len(),
        forall|j: int| 0 <= j < i ==> #[trigger] keeps_waiting(event)(s[j]),
    ensures
        sweep(s, i, event).0.to_multiset() =~= (s.take(i) + s.skip(i).filter(keeps_waiting(event))).to_multiset(),
        sweep(s, i, event).1.to_multiset() =~= s.skip(i).filter_map(completion_for(event)).to_multiset(),
    decreases s.len() - i,
{
    broadcast use vstd::seq_lib::lemma_multiset_commutative;
    broadcast use Seq::filter_distributes_over_add;

    let w = keeps_waiting(event);
    let f = completion_for(event);
    if i == s.len() {
        assert(s.take(i) =~= s);
        assert(s.skip(i) =~= Seq::<ActiveCommand<H>>::empty());
        reveal(Seq::filter);
        assert(Seq::<ActiveCommand<H>>::empty().filter(w) =~= Seq::<ActiveCommand<H>>::empty());
        assert(s + Seq::<ActiveCommand<H>>::empty() =~= s);
    } else {
        let x = s[i];
        assert(s.skip(i) =~= seq![x] + s.skip(i + 1));
        lemma_filter_map_concat(seq![x], s.skip(i + 1), f);
        lemma_singleton_filter_map(x, f);
        lemma_singleton_filter(x, w);
        if w(x) {
            lemma_sweep_from(s, i + 1, event);
            assert(s.take(i + 1) =~= s.take(i) + seq![x]);
            assert(s.take(i + 1) + s.skip(i + 1).filter(w) =~= s.take(i) + (seq![x] + s.skip(i + 1).filter(w)));
            assert(seq![x].filter_map(f) =~= Seq::empty());
            assert(s.skip(i).filter_map(f) =~= s.skip(i + 1).filter_map(f));
        } else {
            let t = s.update(i, s.last()).drop_last();
            assert forall|j: int| 0 <= j < i implies #[trigger] keeps_waiting(event)(t[j]) by {
                assert(t[j] == s[j]);
            }
            lemma_sweep_from(t, i, event);
            assert(t.take(i) =~= s.take(i));
            let o = command_reaction(x.command, event)->0;
            assert(seq![x].filter_map(f) =~= seq![(x.handle, o)]);
            assert(seq![x].filter(w) =~= Seq::<ActiveCommand<H>>::empty());
            assert(s.skip(i).filter(w) =~= s.skip(i + 1).filter(w));
            if i == s.len() - 1 {
                assert(t.skip(i) =~= Seq::<ActiveCommand<H>>::empty());
                assert(s.skip(i + 1) =~= Seq::<ActiveCommand<H>>::empty());
            } else {
                let mid = s.subrange(i + 1, s.len() - 1);
                let last = s.last();
                assert(t.skip(i) =~= seq![last] + mid);
                assert(s.skip(i + 1) =~= mid + seq![last]);
                lemma_filter_map_concat(seq![last], mid, f);
                lemma_filter_map_concat(mid, seq![last], f);
                assert((seq![last] + mid).filter(w).to_multiset() =~= (mid + seq![last]).filter(w).to_multiset());
                assert((seq![last] + mid).filter_map(f).to_multiset() =~= (mid + seq![last]).filter_map(f).to_multiset());
            }
            assert(sweep(s, i, event).1 == seq![(x.handle, o)] + sweep(t, i, event).1);
        }
    }
}

/// Law of `handle_event`: the commands left waiting are, up to order, exactly those
/// of before that keep waiting on the event, and the completions are, up to order,
/// exactly one for each command that the event finishes, with its outcome.
pub proof fn lemma_handle_event_partition<H>(active: Seq<ActiveCommand<H>>, event: SwarmEvent)
    ensures
        sweep(active, 0, event).0.to_multiset() == active.filter(keeps_waiting(event)).to_multiset(),
        sweep(active, 0, event).1.to_multiset() == active.filter_map(completion_for(event)).to_multiset(),
{
    lemma_sweep_from(active, 0, event);
    assert(active.skip(0) =~= active);
    assert(active.take(0) =~= Seq::<ActiveCommand<H>>::empty());
    assert(active.take(0) + active.skip(0).filter(keeps_waiting(event)) =~= active.filter(keeps_waiting(event)));
}

impl<H> EventLoop<H> {
    /// An event loop with no command waiting.
    pub fn new() -> (l: EventLoop<H>)
        ensures
            l.active@ == Seq::<ActiveCommand<H>>::empty(),
    {
        EventLoop { active: Vec::new() }
    }

    /// Takes in `command`, whose outcome goes to `handle`, once the transport
    /// answered its operation with `answer`: the command joins the waiting ones
    /// (also when the answer finished it), and the outcome that the answer calls
    /// for, if any, is returned for the handle.
    pub fn handle_command(&mut self, command: NetCommand, handle: H, answer: Result<(), String>) -> (finished: Option<Result<(), Error>>)
        ensures
            final(self).active@ == old(self).active@.push(ActiveCommand { command, handle }),
            finished_view(finished) == run_reaction(command, answer_view(answer)),
    {
        let finished = command.run(answer);
        self.active.push(ActiveCommand { command, handle });
        finished
    }

    /// Hands `event` to every waiting command; those that finish leave the loop,
    /// and their completions are returned.
    pub fn handle_event(&mut self, event: &SwarmEvent) -> (done: Vec<Completion<H>>)
        ensures
            final(self).active@ == sweep(old(self).active@, 0, *event).0,
            done@.map_values(|c: Completion<H>| completion_view(c)) == sweep(old(self).active@, 0, *event).1,
    {
        let mut done: Vec<Completion<H>> = Vec::new();
        let mut i: usize = 0;
        while i < self.active.len()
            invariant
                i <= self.active.len(),
                sweep(old(self).active@, 0, *event).0 == sweep(self.active@, i as int, *event).0,
                sweep(old(self).active@, 0, *event).1 == done@.map_values(|c: Completion<H>| completion_view(c))
                    + sweep(self.active@, i as int, *event).1,
            decreases self.active.len() - i,
        {
            let finished = self.active[i].command.on_swarm_event(event);
            match finished {
                None => {
                    i = i + 1;
                },
                Some(result) => {
                    let ghost before = self.active@;
                    let ghost d0 = done@.map_values(|c: Completion<H>| completion_view(c));
                    let removed = self.active.swap_remove(i);
                    done.push(Completion { handle: removed.handle, result });
                    assert(done@.map_values(|c: Completion<H>| completion_view(c)) =~= d0 + seq![(before[i as int].handle, command_reaction(before[i as int].command, *event)->0)]);
                    assert(self.active@ == before.update(i as int, before.last()).drop_last());
                },
            }
        }
        done
    }
}

} // verus!
