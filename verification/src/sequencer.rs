//! Sample-accurate event sequencer: a bounded list of timestamped events that
//! is played back one sample tick at a time.

use crate::synth::SynthParameter;
use crate::MAX_EVENTS;
use vstd::prelude::*;

verus! {

/// A command for a synthesizer voice. Numeric values are carried as
/// IEEE-754 single-precision bit patterns, which the library never decodes.
#[derive(Clone, Copy, Debug, PartialEq, Eq, Structural)]
pub enum SequencerEvent {
    /// Start a note of frequency `note_freq` (Hz) with loudness `velocity`.
    NoteOn { note_freq: u32, velocity: u32 },
    /// End the current note.
    NoteOff,
    /// Change one voice parameter.
    ParamChange(SynthParameter),
    /// The pattern is over: the tick that dispatches it reports the pattern inactive.
    EndOfPattern,
    /// No command.
    NoOp,
}

/// An event together with the sample tick at which it is due.
#[derive(Clone, Copy, Debug, PartialEq, Eq, Structural)]
pub struct EventNode {
    pub timestamp: usize,
    pub event: SequencerEvent,
}

impl Default for EventNode {
    /// An inert event at tick zero.
    fn default() -> (r: Self)
        ensures
            r == (EventNode { timestamp: 0, event: SequencerEvent::NoOp }),
    {
        EventNode { timestamp: 0, event: SequencerEvent::NoOp }
    }
}

/// The commands that handling `nodes` in order at tick `t` hands to the voice:
/// the events due exactly at `t`, but for end-of-pattern markers, in their order.
pub open spec fn playable(nodes: Seq<EventNode>, t: nat) -> Seq<SequencerEvent>
    decreases nodes.len(),
{
    if nodes.len() == 0 {
        Seq::empty()
    } else {
        let rest = playable(nodes.drop_last(), t);
        let n = nodes.last();
        if n.timestamp == t && n.event != SequencerEvent::EndOfPattern {
            rest.push(n.event)
        } else {
            rest
        }
    }
}

/// Whether `nodes` holds an end-of-pattern marker due exactly at tick `t`.
pub open spec fn has_end(nodes: Seq<EventNode>, t: nat) -> bool {
    exists|i: int|
        0 <= i < nodes.len() && #[trigger] nodes[i].event == SequencerEvent::EndOfPattern
            && nodes[i].timestamp == t
}

/// Whether a node is a command for the voice due exactly at tick `t`.
pub open spec fn sounds_at(t: nat) -> spec_fn(EventNode) -> bool {
    |n: EventNode| n.timestamp == t && n.event != SequencerEvent::EndOfPattern
}

/// The event a node carries.
pub open spec fn event_of() -> spec_fn(EventNode) -> SequencerEvent {
    |n: EventNode| n.event
}

/// The commands handed on at tick `t` are exactly the nodes of `nodes` due at
/// `t` that are not end-of-pattern markers, in their order, taken by their event.
pub proof fn lemma_playable_is_filtered(nodes: Seq<EventNode>, t: nat)
    ensures
        playable(nodes, t) == nodes.filter(sounds_at(t)).map_values(event_of()),
    decreases nodes.len(),
{
    reveal(Seq::filter);
    if nodes.len() > 0 {
        lemma_playable_is_filtered(nodes.drop_last(), t);
        let sub = nodes.drop_last().filter(sounds_at(t));
        if sounds_at(t)(nodes.last()) {
            assert(sub.push(nodes.last()).map_values(event_of()) =~= sub.map_values(
                event_of(),
            ).push(nodes.last().event));
        }
    }
}

/// Whether the timestamps of `nodes` never decrease from index `start` on.
pub open spec fn sorted_from(nodes: Seq<EventNode>, start: int) -> bool {
    forall|i: int, j: int|
        start <= i <= j < nodes.len() ==> #[trigger] nodes[i].timestamp <= #[trigger] nodes[j].timestamp
}

/// Where an event due at `t` goes among `nodes` when it is placed no earlier
/// than index `from`: before the first node from `from` on that is due after
/// `t`, or at the end if there is none. Events due at the same tick thus keep
/// the order in which they were added.
pub open spec fn insertion_point(nodes: Seq<EventNode>, from: int, t: usize) -> int
    decreases nodes.len() - from,
{
    if from < 0 || from >= nodes.len() || nodes[from].timestamp > t {
        from
    } else {
        insertion_point(nodes, from + 1, t)
    }
}

/// Plays timestamped events back, one sample tick at a time. The events not
/// yet dispatched are kept ordered by timestamp, whatever order they were
/// added in.
pub struct Sequencer {
    events: Vec<EventNode>,
    current_index: usize,
    sample_counter: usize,
}

impl Sequencer {
    /// The stored events: first those the cursor has passed, in order, then
    /// the pending ones.
    pub closed spec fn events(&self) -> Seq<EventNode> {
        self.events@
    }

    /// How many events the cursor has passed: the index of the first pending one.
    pub closed spec fn cursor(&self) -> nat {
        self.current_index as nat
    }

    /// How many ticks have been processed: the tick the next call processes.
    pub closed spec fn clock(&self) -> nat {
        self.sample_counter as nat
    }

    /// The events the cursor has passed so far, in order: each was either
    /// dispatched on the tick equal to its timestamp or, being overdue when
    /// the cursor reached it, passed over.
    pub open spec fn passed(&self) -> Seq<EventNode> {
        self.events().subrange(0, self.cursor() as int)
    }

    /// The sequencer holds at most `MAX_EVENTS` events, its cursor stands within
    /// them, every passed event was due before the current tick, and the
    /// pending events are ordered by timestamp.
    pub open spec fn wf(&self) -> bool {
        &&& self.events().len() <= MAX_EVENTS
        &&& self.cursor() <= self.events().len()
        &&& forall|i: int| 0 <= i < self.cursor() ==> #[trigger] self.events()[i].timestamp < self.clock()
        &&& sorted_from(self.events(), self.cursor() as int)
    }

    /// No pending event is overdue: each is due at or after the current tick.
    pub open spec fn in_sync(&self) -> bool {
        forall|i: int|
            self.cursor() <= i < self.events().len() ==> #[trigger] self.events()[i].timestamp
                >= self.clock()
    }

    /// `post` follows `pre` by one tick: same events, clock one further, and the
    /// events between the two cursors appended to the passed ones.
    pub open spec fn tick_step(pre: Sequencer, post: Sequencer) -> bool {
        &&& post.wf()
        &&& post.events() == pre.events()
        &&& post.clock() == pre.clock() + 1
        &&& pre.cursor() <= post.cursor()
        &&& post.passed() == pre.passed() + pre.events().subrange(
            pre.cursor() as int,
            post.cursor() as int,
        )
    }

    /// `post` follows `pre` by adding an event: same clock, same cursor, same
    /// passed events.
    pub open spec fn add_step(pre: Sequencer, post: Sequencer) -> bool {
        &&& post.wf()
        &&& post.clock() == pre.clock()
        &&& post.cursor() == pre.cursor()
        &&& post.passed() == pre.passed()
    }

    /// An empty sequencer at tick zero, with room for `MAX_EVENTS` events
    /// reserved up front.
    pub fn new() -> (r: Self)
        ensures
            r.wf(),
            r.in_sync(),
            r.events() == Seq::<EventNode>::empty(),
            r.cursor() == 0,
            r.clock() == 0,
    {
        Sequencer { events: Vec::with_capacity(MAX_EVENTS), current_index: 0, sample_counter: 0 }
    }

    /// The tick that the next call of `process_tick` processes.
    pub fn sample_counter(&self) -> (r: usize)
        ensures
            r == self.clock(),
    {
        self.sample_counter
    }

    /// Schedules `event` for tick `timestamp`: it is placed among the pending
    /// events after every one due at or before `timestamp` and before every one
    /// due after it. If the sequencer already holds `MAX_EVENTS` events, the
    /// event is dropped.
    #[verifier::rlimit(30)]
    pub fn add_event(&mut self, timestamp: usize, event: SequencerEvent)
        requires
            old(self).wf(),
        ensures
            final(self).wf(),
            final(self).cursor() == old(self).cursor(),
            final(self).clock() == old(self).clock(),
            final(self).passed() == old(self).passed(),
            old(self).events().len() < MAX_EVENTS ==> final(self).events() == old(self).events().insert(
                insertion_point(old(self).events(), old(self).cursor() as int, timestamp),
                EventNode { timestamp, event },
            ),
            old(self).events().len() < MAX_EVENTS ==> exists|p: int|
                old(self).cursor() <= p <= old(self).events().len() && #[trigger] final(self).events()[p]
                    == (EventNode { timestamp, event }) && final(self).events() == old(self).events().insert(
                    p,
                    EventNode { timestamp, event },
                ) && (forall|i: int|
                    old(self).cursor() <= i < p ==> #[trigger] final(self).events()[i].timestamp
                        <= timestamp) && (forall|i: int|
                    p < i < final(self).events().len() ==> #[trigger] final(self).events()[i].timestamp
                        > timestamp),
            old(self).events().len() >= MAX_EVENTS ==> final(self).events() == old(self).events(),
            old(self).in_sync() && timestamp >= old(self).clock() ==> final(self).in_sync(),
            Sequencer::add_step(*old(self), *final(self)),
    {
        if self.events.len() < MAX_EVENTS {
            let ghost evs = self.events@;
            let ghost c = self.current_index as int;
            let mut p = self.current_index;
            while p < self.events.len() && self.events[p].timestamp <= timestamp
                invariant
                    self.events@ == evs,
                    self.current_index == c,
                    c <= p <= evs.len(),
                    forall|i: int| c <= i < p ==> #[trigger] evs[i].timestamp <= timestamp,
                    insertion_point(evs, c, timestamp) == insertion_point(evs, p as int, timestamp),
                decreases evs.len() - p,
            {
                p = p + 1;
            }
            assert(insertion_point(evs, p as int, timestamp) == p);
            let node = EventNode { timestamp, event };
            self.events.insert(p, node);
            let ghost nevs = self.events@;
            assert(nevs.len() == evs.len() + 1);
            assert forall|i: int| 0 <= i < c implies nevs[i] == evs[i] by {}
            assert(self.passed() =~= old(self).passed());
            assert(nevs[p as int] == node);
            assert forall|i: int| c <= i < p implies #[trigger] nevs[i].timestamp <= timestamp by {
                assert(nevs[i] == evs[i]);
            }
            assert forall|i: int| p < i < nevs.len() implies #[trigger] nevs[i].timestamp
                > timestamp by {
                assert(nevs[i] == evs[i - 1]);
                assert(evs[p as int].timestamp <= evs[i - 1].timestamp);
            }
            assert forall|i: int, j: int|
                c <= i <= j < nevs.len() implies #[trigger] nevs[i].timestamp
                <= #[trigger] nevs[j].timestamp by {
                if i < p && j < p {
                    assert(nevs[i] == evs[i] && nevs[j] == evs[j]);
                } else if i < p && j == p {
                    assert(nevs[i] == evs[i]);
                } else if i < p {
                    assert(nevs[i] == evs[i] && nevs[j] == evs[j - 1]);
                } else if i == p && j == p {
                } else if i == p {
                    assert(nevs[j] == evs[j - 1]);
                    assert(evs[p as int].timestamp > timestamp);
                    assert(evs[p as int].timestamp <= evs[j - 1].timestamp);
                } else {
                    assert(nevs[i] == evs[i - 1] && nevs[j] == evs[j - 1]);
                }
            }
        }
    }

    /// Processes one sample tick. The cursor passes, in order, every pending
    /// event due at or before the current tick, stopping at the first one due
    /// later. Of those, the events due exactly at the current tick are
    /// dispatched: those that are commands for the voice (all but end-of-pattern
    /// markers) are appended to `due`. Overdue ones (added after their tick had
    /// gone) are passed over unseen. Then the clock advances by one. Returns
    /// `false` exactly when an end-of-pattern marker was dispatched.
    pub fn process_tick(&mut self, due: &mut Vec<SequencerEvent>) -> (active: bool)
        requires
            old(self).wf(),
            old(self).clock() < usize::MAX,
        ensures
            final(self).wf(),
            final(self).events() == old(self).events(),
            final(self).clock() == old(self).clock() + 1,
            old(self).cursor() <= final(self).cursor(),
            forall|i: int|
                old(self).cursor() <= i < final(self).cursor() ==> #[trigger] old(self).events()[i].timestamp
                    <= old(self).clock(),
            final(self).cursor() == old(self).events().len() || old(self).events()[final(self).cursor() as int].timestamp
                > old(self).clock(),
            final(due)@ == old(due)@ + playable(
                old(self).events().subrange(old(self).cursor() as int, final(self).cursor() as int),
                old(self).clock(),
            ),
            active == !has_end(
                old(self).events().subrange(old(self).cursor() as int, final(self).cursor() as int),
                old(self).clock(),
            ),
            final(due)@ == old(due)@ + old(self).events().subrange(
                old(self).cursor() as int,
                final(self).cursor() as int,
            ).filter(sounds_at(old(self).clock())).map_values(event_of()),
            active <==> !(exists|i: int|
                old(self).cursor() <= i < final(self).cursor() && #[trigger] old(self).events()[i].event
                    == SequencerEvent::EndOfPattern && old(self).events()[i].timestamp == old(self).clock()),
            final(self).in_sync(),
            Sequencer::tick_step(*old(self), *final(self)),
            old(self).in_sync() ==> forall|i: int|
                old(self).cursor() <= i < old(self).events().len() ==> (i < final(self).cursor()
                    <==> #[trigger] old(self).events()[i].timestamp == old(self).clock()),
    {
        let mut active = true;
        let first = self.current_index;
        let now = self.sample_counter;
        let ghost evs = self.events@;
        let ghost start = first as int;
        let ghost due0 = due@;
        let ghost clk = now as nat;
        let mut idx = first;
        while idx < self.events.len() && self.events[idx].timestamp <= now
            invariant
                self.events@ == evs,
                evs.len() <= MAX_EVENTS,
                start == first as int,
                clk == now as nat,
                first <= idx <= evs.len(),
                forall|i: int| start <= i < idx ==> #[trigger] evs[i].timestamp <= clk,
                due@ == due0 + playable(evs.subrange(start, idx as int), clk),
                active == !has_end(evs.subrange(start, idx as int), clk),
            decreases evs.len() - idx,
        {
            let node = self.events[idx];
            let ghost ci = idx as int;
            let ghost before = evs.subrange(start, ci);
            let ghost after = evs.subrange(start, ci + 1);
            assert(after.drop_last() =~= before);
            assert(after.last() == evs[ci]);
            if node.timestamp == now {
                if let SequencerEvent::EndOfPattern = node.event {
                    active = false;
                    assert(after[ci - start].event == SequencerEvent::EndOfPattern);
                } else {
                    due.push(node.event);
                }
            }
            assert(has_end(after, clk) ==> has_end(before, clk) || (node.timestamp == now
                && node.event == SequencerEvent::EndOfPattern)) by {
                if has_end(after, clk) {
                    let k = choose|k: int|
                        0 <= k < after.len() && #[trigger] after[k].event
                            == SequencerEvent::EndOfPattern && after[k].timestamp == clk;
                    if k != ci - start {
                        assert(before[k] == after[k]);
                    }
                }
            }
            assert(has_end(before, clk) ==> has_end(after, clk)) by {
                if has_end(before, clk) {
                    let k = choose|k: int|
                        0 <= k < before.len() && #[trigger] before[k].event
                            == SequencerEvent::EndOfPattern && before[k].timestamp == clk;
                    assert(after[k] == before[k]);
                }
            }
            idx = idx + 1;
        }
        self.current_index = idx;
        self.sample_counter = self.sample_counter + 1;
        let ghost fin = self.current_index as int;
        proof {
            let run = evs.subrange(start, fin);
            lemma_playable_is_filtered(run, clk);
            if has_end(run, clk) {
                let k = choose|k: int|
                    0 <= k < run.len() && #[trigger] run[k].event == SequencerEvent::EndOfPattern
                        && run[k].timestamp == clk;
                assert(evs[start + k] == run[k]);
            }
            if exists|i: int|
                start <= i < fin && #[trigger] evs[i].event == SequencerEvent::EndOfPattern
                    && evs[i].timestamp == clk {
                let i = choose|i: int|
                    start <= i < fin && #[trigger] evs[i].event == SequencerEvent::EndOfPattern
                        && evs[i].timestamp == clk;
                assert(run[i - start] == evs[i]);
            }
        }
        assert(self.passed() =~= old(self).passed() + evs.subrange(start, fin));
        assert forall|i: int| fin <= i < evs.len() implies #[trigger] evs[i].timestamp
            >= self.sample_counter by {
            assert(evs[fin].timestamp <= evs[i].timestamp);
        }
        active
    }
}

/// Whether each state of `run` follows the one before it by a tick or by an
/// added event.
pub open spec fn is_run(run: Seq<Sequencer>) -> bool {
    forall|k: int|
        0 <= k < run.len() - 1 ==> Sequencer::tick_step(#[trigger] run[k], run[k + 1])
            || Sequencer::add_step(run[k], run[k + 1])
}

/// How many events the steps of `run` handle in all: the sum, over its steps,
/// of how far each moves the cursor.
pub open spec fn dispatch_total(run: Seq<Sequencer>) -> int
    decreases run.len(),
{
    if run.len() <= 1 {
        0
    } else {
        dispatch_total(run.drop_last()) + (run.last().cursor() - run[run.len() - 2].cursor())
    }
}

/// Over any run of ticks and added events, no event is handled twice, so none
/// is dispatched twice: the passed events only ever grow by appending, and all
/// steps together handle exactly as many events as the cursor advanced, which
/// is at most `MAX_EVENTS`.
pub proof fn lemma_each_event_dispatched_once(run: Seq<Sequencer>)
    requires
        run.len() >= 1,
        run[0].wf(),
        is_run(run),
    ensures
        run.last().wf(),
        run[0].passed().is_prefix_of(run.last().passed()),
        dispatch_total(run) == run.last().cursor() - run[0].cursor(),
        0 <= dispatch_total(run) <= MAX_EVENTS,
    decreases run.len(),
{
    if run.len() == 1 {
        assert(run[0].passed().is_prefix_of(run[0].passed()));
    } else {
        let prefix = run.drop_last();
        assert forall|k: int| 0 <= k < prefix.len() - 1 implies Sequencer::tick_step(
            #[trigger] prefix[k],
            prefix[k + 1],
        ) || Sequencer::add_step(prefix[k], prefix[k + 1]) by {
            assert(prefix[k] == run[k] && prefix[k + 1] == run[k + 1]);
        }
        lemma_each_event_dispatched_once(prefix);
        let n = run.len() - 1;
        let a = run[n - 1];
        let b = run[n];
        assert(prefix.last() == a);
        assert(Sequencer::tick_step(run[n - 1], run[n - 1 + 1]) || Sequencer::add_step(
            run[n - 1],
            run[n - 1 + 1],
        ));
        let d0 = run[0].passed();
        let da = a.passed();
        let db = b.passed();
        assert(d0.is_prefix_of(db)) by {
            assert(da.is_prefix_of(db));
        }
    }
}

impl Default for Sequencer {
    /// An empty sequencer at tick zero, as `new` makes it.
    fn default() -> (r: Self)
        ensures
            r.wf(),
            r.in_sync(),
            r.events() == Seq::<EventNode>::empty(),
            r.cursor() == 0,
            r.clock() == 0,
    {
        Sequencer::new()
    }
}

} // verus!
