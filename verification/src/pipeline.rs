//! The event pipeline: keyboard input and periodic ticks merged into one
//! ordered stream.
//!
//! The worker that owns the keyboard polls it with the timeout that
//! `poll_timeout` gives, and hands what the poll brought to `after_poll`,
//! which says what to send on, in order. Times are nanoseconds on the
//! worker's monotonic clock.

use vstd::prelude::*;

verus! {

/// What the pipeline delivers: a key press, or a tick that paces the loop
/// when no key arrives.
#[derive(Debug, PartialEq, Eq)]
pub enum Event<I> {
    Input(I),
    Tick,
}

/// The time between two ticks: 200 ms, in nanoseconds.
pub const TICK_INTERVAL: u64 = 200_000_000;

/// The time that has passed at `now` since the tick at `last_tick`. A clock
/// reading from before the last tick counts as no time at all.
pub open spec fn elapsed_since(last_tick: nat, now: nat) -> nat {
    if now >= last_tick {
        (now - last_tick) as nat
    } else {
        0
    }
}

/// Whether a tick is owed at `now`.
pub open spec fn tick_due(last_tick: nat, now: nat) -> bool {
    elapsed_since(last_tick, now) >= TICK_INTERVAL
}

/// How long a poll that starts at `now` may wait: what is left of the tick
/// interval, and nothing once it has run out.
pub open spec fn timeout_at(last_tick: nat, now: nat) -> nat {
    if tick_due(last_tick, now) {
        0
    } else {
        (TICK_INTERVAL - elapsed_since(last_tick, now)) as nat
    }
}

/// The events that a poll gives rise to when it returns at `now` with
/// `input`: the key press first, if there is one, then the tick, if it is
/// due.
pub open spec fn emitted<I>(last_tick: nat, input: Option<I>, now: nat) -> Seq<Event<I>> {
    let keys = match input {
        Some(key) => seq![Event::Input(key)],
        None => Seq::empty(),
    };
    if tick_due(last_tick, now) {
        keys.push(Event::Tick)
    } else {
        keys
    }
}

/// The time of the last tick once a poll has returned at `now`. A key press
/// alone does not move it.
pub open spec fn last_tick_after(last_tick: nat, now: nat) -> nat {
    if tick_due(last_tick, now) {
        now
    } else {
        last_tick
    }
}

/// The producer's side of the pipeline. All it remembers is when it last
/// sent a tick.
#[derive(Debug)]
pub struct EventPipeline {
    last_tick: u128,
}

impl EventPipeline {
    /// The time of the last tick.
    pub closed spec fn last_tick(&self) -> nat {
        self.last_tick as nat
    }

    /// A pipeline that counts its first interval from `now`.
    pub fn new(now: u128) -> (pipeline: EventPipeline)
        ensures
            pipeline.last_tick() == now,
    {
        EventPipeline { last_tick: now }
    }

    /// The longest that the next keyboard poll may block, if it starts at
    /// `now`.
    pub fn poll_timeout(&self, now: u128) -> (timeout: u64)
        ensures
            timeout == timeout_at(self.last_tick(), now as nat),
    {
        let elapsed: u128 = if now >= self.last_tick {
            now - self.last_tick
        } else {
            0
        };
        if elapsed >= TICK_INTERVAL as u128 {
            0
        } else {
            TICK_INTERVAL - elapsed as u64
        }
    }

    /// Takes what a poll brought when it returned at `now`, and gives the
    /// events to send on, in the order in which to send them. When a tick is
    /// among them, the next interval counts from `now`.
    pub fn after_poll<I>(&mut self, input: Option<I>, now: u128) -> (events: Vec<Event<I>>)
        ensures
            events@ == emitted(old(self).last_tick(), input, now as nat),
            final(self).last_tick() == last_tick_after(old(self).last_tick(), now as nat),
    {
        let mut events: Vec<Event<I>> = Vec::new();
        if let Some(key) = input {
            events.push(Event::Input(key));
        }
        let elapsed: u128 = if now >= self.last_tick {
            now - self.last_tick
        } else {
            0
        };
        if elapsed >= TICK_INTERVAL as u128 {
            events.push(Event::Tick);
            self.last_tick = now;
        }
        events
    }
}

/// One return of the keyboard poll: what it brought, and when.
pub struct Poll<I> {
    pub input: Option<I>,
    pub now: nat,
}

/// Everything that the pipeline sends over a run of polls, starting with the
/// last tick at `last_tick`.
pub open spec fn stream<I>(last_tick: nat, polls: Seq<Poll<I>>) -> Seq<Event<I>>
    decreases polls.len(),
{
    if polls.len() == 0 {
        Seq::empty()
    } else {
        emitted(last_tick, polls[0].input, polls[0].now) + stream(
            last_tick_after(last_tick, polls[0].now),
            polls.drop_first(),
        )
    }
}

/// The key presses among `events`, in the order in which they stand there.
pub open spec fn inputs_of<I>(events: Seq<Event<I>>) -> Seq<I>
    decreases events.len(),
{
    if events.len() == 0 {
        Seq::empty()
    } else {
        match events[0] {
            Event::Input(key) => seq![key] + inputs_of(events.drop_first()),
            Event::Tick => inputs_of(events.drop_first()),
        }
    }
}

/// The key presses that a run of polls brought, in the order of the polls.
pub open spec fn keys_of<I>(polls: Seq<Poll<I>>) -> Seq<I>
    decreases polls.len(),
{
    if polls.len() == 0 {
        Seq::empty()
    } else {
        match polls[0].input {
            Some(key) => seq![key] + keys_of(polls.drop_first()),
            None => keys_of(polls.drop_first()),
        }
    }
}

/// The key presses of two runs of events, one after the other, are those of
/// the first followed by those of the second.
proof fn lemma_inputs_of_concat<I>(front: Seq<Event<I>>, back: Seq<Event<I>>)
    ensures
        inputs_of(front + back) == inputs_of(front) + inputs_of(back),
    decreases front.len(),
{
    if front.len() == 0 {
        assert(front + back =~= back);
    } else {
        assert((front + back).drop_first() =~= front.drop_first() + back);
        lemma_inputs_of_concat(front.drop_first(), back);
    }
}

/// One poll sends on the key press that it brought, if any, and no other.
proof fn lemma_inputs_of_emitted<I>(last_tick: nat, input: Option<I>, now: nat)
    ensures
        inputs_of(emitted(last_tick, input, now)) == match input {
            Some(key) => seq![key],
            None => Seq::empty(),
        },
{
    let keys = match input {
        Some(key) => seq![Event::Input(key)],
        None => Seq::<Event<I>>::empty(),
    };
    let tick = if tick_due(last_tick, now) {
        seq![Event::<I>::Tick]
    } else {
        Seq::empty()
    };
    assert(emitted(last_tick, input, now) =~= keys + tick);
    lemma_inputs_of_concat(keys, tick);
    reveal_with_fuel(inputs_of, 2);
    if input is Some {
        assert(keys.drop_first() =~= Seq::<Event<I>>::empty());
    }
}

/// Input order is kept: whatever the polls bring and whenever ticks fall
/// due, the key presses in the stream are exactly the key presses that
/// arrived, each once and in the order of arrival. Ticks only ever stand
/// between them.
pub proof fn lemma_stream_keeps_inputs<I>(last_tick: nat, polls: Seq<Poll<I>>)
    ensures
        inputs_of(stream(last_tick, polls)) == keys_of(polls),
    decreases polls.len(),
{
    if polls.len() > 0 {
        let next = last_tick_after(last_tick, polls[0].now);
        lemma_inputs_of_concat(
            emitted(last_tick, polls[0].input, polls[0].now),
            stream(next, polls.drop_first()),
        );
        lemma_inputs_of_emitted(last_tick, polls[0].input, polls[0].now);
        lemma_stream_keeps_inputs(next, polls.drop_first());
    }
}

/// The loop is paced: on a clock that does not run backwards, a poll that
/// waits out its whole timeout returns when a tick is due, and no timeout is
/// longer than the tick interval.
pub proof fn lemma_timeout_reaches_tick(last_tick: nat, now: nat, returned: nat)
    requires
        last_tick <= now,
        returned >= now + timeout_at(last_tick, now),
    ensures
        timeout_at(last_tick, now) <= TICK_INTERVAL,
        tick_due(last_tick, returned),
{
}

} // verus!
