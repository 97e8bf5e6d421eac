//! Whole scan ticks: the three steps in order, the publisher, and runs of
//! ticks over recorded samples.

use vstd::prelude::*;
use crate::level::Level;
use crate::event::{Ec11Event, Ec11Moment, Ec11PressStatus, Ec11RotateStatus};
use crate::engine::Ec11Engine;

verus! {

/// What one scan tick reads from its surroundings.
///
/// A tick does not always read everything: a pin is sampled a second time
/// only if its first sample differs from the accepted level, phase B and the
/// clock are read only once a transition is confirmed. A field that was not
/// read may hold anything; the tick does not look at it.
#[derive(Clone, Copy, Debug, PartialEq, Eq)]
pub struct Ec11Sample {
    /// Phase A, as first sampled.
    pub a: Level,
    /// Phase A, sampled again after the settle delay.
    pub a_settled: Level,
    /// Phase B, read when the transition of phase A was confirmed.
    pub b: Level,
    /// The button, as first sampled.
    pub key: Level,
    /// The button, sampled again after the settle delay.
    pub key_settled: Level,
    /// The clock, read when the transition of the button was confirmed.
    pub now: Ec11Moment,
}

impl Ec11Engine {
    /// The rotation status that the tick on `sample` derives.
    pub open spec fn tick_rotation(self, sample: Ec11Sample) -> Option<Ec11RotateStatus> {
        self.rotation(sample.a, sample.a_settled, sample.b)
    }

    /// The press status that the tick on `sample` derives.
    pub open spec fn tick_press(self, sample: Ec11Sample) -> Option<Ec11PressStatus> {
        self.after_rotation(sample.a, sample.a_settled, sample.b).press(
            sample.key,
            sample.key_settled,
            sample.now,
        )
    }

    /// The state in which the arbiter of the tick on `sample` finds the engine.
    pub open spec fn before_arbitration(self, sample: Ec11Sample) -> Ec11Engine {
        self.after_rotation(sample.a, sample.a_settled, sample.b).after_press(
            sample.key,
            sample.key_settled,
            sample.now,
        )
    }

    /// The event of the tick on `sample`.
    pub open spec fn tick_event(self, sample: Ec11Sample) -> Ec11Event {
        self.before_arbitration(sample).arbitration(
            self.tick_rotation(sample),
            self.tick_press(sample),
        )
    }

    /// The state after the tick on `sample`.
    pub open spec fn after_tick(self, sample: Ec11Sample) -> Ec11Engine {
        self.before_arbitration(sample).after_arbitration(
            self.tick_rotation(sample),
            self.tick_press(sample),
        )
    }

    /// One scan tick: the rotation tracker, then the press classifier, then
    /// the arbiter on the two statuses of this very tick. Returns the event,
    /// which is `Empty` when there is nothing to publish.
    pub fn tick(&mut self, sample: Ec11Sample) -> (event: Ec11Event)
        ensures
            event == old(self).tick_event(sample),
            *final(self) == old(self).after_tick(sample),
            old(self).inv() ==> final(self).inv(),
    {
        let rotate = self.scan_rotation(sample.a, sample.a_settled, sample.b);
        let press = self.scan_press(sample.key, sample.key_settled, sample.now);
        self.arbitrate(rotate, press)
    }

    /// The state after the ticks on `samples`, taken in order.
    pub open spec fn after_run(self, samples: Seq<Ec11Sample>) -> Ec11Engine
        decreases samples.len(),
    {
        if samples.len() == 0 {
            self
        } else {
            self.after_run(samples.drop_last()).after_tick(samples.last())
        }
    }

    /// The event of each of the ticks on `samples`, `Empty` ones included.
    pub open spec fn run_events(self, samples: Seq<Ec11Sample>) -> Seq<Ec11Event>
        decreases samples.len(),
    {
        if samples.len() == 0 {
            Seq::empty()
        } else {
            self.run_events(samples.drop_last()).push(
                self.after_run(samples.drop_last()).tick_event(samples.last()),
            )
        }
    }

    /// What the ticks on `samples` publish: their events in tick order,
    /// without the `Empty` ones.
    pub open spec fn run_published(self, samples: Seq<Ec11Sample>) -> Seq<Ec11Event> {
        published(self.run_events(samples))
    }

    /// Runs one tick for each of `samples`, in order, and publishes the
    /// events to `sink`.
    pub fn run(&mut self, samples: &Vec<Ec11Sample>, sink: &mut Vec<Ec11Event>)
        ensures
            *final(self) == old(self).after_run(samples@),
            final(sink)@ == old(sink)@ + old(self).run_published(samples@),
            old(self).inv() ==> final(self).inv(),
    {
        let mut i: usize = 0;
        proof {
            assert(samples@.take(0) =~= Seq::<Ec11Sample>::empty());
            assert(old(self).run_published(samples@.take(0)) =~= Seq::<Ec11Event>::empty());
        }
        while i < samples.len()
            invariant
                i <= samples.len(),
                *self == old(self).after_run(samples@.take(i as int)),
                sink@ == old(sink)@ + old(self).run_published(samples@.take(i as int)),
                old(self).inv() ==> self.inv(),
            decreases samples.len() - i,
        {
            let ghost before = samples@.take(i as int);
            let ghost now = samples@.take(i as int + 1);
            let event = self.tick(samples[i]);
            proof {
                assert(now.drop_last() =~= before);
                assert(now.last() == samples@[i as int]);
                lemma_published_push(old(self).run_events(before), event);
            }
            publish(sink, event);
            i += 1;
        }
        proof {
            assert(samples@.take(i as int) =~= samples@);
        }
    }
}

/// The events that reach the sink when `events` come up one per tick: the
/// same events in the same order, without the `Empty` ones.
pub open spec fn published(events: Seq<Ec11Event>) -> Seq<Ec11Event> {
    events.filter(|e: Ec11Event| e.spec_is_published())
}

/// The sink after `event` came up: one longer if the event is worth
/// publishing, unchanged if it is `Empty`.
pub open spec fn sink_after(sink: Seq<Ec11Event>, event: Ec11Event) -> Seq<Ec11Event> {
    if event.spec_is_published() {
        sink.push(event)
    } else {
        sink
    }
}

/// The event publisher. Appends `event` to the end of `sink`, unless it is
/// `Empty`: the sink never sees an `Empty` event.
pub fn publish(sink: &mut Vec<Ec11Event>, event: Ec11Event)
    ensures
        final(sink)@ == sink_after(old(sink)@, event),
{
    if event.is_published() {
        sink.push(event);
    }
}

/// Publishing one more event extends what was published by `sink_after`.
pub proof fn lemma_published_push(events: Seq<Ec11Event>, event: Ec11Event)
    ensures
        published(events.push(event)) == sink_after(published(events), event),
{
    let keep = |e: Ec11Event| e.spec_is_published();
    assert(events.push(event).drop_last() =~= events);
    reveal(Seq::filter);
    assert(events.push(event).filter(keep) == sink_after(events.filter(keep), event));
}

} // verus!
