//! The scan loop as a step machine.
//!
//! A scan tick reads pins, waits and reads the clock, and what it does next
//! depends on what it has just read. The scanner holds those decisions. It
//! asks for one action at a time; its caller carries the action out and
//! hands back the reply. The scanner itself never touches a pin or a clock.

use vstd::prelude::*;
use crate::level::Level;
use crate::event::{Ec11Event, Ec11Moment};
use crate::engine::{spec_is_confirmed, Ec11Engine};
use crate::tick::{lemma_published_push, Ec11Sample};

verus! {

/// What the scanner asks its caller to do next.
#[derive(Clone, Copy, Debug, PartialEq, Eq)]
pub enum Ec11Action {
    /// Read phase A and reply with its level.
    SamplePhaseA,
    /// Read phase B and reply with its level.
    SamplePhaseB,
    /// Read the button and reply with its level.
    SampleKey,
    /// Wait for the settle delay, then reply `Done`.
    Settle,
    /// Read the clock and reply with the moment.
    ReadClock,
    /// Push this event to the sink, then reply `Done`.
    Publish(Ec11Event),
    /// Wait for the pause between ticks, then reply `Done`.
    Idle,
}

/// What the caller hands back after carrying out an action.
#[derive(Clone, Copy, Debug, PartialEq, Eq)]
pub enum Ec11Reply {
    /// The level that was read.
    Level(Level),
    /// The moment that was read.
    Moment(Ec11Moment),
    /// The action is done and had nothing to report.
    Done,
}

/// Where in the tick the scanner is: which reply it is waiting for.
#[derive(Clone, Copy, Debug, PartialEq, Eq)]
pub enum Ec11Phase {
    /// Waiting for the first sample of phase A.
    PhaseA,
    /// Waiting for the settle delay of phase A to pass.
    PhaseASettle,
    /// Waiting for the second sample of phase A.
    PhaseASettled,
    /// Waiting for phase B.
    PhaseB,
    /// Waiting for the first sample of the button.
    Key,
    /// Waiting for the settle delay of the button to pass.
    KeySettle,
    /// Waiting for the second sample of the button.
    KeySettled,
    /// Waiting for the clock.
    Clock,
    /// Waiting for this event to be published.
    Publish(Ec11Event),
    /// Waiting for the pause between ticks to pass.
    Rest,
}

/// The engine together with the progress of the current tick.
#[derive(Clone, Copy, Debug, PartialEq, Eq)]
pub struct Ec11Scanner {
    /// The engine, as the last completed tick left it.
    pub engine: Ec11Engine,
    /// What the scanner is waiting for.
    pub phase: Ec11Phase,
    /// What the current tick has read so far.
    pub sample: Ec11Sample,
}

impl Ec11Phase {
    /// The phase that follows the decision of a tick with this event.
    pub open spec fn after_event(event: Ec11Event) -> Ec11Phase {
        if event.spec_is_published() {
            Ec11Phase::Publish(event)
        } else {
            Ec11Phase::Rest
        }
    }

    /// An upper bound on the steps from this phase to the end of the tick.
    pub open spec fn steps_left(self) -> nat {
        match self {
            Ec11Phase::PhaseA => 9,
            Ec11Phase::PhaseASettle => 8,
            Ec11Phase::PhaseASettled => 7,
            Ec11Phase::PhaseB => 6,
            Ec11Phase::Key => 5,
            Ec11Phase::KeySettle => 4,
            Ec11Phase::KeySettled => 3,
            Ec11Phase::Clock => 2,
            Ec11Phase::Publish(_) => 1,
            Ec11Phase::Rest => 0,
        }
    }

    /// Whether a tick has been decided and nothing of it is left but to
    /// publish and to pause.
    pub open spec fn is_decided(self) -> bool {
        self is Publish || self is Rest
    }
}

impl Ec11Scanner {
    /// The scanner at the start of the first tick.
    pub open spec fn spec_new(a: Level, key: Level) -> Ec11Scanner {
        Ec11Scanner {
            engine: Ec11Engine::spec_new(a, key),
            phase: Ec11Phase::PhaseA,
            sample: Ec11Sample {
                a: a,
                a_settled: a,
                b: Level::High,
                key: key,
                key_settled: key,
                now: 0,
            },
        }
    }

    /// A scanner about to begin its first tick, given the levels that phase A
    /// and the button are at when the scan starts.
    #[verifier::when_used_as_spec(spec_new)]
    pub fn new(a: Level, key: Level) -> (scanner: Ec11Scanner)
        ensures
            scanner == Ec11Scanner::spec_new(a, key),
            scanner.engine.inv(),
    {
        Ec11Scanner {
            engine: Ec11Engine::new(a, key),
            phase: Ec11Phase::PhaseA,
            sample: Ec11Sample { a: a, a_settled: a, b: Level::High, key: key, key_settled: key, now: 0 },
        }
    }

    /// The action the scanner is waiting on.
    pub open spec fn spec_pending(&self) -> Ec11Action {
        match self.phase {
            Ec11Phase::PhaseA | Ec11Phase::PhaseASettled => Ec11Action::SamplePhaseA,
            Ec11Phase::PhaseB => Ec11Action::SamplePhaseB,
            Ec11Phase::Key | Ec11Phase::KeySettled => Ec11Action::SampleKey,
            Ec11Phase::PhaseASettle | Ec11Phase::KeySettle => Ec11Action::Settle,
            Ec11Phase::Clock => Ec11Action::ReadClock,
            Ec11Phase::Publish(event) => Ec11Action::Publish(event),
            Ec11Phase::Rest => Ec11Action::Idle,
        }
    }

    /// The action the scanner is waiting on: what its caller has to do next.
    #[verifier::when_used_as_spec(spec_pending)]
    pub fn pending(&self) -> (action: Ec11Action)
        ensures
            action == self.spec_pending(),
    {
        match self.phase {
            Ec11Phase::PhaseA => Ec11Action::SamplePhaseA,
            Ec11Phase::PhaseASettle => Ec11Action::Settle,
            Ec11Phase::PhaseASettled => Ec11Action::SamplePhaseA,
            Ec11Phase::PhaseB => Ec11Action::SamplePhaseB,
            Ec11Phase::Key => Ec11Action::SampleKey,
            Ec11Phase::KeySettle => Ec11Action::Settle,
            Ec11Phase::KeySettled => Ec11Action::SampleKey,
            Ec11Phase::Clock => Ec11Action::ReadClock,
            Ec11Phase::Publish(event) => Ec11Action::Publish(event),
            Ec11Phase::Rest => Ec11Action::Idle,
        }
    }

    /// Whether `reply` is the kind of reply that the pending action calls for.
    pub open spec fn answers(self, reply: Ec11Reply) -> bool {
        match self.spec_pending() {
            Ec11Action::SamplePhaseA | Ec11Action::SamplePhaseB | Ec11Action::SampleKey => reply is Level,
            Ec11Action::ReadClock => reply is Moment,
            Ec11Action::Settle | Ec11Action::Publish(_) | Ec11Action::Idle => reply is Done,
        }
    }

    /// The scanner once the tick is decided on what has been read: the engine
    /// has run the tick, and the event is up for publishing if it is worth it.
    pub open spec fn decided(self) -> Ec11Scanner {
        Ec11Scanner {
            engine: self.engine.after_tick(self.sample),
            phase: Ec11Phase::after_event(self.engine.tick_event(self.sample)),
            ..self
        }
    }

    /// The scanner after `reply` came in for the pending action.
    ///
    /// A level that differs from the accepted one is sampled again after the
    /// settle delay. Phase B is read only once the transition of phase A is
    /// confirmed, the clock only once the transition of the button is. When
    /// the button has been dealt with the tick is decided. A reply of the
    /// wrong kind changes nothing.
    pub open spec fn after_step(self, reply: Ec11Reply) -> Ec11Scanner {
        match (self.phase, reply) {
            (Ec11Phase::PhaseA, Ec11Reply::Level(level)) => Ec11Scanner {
                sample: Ec11Sample { a: level, ..self.sample },
                phase: if level != self.engine.a_previous {
                    Ec11Phase::PhaseASettle
                } else {
                    Ec11Phase::Key
                },
                ..self
            },
            (Ec11Phase::PhaseASettle, Ec11Reply::Done) => Ec11Scanner {
                phase: Ec11Phase::PhaseASettled,
                ..self
            },
            (Ec11Phase::PhaseASettled, Ec11Reply::Level(level)) => Ec11Scanner {
                sample: Ec11Sample { a_settled: level, ..self.sample },
                phase: if level != self.engine.a_previous {
                    Ec11Phase::PhaseB
                } else {
                    Ec11Phase::Key
                },
                ..self
            },
            (Ec11Phase::PhaseB, Ec11Reply::Level(level)) => Ec11Scanner {
                sample: Ec11Sample { b: level, ..self.sample },
                phase: Ec11Phase::Key,
                ..self
            },
            (Ec11Phase::Key, Ec11Reply::Level(level)) => {
                let read = Ec11Scanner { sample: Ec11Sample { key: level, ..self.sample }, ..self };
                if level != self.engine.key_previous {
                    Ec11Scanner { phase: Ec11Phase::KeySettle, ..read }
                } else {
                    read.decided()
                }
            },
            (Ec11Phase::KeySettle, Ec11Reply::Done) => Ec11Scanner {
                phase: Ec11Phase::KeySettled,
                ..self
            },
            (Ec11Phase::KeySettled, Ec11Reply::Level(level)) => {
                let read = Ec11Scanner {
                    sample: Ec11Sample { key_settled: level, ..self.sample },
                    ..self
                };
                if level != self.engine.key_previous {
                    Ec11Scanner { phase: Ec11Phase::Clock, ..read }
                } else {
                    read.decided()
                }
            },
            (Ec11Phase::Clock, Ec11Reply::Moment(now)) => Ec11Scanner {
                sample: Ec11Sample { now: now, ..self.sample },
                ..self
            }.decided(),
            (Ec11Phase::Publish(_), Ec11Reply::Done) => Ec11Scanner { phase: Ec11Phase::Rest, ..self },
            (Ec11Phase::Rest, Ec11Reply::Done) => Ec11Scanner { phase: Ec11Phase::PhaseA, ..self },
            _ => self,
        }
    }

    /// Runs the tick on what has been read and moves on to publishing or to
    /// the pause.
    fn decide(&mut self)
        ensures
            *final(self) == old(self).decided(),
            old(self).engine.inv() ==> final(self).engine.inv(),
    {
        let event = self.engine.tick(self.sample);
        if event.is_published() {
            self.phase = Ec11Phase::Publish(event);
        } else {
            self.phase = Ec11Phase::Rest;
        }
    }

    /// Takes the reply to the pending action and returns the next action.
    pub fn step(&mut self, reply: Ec11Reply) -> (action: Ec11Action)
        ensures
            *final(self) == old(self).after_step(reply),
            action == final(self).spec_pending(),
            old(self).engine.inv() ==> final(self).engine.inv(),
            !old(self).answers(reply) ==> *final(self) == *old(self),
    {
        match reply {
            Ec11Reply::Level(level) => match self.phase {
                Ec11Phase::PhaseA => {
                    self.sample.a = level;
                    self.phase = if level != self.engine.a_previous {
                        Ec11Phase::PhaseASettle
                    } else {
                        Ec11Phase::Key
                    };
                },
                Ec11Phase::PhaseASettled => {
                    self.sample.a_settled = level;
                    self.phase = if level != self.engine.a_previous {
                        Ec11Phase::PhaseB
                    } else {
                        Ec11Phase::Key
                    };
                },
                Ec11Phase::PhaseB => {
                    self.sample.b = level;
                    self.phase = Ec11Phase::Key;
                },
                Ec11Phase::Key => {
                    self.sample.key = level;
                    if level != self.engine.key_previous {
                        self.phase = Ec11Phase::KeySettle;
                    } else {
                        self.decide();
                    }
                },
                Ec11Phase::KeySettled => {
                    self.sample.key_settled = level;
                    if level != self.engine.key_previous {
                        self.phase = Ec11Phase::Clock;
                    } else {
                        self.decide();
                    }
                },
                _ => {},
            },
            Ec11Reply::Moment(now) => match self.phase {
                Ec11Phase::Clock => {
                    self.sample.now = now;
                    self.decide();
                },
                _ => {},
            },
            Ec11Reply::Done => match self.phase {
                Ec11Phase::PhaseASettle => {
                    self.phase = Ec11Phase::PhaseASettled;
                },
                Ec11Phase::KeySettle => {
                    self.phase = Ec11Phase::KeySettled;
                },
                Ec11Phase::Publish(_) => {
                    self.phase = Ec11Phase::Rest;
                },
                Ec11Phase::Rest => {
                    self.phase = Ec11Phase::PhaseA;
                },
                _ => {},
            },
        }
        self.pending()
    }

    /// What surroundings that hold `world` reply to the pending action.
    pub open spec fn reply_from(self, world: Ec11Sample) -> Ec11Reply {
        match self.phase {
            Ec11Phase::PhaseA => Ec11Reply::Level(world.a),
            Ec11Phase::PhaseASettled => Ec11Reply::Level(world.a_settled),
            Ec11Phase::PhaseB => Ec11Reply::Level(world.b),
            Ec11Phase::Key => Ec11Reply::Level(world.key),
            Ec11Phase::KeySettled => Ec11Reply::Level(world.key_settled),
            Ec11Phase::Clock => Ec11Reply::Moment(world.now),
            _ => Ec11Reply::Done,
        }
    }

    /// The scanner at the point where the current tick is decided, when every
    /// action up to there is answered from `world`.
    pub open spec fn scan(self, world: Ec11Sample) -> Ec11Scanner
        decreases self.phase.steps_left(),
    {
        if self.phase.is_decided() {
            self
        } else {
            self.after_step(self.reply_from(world)).scan(world)
        }
    }

    /// Whether `other` holds what `self` holds in every field that a tick of
    /// `engine` looks at.
    pub open spec fn reads_like(engine: Ec11Engine, sample: Ec11Sample, other: Ec11Sample) -> bool {
        &&& sample.a == other.a
        &&& sample.a != engine.a_previous ==> sample.a_settled == other.a_settled
        &&& spec_is_confirmed(engine.a_previous, sample.a, sample.a_settled) ==> sample.b
            == other.b
        &&& sample.key == other.key
        &&& sample.key != engine.key_previous ==> sample.key_settled == other.key_settled
        &&& spec_is_confirmed(engine.key_previous, sample.key, sample.key_settled) ==> sample.now
            == other.now
    }

    /// A tick depends on no more of a sample than it reads: the second sample
    /// of a pin only if the first differs from the accepted level, phase B
    /// and the clock only once a transition is confirmed.
    pub proof fn lemma_tick_reads(engine: Ec11Engine, sample: Ec11Sample, other: Ec11Sample)
        requires
            Self::reads_like(engine, sample, other),
        ensures
            engine.after_tick(sample) == engine.after_tick(other),
            engine.tick_event(sample) == engine.tick_event(other),
    {
    }

    /// From the first sample of the button on, the scan reads the button from
    /// `world` and decides the tick on it.
    proof fn lemma_scan_from_key(self, world: Ec11Sample)
        requires
            self.phase is Key,
        ensures
            ({
                let read = Ec11Sample {
                    key: world.key,
                    key_settled: world.key_settled,
                    now: world.now,
                    ..self.sample
                };
                &&& self.scan(world).engine == self.engine.after_tick(read)
                &&& self.scan(world).phase == Ec11Phase::after_event(self.engine.tick_event(read))
            }),
    {
        let read = Ec11Sample {
            key: world.key,
            key_settled: world.key_settled,
            now: world.now,
            ..self.sample
        };
        let s1 = self.after_step(Ec11Reply::Level(world.key));
        assert(self.scan(world) == s1.scan(world));
        if world.key != self.engine.key_previous {
            let s2 = s1.after_step(Ec11Reply::Done);
            let s3 = s2.after_step(Ec11Reply::Level(world.key_settled));
            assert(s1.scan(world) == s2.scan(world));
            assert(s2.scan(world) == s3.scan(world));
            if world.key_settled != self.engine.key_previous {
                let s4 = s3.after_step(Ec11Reply::Moment(world.now));
                assert(s3.scan(world) == s4.scan(world));
                assert(s4.scan(world) == s4);
                assert(s4.sample == read);
            } else {
                assert(s3.scan(world) == s3);
                Self::lemma_tick_reads(self.engine, s3.sample, read);
            }
        } else {
            assert(s1.scan(world) == s1);
            Self::lemma_tick_reads(self.engine, s1.sample, read);
        }
    }

    /// The scan loop does what a tick does. A scanner at the start of a tick,
    /// answered from `world`, arrives at the state that the tick on `world`
    /// leaves the engine in, and asks next to publish the event of that tick,
    /// or to pause if the event is `Empty`.
    pub proof fn law_scan_is_tick(self, world: Ec11Sample)
        requires
            self.phase is PhaseA,
        ensures
            self.scan(world).engine == self.engine.after_tick(world),
            self.scan(world).phase == Ec11Phase::after_event(self.engine.tick_event(world)),
            self.scan(world).spec_pending() == if self.engine.tick_event(world).spec_is_published() {
                Ec11Action::Publish(self.engine.tick_event(world))
            } else {
                Ec11Action::Idle
            },
    {
        let s1 = self.after_step(Ec11Reply::Level(world.a));
        assert(self.scan(world) == s1.scan(world));
        let at_key = if world.a != self.engine.a_previous {
            let s2 = s1.after_step(Ec11Reply::Done);
            let s3 = s2.after_step(Ec11Reply::Level(world.a_settled));
            assert(s1.scan(world) == s2.scan(world));
            assert(s2.scan(world) == s3.scan(world));
            if world.a_settled != self.engine.a_previous {
                let s4 = s3.after_step(Ec11Reply::Level(world.b));
                assert(s3.scan(world) == s4.scan(world));
                s4
            } else {
                s3
            }
        } else {
            s1
        };
        assert(at_key.phase is Key);
        assert(at_key.engine == self.engine);
        assert(self.scan(world) == at_key.scan(world));
        at_key.lemma_scan_from_key(world);
        let read = Ec11Sample {
            key: world.key,
            key_settled: world.key_settled,
            now: world.now,
            ..at_key.sample
        };
        Self::lemma_tick_reads(self.engine, read, world);
    }

    /// What a scanner whose tick is decided asks to publish: its event, or
    /// nothing.
    pub open spec fn publishes(self) -> Seq<Ec11Event> {
        match self.phase {
            Ec11Phase::Publish(event) => seq![event],
            _ => Seq::empty(),
        }
    }

    /// The scanner at the start of the next tick, once a decided tick has
    /// been published, if there was anything to publish, and the pause
    /// between ticks has passed.
    pub open spec fn rested(self) -> Ec11Scanner {
        match self.phase {
            Ec11Phase::Publish(_) => self.after_step(Ec11Reply::Done).after_step(Ec11Reply::Done),
            Ec11Phase::Rest => self.after_step(Ec11Reply::Done),
            _ => self,
        }
    }

    /// The scanner after one whole tick for each of `worlds`, every action
    /// answered from the world of its tick.
    pub open spec fn scan_all(self, worlds: Seq<Ec11Sample>) -> Ec11Scanner
        decreases worlds.len(),
    {
        if worlds.len() == 0 {
            self
        } else {
            self.scan_all(worlds.drop_last()).scan(worlds.last()).rested()
        }
    }

    /// What the scanner asks to publish over those ticks, in order.
    pub open spec fn scan_all_published(self, worlds: Seq<Ec11Sample>) -> Seq<Ec11Event>
        decreases worlds.len(),
    {
        if worlds.len() == 0 {
            Seq::empty()
        } else {
            self.scan_all_published(worlds.drop_last()) + self.scan_all(worlds.drop_last()).scan(
                worlds.last(),
            ).publishes()
        }
    }

    /// The scan loop does what a run of ticks does. Over any number of ticks
    /// the scanner leaves the engine where the run on the same worlds leaves
    /// it, asks to publish exactly what the run publishes, in the same
    /// order, and stands at the start of a tick again.
    pub proof fn law_scan_is_run(self, worlds: Seq<Ec11Sample>)
        requires
            self.phase is PhaseA,
        ensures
            self.scan_all(worlds).phase is PhaseA,
            self.scan_all(worlds).engine == self.engine.after_run(worlds),
            self.scan_all_published(worlds) == self.engine.run_published(worlds),
        decreases worlds.len(),
    {
        if worlds.len() == 0 {
            assert(self.engine.run_published(worlds) =~= Seq::<Ec11Event>::empty());
        } else {
            let head = worlds.drop_last();
            let before = self.scan_all(head);
            self.law_scan_is_run(head);
            before.law_scan_is_tick(worlds.last());
            let event = before.engine.tick_event(worlds.last());
            lemma_published_push(self.engine.run_events(head), event);
            assert(self.engine.run_published(head) + before.scan(worlds.last()).publishes()
                =~= self.engine.run_published(worlds));
        }
    }
}

} // verus!
