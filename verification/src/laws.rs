//! What holds of the engine over all inputs, proved from the definitions of
//! its steps.

use vstd::prelude::*;
use crate::level::Level;
use crate::event::{
    Ec11Direction, Ec11Event, Ec11PressStatus, Ec11RotateStatus, DOUBLE_PRESSED_DURATION,
};
use crate::engine::{spec_is_confirmed, spec_is_double_press, wrap_position, Ec11Engine};
use crate::tick::{published, Ec11Sample};

verus! {

/// The rotation status of each of the ticks on `samples`, in order.
pub open spec fn run_rotations(engine: Ec11Engine, samples: Seq<Ec11Sample>) -> Seq<
    Option<Ec11RotateStatus>,
>
    decreases samples.len(),
{
    if samples.len() == 0 {
        Seq::empty()
    } else {
        run_rotations(engine, samples.drop_last()).push(
            engine.after_run(samples.drop_last()).tick_rotation(samples.last()),
        )
    }
}

/// How many of `statuses` are the status `which`.
pub open spec fn count_status(
    statuses: Seq<Option<Ec11RotateStatus>>,
    which: Ec11RotateStatus,
) -> int
    decreases statuses.len(),
{
    if statuses.len() == 0 {
        0
    } else {
        count_status(statuses.drop_last(), which) + if statuses.last() == Some(which) {
            1int
        } else {
            0int
        }
    }
}

/// Wrapping a sum is the same whether or not one of the terms was wrapped
/// before.
pub proof fn lemma_wrap_position_step(x: int, step: int)
    ensures
        wrap_position(wrap_position(x) + step) == wrap_position(x + step),
{
    let m: int = 0x1_0000_0000;
    let h: int = 0x8000_0000;
    let r: int = (x + h) % m;
    let q: int = (x + h) / m;
    assert(x + h == q * m + r) by {
        vstd::arithmetic::div_mod::lemma_fundamental_div_mod(x + h, m);
    }
    assert(0 <= r < m) by {
        vstd::arithmetic::div_mod::lemma_mod_bound(x + h, m);
    }
    assert(wrap_position(x) == r - h);
    assert((r + step) % m == (x + h + step) % m) by {
        vstd::arithmetic::div_mod::lemma_mod_multiples_vanish(q, r + step, m);
    }
}

/// The wrapping law of the position. After any run of ticks the position is
/// where it started, plus one for every clockwise step that completed, minus
/// one for every counter-clockwise step that completed, wrapped into its
/// range. Steps that only began, noise and the button have no part in it.
pub proof fn law_position_counts_completed_steps(engine: Ec11Engine, samples: Seq<Ec11Sample>)
    ensures
        engine.after_run(samples).position == wrap_position(
            engine.position + count_status(
                run_rotations(engine, samples),
                Ec11RotateStatus::CwEnd,
            ) - count_status(run_rotations(engine, samples), Ec11RotateStatus::CcwEnd),
        ),
    decreases samples.len(),
{
    if samples.len() > 0 {
        let head = samples.drop_last();
        let statuses = run_rotations(engine, samples);
        law_position_counts_completed_steps(engine, head);
        assert(statuses.drop_last() =~= run_rotations(engine, head));
        let ups = count_status(run_rotations(engine, head), Ec11RotateStatus::CwEnd);
        let downs = count_status(run_rotations(engine, head), Ec11RotateStatus::CcwEnd);
        lemma_wrap_position_step(engine.position + ups - downs, 1);
        lemma_wrap_position_step(engine.position + ups - downs, -1);
    }
}

/// The position moves only when a step completes: a tick whose rotation
/// status is not an end leaves it where it was.
pub proof fn law_position_moves_only_on_end(engine: Ec11Engine, sample: Ec11Sample)
    ensures
        engine.after_tick(sample).position != engine.position ==> (engine.tick_rotation(sample)
            matches Some(status) && status.is_end()),
{
}

/// Debouncing. A change of level that is gone again after the settle delay is
/// noise: the accepted level stays, the tracker reports nothing and the
/// classifier reports no more than that the button is still held. A tick in
/// which neither pin confirms a transition leaves the whole state as it was
/// and has nothing to publish.
pub proof fn law_noise_changes_nothing(engine: Ec11Engine, sample: Ec11Sample)
    ensures
        sample.a_settled == engine.a_previous ==> ({
            &&& engine.after_rotation(sample.a, sample.a_settled, sample.b) == engine
            &&& engine.rotation(sample.a, sample.a_settled, sample.b) is None
        }),
        sample.key_settled == engine.key_previous ==> ({
            &&& engine.after_press(sample.key, sample.key_settled, sample.now) == engine
            &&& engine.press(sample.key, sample.key_settled, sample.now) == if engine.is_held {
                Some(Ec11PressStatus::Pressed)
            } else {
                None
            }
        }),
        sample.a_settled == engine.a_previous && sample.key_settled == engine.key_previous ==> ({
            &&& engine.after_tick(sample) == engine
            &&& engine.tick_event(sample) is Empty
        }),
{
}

/// A release with no rotation status in the same tick is a click, unless
/// phase A moved while the button was held: then it is nothing.
pub proof fn law_release_is_click_unless_rotated(engine: Ec11Engine)
    ensures
        !engine.rotated_while_held ==> engine.arbitration(None, Some(Ec11PressStatus::Released))
            == Ec11Event::Clicked,
        engine.rotated_while_held ==> engine.arbitration(None, Some(Ec11PressStatus::Released))
            == Ec11Event::Empty,
        published(seq![engine.arbitration(None, Some(Ec11PressStatus::Released))]) == if engine.rotated_while_held {
            Seq::<Ec11Event>::empty()
        } else {
            seq![Ec11Event::Clicked]
        },
{
    let event = engine.arbitration(None, Some(Ec11PressStatus::Released));
    crate::tick::lemma_published_push(Seq::empty(), event);
    assert(Seq::<Ec11Event>::empty().push(event) =~= seq![event]);
    assert(published(Seq::<Ec11Event>::empty()) =~= Seq::<Ec11Event>::empty());
    assert(Seq::<Ec11Event>::empty().push(Ec11Event::Clicked) =~= seq![Ec11Event::Clicked]);
}

/// A step that completes in a tick whose press status is `Pressed` is a
/// rotation with the button held: the event carries the direction, the
/// position after the step and the step itself, and the position has moved
/// by that one step, up for clockwise and down for counter-clockwise.
pub proof fn law_rotation_while_pressed(engine: Ec11Engine, sample: Ec11Sample)
    requires
        engine.tick_press(sample) == Some(Ec11PressStatus::Pressed),
    ensures
        engine.tick_rotation(sample) == Some(Ec11RotateStatus::CwEnd) ==> ({
            &&& engine.after_tick(sample).position == wrap_position(engine.position + 1)
            &&& engine.tick_event(sample) == Ec11Event::ClickedRotate(
                Ec11Direction::Cw,
                wrap_position(engine.position + 1),
                1i8,
            )
        }),
        engine.tick_rotation(sample) == Some(Ec11RotateStatus::CcwEnd) ==> ({
            &&& engine.after_tick(sample).position == wrap_position(engine.position - 1)
            &&& engine.tick_event(sample) == Ec11Event::ClickedRotate(
                Ec11Direction::Ccw,
                wrap_position(engine.position - 1),
                -1i8,
            )
        }),
{
}

/// The same step with the button up and untouched is a plain rotation.
pub proof fn law_rotation_alone(engine: Ec11Engine, sample: Ec11Sample)
    requires
        engine.tick_press(sample) is None,
    ensures
        engine.tick_rotation(sample) == Some(Ec11RotateStatus::CwEnd) ==> ({
            &&& engine.after_tick(sample).position == wrap_position(engine.position + 1)
            &&& engine.tick_event(sample) == Ec11Event::Rotate(
                Ec11Direction::Cw,
                wrap_position(engine.position + 1),
                1i8,
            )
        }),
        engine.tick_rotation(sample) == Some(Ec11RotateStatus::CcwEnd) ==> ({
            &&& engine.after_tick(sample).position == wrap_position(engine.position - 1)
            &&& engine.tick_event(sample) == Ec11Event::Rotate(
                Ec11Direction::Ccw,
                wrap_position(engine.position - 1),
                -1i8,
            )
        }),
{
}

/// Whether the tick on `sample` sees the button go to `level` and stay there.
pub open spec fn key_goes(sample: Ec11Sample, level: Level) -> bool {
    sample.key == level && sample.key_settled == level
}

/// Two presses in a row. The button is up, goes down, up, down and up again
/// in four ticks, the first press being no second press itself, and phase A
/// keeps still during the second press and release.
///
/// The second release is a double click if the second press came within the
/// double-press window of the first release, and an ordinary click if it
/// came later. The second press itself is nothing. The first release is a
/// click of its own, published before anyone can know that a second press
/// will follow; it is nothing only if phase A moved while the button was
/// down or as it came up.
pub proof fn law_double_click(
    engine: Ec11Engine,
    press1: Ec11Sample,
    release1: Ec11Sample,
    press2: Ec11Sample,
    release2: Ec11Sample,
)
    requires
        engine.inv(),
        !engine.is_held,
        engine.key_previous is High,
        key_goes(press1, Level::Low),
        key_goes(release1, Level::High),
        key_goes(press2, Level::Low),
        key_goes(release2, Level::High),
        !spec_is_double_press(engine.first_released_moment, press1.now),
        engine.after_run(seq![press1, release1]).tick_rotation(press2) is None,
        engine.after_run(seq![press1, release1, press2]).tick_rotation(release2) is None,
    ensures
        ({
            let events = engine.run_events(seq![press1, release1, press2, release2]);
            let quick = press2.now - release1.now <= DOUBLE_PRESSED_DURATION;
            let still = engine.tick_rotation(press1) is None && engine.after_tick(
                press1,
            ).tick_rotation(release1) is None;
            &&& events.len() == 4
            &&& events[0] is Empty || events[0] is ClickedRotate
            &&& events[1] == if still {
                Ec11Event::Clicked
            } else {
                Ec11Event::Empty
            }
            &&& events[2] is Empty
            &&& events[3] == if quick {
                Ec11Event::DoubleClicked
            } else {
                Ec11Event::Clicked
            }
        }),
        engine.after_run(seq![press1, release1, press2, release2]).inv(),
        !engine.after_run(seq![press1, release1, press2, release2]).is_held,
{
    let s1 = seq![press1];
    let s2 = seq![press1, release1];
    let s3 = seq![press1, release1, press2];
    let s4 = seq![press1, release1, press2, release2];
    assert(s1.drop_last() =~= Seq::<Ec11Sample>::empty());
    assert(s2.drop_last() =~= s1);
    assert(s3.drop_last() =~= s2);
    assert(s4.drop_last() =~= s3);
    let e1 = engine.after_tick(press1);
    let e2 = e1.after_tick(release1);
    let e3 = e2.after_tick(press2);
    assert(engine.after_run(Seq::<Ec11Sample>::empty()) == engine);
    assert(engine.after_run(s1) == e1);
    assert(engine.after_run(s2) == e2);
    assert(engine.after_run(s3) == e3);
    assert(engine.run_events(Seq::<Ec11Sample>::empty()) =~= Seq::<Ec11Event>::empty());
    assert(engine.run_events(s1) =~= seq![engine.tick_event(press1)]);
    assert(engine.run_events(s2) =~= seq![engine.tick_event(press1), e1.tick_event(release1)]);
    assert(engine.run_events(s3) =~= seq![
        engine.tick_event(press1),
        e1.tick_event(release1),
        e2.tick_event(press2),
    ]);
    assert(engine.run_events(s4) =~= seq![
        engine.tick_event(press1),
        e1.tick_event(release1),
        e2.tick_event(press2),
        e3.tick_event(release2),
    ]);
}

/// The state between ticks stays consistent: what `inv` says of the state
/// before a tick, it says of the state after it.
pub proof fn law_tick_keeps_inv(engine: Ec11Engine, sample: Ec11Sample)
    requires
        engine.inv(),
    ensures
        engine.after_tick(sample).inv(),
{
}

/// The same over any run of ticks.
pub proof fn law_run_keeps_inv(engine: Ec11Engine, samples: Seq<Ec11Sample>)
    requires
        engine.inv(),
    ensures
        engine.after_run(samples).inv(),
    decreases samples.len(),
{
    if samples.len() > 0 {
        law_run_keeps_inv(engine, samples.drop_last());
        law_tick_keeps_inv(engine.after_run(samples.drop_last()), samples.last());
    }
}

/// The sink never sees an `Empty` event, every tick publishes at most one
/// event, and the published events keep the order of their ticks: what is
/// published is the sequence of the ticks' events with the `Empty` ones left
/// out.
pub proof fn law_published_events(engine: Ec11Engine, samples: Seq<Ec11Sample>)
    ensures
        engine.run_events(samples).len() == samples.len(),
        engine.run_published(samples).len() <= samples.len(),
        forall|i: int|
            0 <= i < engine.run_published(samples).len() ==> !(
            #[trigger] engine.run_published(samples)[i] is Empty),
    decreases samples.len(),
{
    let events = engine.run_events(samples);
    if samples.len() > 0 {
        law_published_events(engine, samples.drop_last());
    }
    let keep = |e: Ec11Event| e.spec_is_published();
    events.lemma_filter_len(keep);
    assert forall|i: int| 0 <= i < engine.run_published(samples).len() implies !(
    #[trigger] engine.run_published(samples)[i] is Empty) by {
        events.lemma_filter_pred(keep, i);
    }
}

} // verus!
