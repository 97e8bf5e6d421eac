use ec11::engine::Ec11Engine;
use ec11::event::{Ec11Direction, Ec11Event};
use ec11::level::Level;
use ec11::tick::{publish, Ec11Sample};
use ec11::ec11_service;

const MS: u128 = 1_000_000;

fn idle() -> Ec11Engine {
    Ec11Engine::new(Level::High, Level::High)
}

fn quiet(engine: &Ec11Engine, now: u128) -> Ec11Sample {
    Ec11Sample {
        a: engine.a_previous,
        a_settled: engine.a_previous,
        b: Level::High,
        key: engine.key_previous,
        key_settled: engine.key_previous,
        now,
    }
}

fn phase_a(engine: &Ec11Engine, a: Level, b: Level, now: u128) -> Ec11Sample {
    Ec11Sample { a, a_settled: a, b, ..quiet(engine, now) }
}

fn key(engine: &Ec11Engine, key: Level, now: u128) -> Ec11Sample {
    Ec11Sample { key, key_settled: key, ..quiet(engine, now) }
}

#[test]
fn clockwise_step_publishes_one_rotate() {
    let mut engine = idle();
    let mut sink = Vec::new();
    let samples = vec![
        Ec11Sample {
            a: Level::Low,
            a_settled: Level::Low,
            b: Level::High,
            key: Level::High,
            key_settled: Level::High,
            now: 0,
        },
        Ec11Sample {
            a: Level::High,
            a_settled: Level::High,
            b: Level::Low,
            key: Level::High,
            key_settled: Level::High,
            now: 0,
        },
    ];
    engine.run(&samples, &mut sink);
    assert_eq!(sink, vec![Ec11Event::Rotate(Ec11Direction::Cw, 1, 1)]);
    assert_eq!(engine.position, 1);
}

#[test]
fn clockwise_start_alone_publishes_nothing() {
    let mut engine = idle();
    let event = engine.tick(phase_a(&idle(), Level::Low, Level::High, 0));
    assert_eq!(event, Ec11Event::Empty);
    assert_eq!(engine.position, 0);
}

#[test]
fn first_press_and_release_publishes_one_click() {
    let mut engine = idle();
    let mut sink = Vec::new();
    let down = key(&engine, Level::Low, 10 * MS);
    assert_eq!(engine.tick(down), Ec11Event::Empty);
    assert!(engine.is_held);
    let up = key(&engine, Level::High, 50 * MS);
    let samples = vec![up];
    engine.run(&samples, &mut sink);
    assert_eq!(sink, vec![Ec11Event::Clicked]);
}

#[test]
fn first_press_right_after_start_is_not_a_double_press() {
    let mut engine = idle();
    let mut sink = Vec::new();
    let samples = vec![
        Ec11Sample {
            a: Level::High,
            a_settled: Level::High,
            b: Level::High,
            key: Level::Low,
            key_settled: Level::Low,
            now: 0,
        },
        Ec11Sample {
            a: Level::High,
            a_settled: Level::High,
            b: Level::High,
            key: Level::High,
            key_settled: Level::High,
            now: 50 * MS,
        },
    ];
    engine.run(&samples, &mut sink);
    assert_eq!(sink, vec![Ec11Event::Clicked]);
}

fn two_presses(gap: u128) -> Vec<Ec11Event> {
    let mut engine = idle();
    let mut events = Vec::new();
    let down = key(&engine, Level::Low, 1000 * MS);
    events.push(engine.tick(down));
    let held = quiet(&engine, 1010 * MS);
    events.push(engine.tick(held));
    let up = key(&engine, Level::High, 1050 * MS);
    events.push(engine.tick(up));
    let down = key(&engine, Level::Low, 1050 * MS + gap);
    events.push(engine.tick(down));
    let up = key(&engine, Level::High, 1050 * MS + gap + 40 * MS);
    events.push(engine.tick(up));
    events
}

#[test]
fn second_press_within_window_is_a_double_click() {
    assert_eq!(
        two_presses(100 * MS),
        vec![
            Ec11Event::Empty,
            Ec11Event::Empty,
            Ec11Event::Clicked,
            Ec11Event::Empty,
            Ec11Event::DoubleClicked
        ]
    );
}

#[test]
fn second_press_at_the_edge_of_the_window_is_a_double_click() {
    let events = two_presses(200 * MS);
    assert_eq!(events[4], Ec11Event::DoubleClicked);
    assert_eq!(events.iter().filter(|e| **e == Ec11Event::DoubleClicked).count(), 1);
}

#[test]
fn second_press_after_the_window_is_two_clicks() {
    let events = two_presses(200 * MS + 1);
    assert_eq!(
        events,
        vec![
            Ec11Event::Empty,
            Ec11Event::Empty,
            Ec11Event::Clicked,
            Ec11Event::Empty,
            Ec11Event::Clicked
        ]
    );
    assert_eq!(events.iter().filter(|e| **e == Ec11Event::DoubleClicked).count(), 0);
}

#[test]
fn third_press_is_measured_against_the_first_release() {
    let mut engine = idle();
    let down = key(&engine, Level::Low, 0);
    engine.tick(down);
    let up = key(&engine, Level::High, 10 * MS);
    assert_eq!(engine.tick(up), Ec11Event::Clicked);
    let down = key(&engine, Level::Low, 60 * MS);
    engine.tick(down);
    let up = key(&engine, Level::High, 100 * MS);
    assert_eq!(engine.tick(up), Ec11Event::DoubleClicked);
    assert_eq!(engine.first_released_moment, Some(10 * MS));
    let down = key(&engine, Level::Low, 150 * MS);
    engine.tick(down);
    assert!(engine.is_second_press);
    let up = key(&engine, Level::High, 180 * MS);
    assert_eq!(engine.tick(up), Ec11Event::DoubleClicked);
    let down = key(&engine, Level::Low, 211 * MS);
    engine.tick(down);
    assert!(!engine.is_second_press);
    let up = key(&engine, Level::High, 230 * MS);
    assert_eq!(engine.tick(up), Ec11Event::Clicked);
}

#[test]
fn rotation_while_held_is_a_clicked_rotate() {
    let mut engine = idle();
    let down = key(&engine, Level::Low, 0);
    engine.tick(down);
    let start = phase_a(&engine, Level::Low, Level::High, 0);
    assert_eq!(engine.tick(start), Ec11Event::Empty);
    let end = phase_a(&engine, Level::High, Level::Low, 0);
    assert_eq!(engine.tick(end), Ec11Event::ClickedRotate(Ec11Direction::Cw, 1, 1));
    assert_eq!(engine.position, 1);
    assert!(engine.rotated_while_held);
}

#[test]
fn counter_rotation_while_held_is_a_clicked_rotate() {
    let mut engine = idle();
    engine.position = 5;
    let down = key(&engine, Level::Low, 0);
    engine.tick(down);
    let start = phase_a(&engine, Level::Low, Level::Low, 0);
    assert_eq!(engine.tick(start), Ec11Event::Empty);
    let end = phase_a(&engine, Level::High, Level::High, 0);
    assert_eq!(engine.tick(end), Ec11Event::ClickedRotate(Ec11Direction::Ccw, 4, -1));
    assert_eq!(engine.position, 4);
}

#[test]
fn release_after_rotation_while_held_is_no_click() {
    let mut engine = idle();
    let mut sink = Vec::new();
    let down = key(&engine, Level::Low, 0);
    publish(&mut sink, engine.tick(down));
    let start = phase_a(&engine, Level::Low, Level::High, 0);
    publish(&mut sink, engine.tick(start));
    let end = phase_a(&engine, Level::High, Level::Low, 0);
    publish(&mut sink, engine.tick(end));
    let up = key(&engine, Level::High, 400 * MS);
    publish(&mut sink, engine.tick(up));
    assert_eq!(sink, vec![Ec11Event::ClickedRotate(Ec11Direction::Cw, 1, 1)]);
    assert!(!engine.rotated_while_held);

    let down = key(&engine, Level::Low, 1000 * MS);
    publish(&mut sink, engine.tick(down));
    let up = key(&engine, Level::High, 1100 * MS);
    publish(&mut sink, engine.tick(up));
    assert_eq!(
        sink,
        vec![Ec11Event::ClickedRotate(Ec11Direction::Cw, 1, 1), Ec11Event::Clicked]
    );
}

#[test]
fn rotation_in_the_tick_of_the_release_is_dropped() {
    let mut engine = idle();
    let down = key(&engine, Level::Low, 0);
    engine.tick(down);
    let start = phase_a(&engine, Level::Low, Level::High, 0);
    engine.tick(start);
    let both = Ec11Sample {
        a: Level::High,
        a_settled: Level::High,
        b: Level::Low,
        key: Level::High,
        key_settled: Level::High,
        now: 300 * MS,
    };
    assert_eq!(engine.tick(both), Ec11Event::Empty);
    assert_eq!(engine.position, 1);
    assert!(!engine.is_held);
}

#[test]
fn noise_tick_changes_nothing_and_publishes_nothing() {
    let mut engine = idle();
    let before = engine;
    let noise = Ec11Sample {
        a: Level::Low,
        a_settled: Level::High,
        b: Level::Low,
        key: Level::Low,
        key_settled: Level::High,
        now: 77 * MS,
    };
    let mut sink = Vec::new();
    let samples = vec![noise, noise, noise];
    engine.run(&samples, &mut sink);
    assert_eq!(engine, before);
    assert!(sink.is_empty());
}

#[test]
fn unread_fields_do_not_matter() {
    let mut one = idle();
    let mut other = idle();
    let first = Ec11Sample {
        a: Level::High,
        a_settled: Level::Low,
        b: Level::Low,
        key: Level::High,
        key_settled: Level::Low,
        now: 1,
    };
    let second = Ec11Sample {
        a: Level::High,
        a_settled: Level::High,
        b: Level::High,
        key: Level::High,
        key_settled: Level::High,
        now: 99 * MS,
    };
    assert_eq!(one.tick(first), other.tick(second));
    assert_eq!(one, other);
}

#[test]
fn publisher_drops_empty_and_keeps_order() {
    let mut sink = vec![Ec11Event::Clicked];
    publish(&mut sink, Ec11Event::Empty);
    assert_eq!(sink, vec![Ec11Event::Clicked]);
    publish(&mut sink, Ec11Event::Rotate(Ec11Direction::Ccw, -3, -1));
    publish(&mut sink, Ec11Event::Empty);
    publish(&mut sink, Ec11Event::DoubleClicked);
    assert_eq!(
        sink,
        vec![
            Ec11Event::Clicked,
            Ec11Event::Rotate(Ec11Direction::Ccw, -3, -1),
            Ec11Event::DoubleClicked
        ]
    );
    assert!(Ec11Event::Clicked.is_published());
    assert!(!Ec11Event::Empty.is_published());
}

#[test]
fn run_appends_to_what_the_sink_holds() {
    let mut engine = idle();
    let mut sink = vec![Ec11Event::DoubleClicked];
    let samples = vec![
        phase_a(&idle(), Level::Low, Level::Low, 0),
        Ec11Sample {
            a: Level::High,
            a_settled: Level::High,
            b: Level::High,
            key: Level::High,
            key_settled: Level::High,
            now: 0,
        },
    ];
    engine.run(&samples, &mut sink);
    assert_eq!(
        sink,
        vec![Ec11Event::DoubleClicked, Ec11Event::Rotate(Ec11Direction::Ccw, -1, -1)]
    );
    let none: Vec<Ec11Sample> = Vec::new();
    engine.run(&none, &mut sink);
    assert_eq!(sink.len(), 2);
}

#[test]
fn button_down_at_start_releases_into_a_click() {
    let mut engine = Ec11Engine::new(Level::High, Level::Low);
    let held = quiet(&engine, 0);
    assert_eq!(engine.tick(held), Ec11Event::Empty);
    assert!(!engine.is_held);
    let up = key(&engine, Level::High, 30 * MS);
    assert_eq!(engine.tick(up), Ec11Event::Clicked);
}

#[test]
fn service_on_a_clockwise_step() {
    let samples = vec![
        Ec11Sample {
            a: Level::Low,
            a_settled: Level::Low,
            b: Level::High,
            key: Level::High,
            key_settled: Level::High,
            now: 0,
        },
        Ec11Sample {
            a: Level::High,
            a_settled: Level::High,
            b: Level::Low,
            key: Level::High,
            key_settled: Level::High,
            now: 0,
        },
    ];
    assert_eq!(
        ec11_service(Level::High, Level::High, &samples),
        vec![Ec11Event::Rotate(Ec11Direction::Cw, 1, 1)]
    );
}

#[test]
fn service_on_a_click() {
    let samples = vec![
        Ec11Sample {
            a: Level::High,
            a_settled: Level::High,
            b: Level::High,
            key: Level::Low,
            key_settled: Level::Low,
            now: 20 * MS,
        },
        Ec11Sample {
            a: Level::High,
            a_settled: Level::High,
            b: Level::High,
            key: Level::High,
            key_settled: Level::High,
            now: 70 * MS,
        },
    ];
    assert_eq!(ec11_service(Level::High, Level::High, &samples), vec![Ec11Event::Clicked]);
}

#[test]
fn service_on_nothing_publishes_nothing() {
    let samples: Vec<Ec11Sample> = Vec::new();
    assert!(ec11_service(Level::Low, Level::Low, &samples).is_empty());
}
