use controller_core::engine::{Engine, EngineError};
use controller_core::input::{
    collect_all, Acceleration, Button, InputGroup, Rotation, SeqSource, Stick, Stream, Touchpad,
    Trigger,
};
use std::cell::Cell;

fn src<T: Copy>(v: Vec<T>) -> SeqSource<T> {
    SeqSource::new(v)
}

#[test]
fn stick_stops_at_shortest_axis() {
    let mut stick = Stick {
        x: src(vec![1i16, 2, 3, 4, 5]),
        y: src(vec![10i16, 20, 30, 40, 50]),
        pressed: src(vec![true, false, true]),
        force: src(vec![7u8, 8, 9, 10, 11]),
    };
    assert_eq!(stick.next(), Some((1, 10, true, 7)));
    assert_eq!(stick.next(), Some((2, 20, false, 8)));
    assert_eq!(stick.next(), Some((3, 30, true, 9)));
    assert_eq!(stick.next(), None);
    assert_eq!(stick.next(), None);
    assert_eq!(stick.name(), "Stick");
}

#[test]
fn zip_length_follows_shortest() {
    for short in 0..5usize {
        let mut stick = Stick {
            x: src(vec![0u8; 5]),
            y: src(vec![0u8; 5]),
            pressed: src(vec![false; short]),
            force: src(vec![0u8; 5]),
        };
        assert_eq!(collect_all(&mut stick).len(), short);
    }
}

#[test]
fn other_groups_zip() {
    let mut b = Button { pressed: src(vec![true]), force: src(vec![3u8, 4]) };
    assert_eq!(collect_all(&mut b), vec![(true, 3)]);
    assert_eq!(b.name(), "Button");
    let mut t = Trigger {
        travel: src(vec![1u8, 2]),
        pressed: src(vec![false, true]),
        force: src(vec![5u8, 6]),
    };
    assert_eq!(collect_all(&mut t), vec![(1, false, 5), (2, true, 6)]);
    assert_eq!(t.name(), "Trigger");
    let mut p = Touchpad {
        x: src(vec![1i8]),
        y: src(vec![2i8]),
        touched: src(vec![true]),
        pressed: src(vec![false]),
        force: src(Vec::<u8>::new()),
    };
    assert_eq!(p.next(), None);
    assert_eq!(p.name(), "Touchpad");
    let mut r = Rotation { pitch: src(vec![1i16]), roll: src(vec![2i16]), yaw: src(vec![3i16]) };
    assert_eq!(r.next(), Some((1, 2, 3)));
    assert_eq!(r.name(), "Rotation");
    let mut a = Acceleration { x: src(vec![4i16]), y: src(vec![5i16]), z: src(vec![6i16]) };
    assert_eq!(a.next(), Some((4, 5, 6)));
    assert_eq!(a.name(), "Acceleration");
}

#[test]
fn run_without_input_is_refused() {
    let e: Engine<SeqSource<u8>, fn()> = Engine::new();
    assert!(matches!(e.start(), Err(EngineError::MissingInput)));
}

#[test]
fn watcher_before_input_is_refused() {
    let e: Engine<SeqSource<u8>, fn()> = Engine::new();
    assert!(matches!(e.with_watcher(|| {}), Err(EngineError::MissingInput)));
}

#[test]
fn second_watcher_is_refused() {
    let e: Engine<SeqSource<u8>, fn()> = Engine::new();
    let e = match e.with_input(src(vec![1])).and_then(|e| e.with_watcher(|| {})) {
        Ok(e) => e,
        Err(_) => panic!("valid configuration refused"),
    };
    assert!(matches!(e.with_watcher(|| {}), Err(EngineError::WatcherAlreadySet)));
}

#[test]
fn second_input_is_refused() {
    let e: Engine<SeqSource<u8>, fn()> = Engine::new();
    let e = match e.with_input(src(vec![1])) {
        Ok(e) => e,
        Err(_) => panic!("first input refused"),
    };
    assert!(matches!(e.with_input(src(vec![2])), Err(EngineError::InputAlreadySet)));
}

#[test]
fn ticks_pull_and_dispatch() {
    let calls = Cell::new(0u32);
    let watcher = || calls.set(calls.get() + 1);
    let e = Engine::new();
    let mut run = match e.with_input(src(vec![5u8, 6])).and_then(|e| e.with_watcher(watcher)) {
        Ok(e) => match e.start() {
            Ok(r) => r,
            Err(_) => panic!("start refused"),
        },
        Err(_) => panic!("configuration refused"),
    };
    assert_eq!(run.tick(), (Some(5), true));
    assert_eq!(run.tick(), (Some(6), true));
    assert_eq!(run.tick(), (None, false));
    assert_eq!(calls.get(), 2);
}

#[test]
fn ticks_without_watcher_still_pull() {
    let e: Engine<SeqSource<u8>, fn()> = Engine::new();
    let mut run = match e.with_input(src(vec![9])).and_then(|e| e.start()) {
        Ok(r) => r,
        Err(_) => panic!("start refused"),
    };
    assert_eq!(run.tick(), (Some(9), false));
    assert_eq!(run.tick(), (None, false));
}
