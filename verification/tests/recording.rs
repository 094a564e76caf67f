use wade::app::App;
use wade::event::{Digit, Event, Key, Touch, TouchPhase};
use wade::geometry::Point;
use wade::harness::Harness;
use wade::layout::wade_center;
use wade::platform::{replay_step, ReplayStep};
use wade::recording::{Entry, Input, Mismatch, Recording};
use wade::settings::Settings;
use wade::time::Instant;

const EXAMPLE: &str = "wade-events 1
seed 8127364512
1000 down 160 110 #3f9a1c02
1080 up 160 110 #b7e0442d
2400 key 3 #5d21a7c4
5400 down 290 210 #5d21a7c4
5460 up 290 210 #51c8d9e0
";

fn ms(ms: u64) -> Instant {
    Instant::from_millis(ms)
}

#[test]
fn parses_the_documented_example() {
    let r = Recording::parse(EXAMPLE.as_bytes()).unwrap();
    assert_eq!(r.seed, 8127364512);
    assert_eq!(r.entries.len(), 5);
    assert_eq!(
        r.entries[0],
        Entry {
            at: ms(1000),
            input: Input::Touch(Touch { phase: TouchPhase::Down, point: Point::new(160, 110) }),
            hash: 0x3f9a_1c02,
        }
    );
    assert_eq!(
        r.entries[2],
        Entry { at: ms(2400), input: Input::Key(Key::Digit(Digit::new(3).unwrap())), hash: 0x5d21_a7c4 }
    );
    assert_eq!(r.entries[4].hash, 0x51c8_d9e0);
}

#[test]
fn parses_keys_z_and_p_and_skips_empty_lines() {
    let text = "wade-events 1\nseed 0\n\n10 key z #00000000\n20 key p #FFFFFFFF\n\n";
    let r = Recording::parse(text.as_bytes()).unwrap();
    assert_eq!(r.seed, 0);
    assert_eq!(r.entries.len(), 2);
    assert_eq!(r.entries[0].input, Input::Key(Key::Z));
    assert_eq!(r.entries[1].input, Input::Key(Key::P));
    assert_eq!(r.entries[1].hash, 0xffff_ffff);
}

#[test]
fn rejects_what_is_not_a_recording() {
    let bad = [
        "",
        "wade-events 1\n",
        "wade-events 2\nseed 1\n",
        "wade-events 0\nseed 1\n",
        "wade-event 1\nseed 1\n",
        "wade-events 1\nseed x\n",
        "wade-events 1\nseed 18446744073709551616\n",
        "wade-events 1\nseed 1\n10 down 1 2 #1234567\n",
        "wade-events 1\nseed 1\n10 press 1 2 #12345678\n",
        "wade-events 1\nseed 1\n10 key q #12345678\n",
        "wade-events 1\nseed 1\n10 down 1 2 12345678\n",
        "wade-events 1\nseed 1\n10 down  1 2 #12345678\n",
        "wade-events 1\nseed 1\n10 down 1 2147483648 #12345678\n",
    ];
    for text in bad {
        assert!(Recording::parse(text.as_bytes()).is_none(), "{text:?}");
    }
    assert!(Recording::parse("wade-events 1\nseed 18446744073709551615\n".as_bytes()).is_some());
}

#[test]
fn a_new_recording_is_empty() {
    let r = Recording::new(7);
    assert_eq!(r.seed, 7);
    assert!(r.entries.is_empty());
}

#[test]
fn mismatch_reports_only_a_different_hash() {
    let e = Entry { at: ms(5), input: Input::Key(Key::Z), hash: 9 };
    assert_eq!(e.mismatch(3, 9), None);
    assert_eq!(e.mismatch(3, 8), Some(Mismatch { index: 3, at: ms(5), expected: 9, actual: 8 }));
}

/// Record a short session with the harness, as the desktop program does.
fn session(seed: u64) -> Recording {
    let mut h = Harness::new(seed);
    let mut r = Recording::new(seed);
    let c = wade_center();
    let inputs = [
        (1000, Input::Touch(Touch { phase: TouchPhase::Down, point: c })),
        (1080, Input::Touch(Touch { phase: TouchPhase::Up, point: c })),
        (2400, Input::Key(Key::Digit(Digit::new(3).unwrap()))),
        (9000, Input::Key(Key::Z)),
    ];
    for (at, input) in inputs {
        h.run_until(ms(at));
        let kind = input.kind();
        h.handle(Event { at: ms(at), kind });
        r.entries.push(Entry { at: ms(at), input, hash: h.state_hash() });
    }
    r
}

#[test]
fn a_recorded_session_replays_identically() {
    let r = session(42);
    let h = r.replay().ok().unwrap();
    assert!(h.buddy().unwrap().asleep);
}

#[test]
fn replay_reports_the_first_changed_hash() {
    let mut r = session(42);
    let expected = r.entries[1].hash;
    r.entries[1].hash ^= 1;
    r.entries[3].hash ^= 1;
    let m = r.replay().err().unwrap();
    assert_eq!(m, Mismatch { index: 1, at: ms(1080), expected: expected ^ 1, actual: expected });
}

#[test]
fn replay_step_delivers_due_deadlines_then_the_entry_then_waits() {
    let app = App::new(ms(0), 42, Settings::defaults());
    let d = app.next_deadline().unwrap();
    assert!(d.as_millis() >= 2000);
    // Nothing due yet, entry due: the entry.
    assert_eq!(replay_step(&app, ms(100), ms(100), 10), ReplayStep::Entry);
    // Entry not yet due: wait, capped at the poll interval.
    assert_eq!(replay_step(&app, ms(100), ms(40), 1000), ReplayStep::Wait(60));
    assert_eq!(replay_step(&app, ms(100), ms(40), 10), ReplayStep::Wait(10));
    // The deadline comes before the entry and has come: deliver it.
    assert_eq!(replay_step(&app, ms(20_000), ms(20_000), 10), ReplayStep::Deadline(d));
    // The deadline has come but the entry is earlier: the entry first.
    assert_eq!(replay_step(&app, ms(d.as_millis() - 1), ms(20_000), 10), ReplayStep::Entry);
    // Waiting for an entry after the deadline: wait for the deadline.
    let wait = d.as_millis() - 1000;
    assert_eq!(replay_step(&app, ms(20_000), ms(1000), 1_000_000), ReplayStep::Wait(wait));
}

#[test]
fn entries_are_written_in_the_documented_format() {
    let down = Entry {
        at: ms(1000),
        input: Input::Touch(Touch { phase: TouchPhase::Down, point: Point::new(160, 110) }),
        hash: 0x3f9a_1c02,
    };
    assert_eq!(down.text(), b"1000 down 160 110 #3f9a1c02".to_vec());
    let key = Entry { at: ms(2400), input: Input::Key(Key::Digit(Digit::new(3).unwrap())), hash: 0x5d21_a7c4 };
    assert_eq!(key.text(), b"2400 key 3 #5d21a7c4".to_vec());
    let left = Entry {
        at: ms(0),
        input: Input::Touch(Touch { phase: TouchPhase::Move, point: Point::new(-4, 0) }),
        hash: 0xab,
    };
    assert_eq!(left.text(), b"0 move -4 0 #000000ab".to_vec());
}

#[test]
fn the_documented_example_is_written_back_as_it_was_read() {
    let r = Recording::parse(EXAMPLE.as_bytes()).unwrap();
    assert_eq!(r.text(), EXAMPLE.as_bytes().to_vec());
}

#[test]
fn a_written_recording_reads_back() {
    let mut r = session(7);
    r.entries.push(Entry {
        at: ms(9500),
        input: Input::Touch(Touch { phase: TouchPhase::Up, point: Point::new(i32::MIN, i32::MAX) }),
        hash: u32::MAX,
    });
    let back = Recording::parse(&r.text()).unwrap();
    assert_eq!(back.seed, r.seed);
    assert_eq!(back.entries, r.entries);
}

#[test]
fn negative_coordinates_parse_within_i32() {
    let ok = "wade-events 1\nseed 1\n5 up -2147483648 -0 #00000001\n";
    let r = Recording::parse(ok.as_bytes()).unwrap();
    assert_eq!(
        r.entries[0].input,
        Input::Touch(Touch { phase: TouchPhase::Up, point: Point::new(i32::MIN, 0) })
    );
    let bad = "wade-events 1\nseed 1\n5 up -2147483649 0 #00000001\n";
    assert!(Recording::parse(bad.as_bytes()).is_none());
}
