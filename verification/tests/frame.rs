use routine::frame::{format_clock, format_label, Frame};
use routine::step::{Step, StepColor, StepId};

const SECOND: u128 = 1_000_000_000;

#[test]
fn the_label_names_round_and_step() {
    assert_eq!(format_label(1, "Prepare"), "Round 1 | Prepare");
    assert_eq!(format_label(12, "Work"), "Round 12 | Work");
    assert_eq!(format_label(u64::MAX, "Rest"), "Round 18446744073709551615 | Rest");
}

#[test]
fn the_clock_shows_minutes_seconds_and_tenths() {
    assert_eq!(format_clock(0), "00:00.0");
    assert_eq!(format_clock(30 * SECOND), "00:30.0");
    assert_eq!(format_clock(89 * SECOND + 500_000_000), "01:29.5");
    assert_eq!(format_clock(10 * 60 * SECOND), "10:00.0");
    assert_eq!(format_clock(59 * 60 * SECOND + 59 * SECOND + 900_000_000), "59:59.9");
}

#[test]
fn less_than_a_tenth_is_dropped() {
    assert_eq!(format_clock(99_999_999), "00:00.0");
    assert_eq!(format_clock(100_000_000), "00:00.1");
    assert_eq!(format_clock(999_999_999), "00:00.9");
    assert_eq!(format_clock(SECOND), "00:01.0");
}

#[test]
fn minutes_run_past_two_places() {
    assert_eq!(format_clock(100 * 60 * SECOND), "100:00.0");
    assert_eq!(format_clock(6_000 * 60 * SECOND + 5 * SECOND + 250_000_000), "6000:05.2");
}

#[test]
fn a_frame_shows_a_status() {
    let step = Step::new(StepId::Rest, 30 * SECOND);
    assert_eq!(step.id, StepId::Rest);
    assert_eq!(step.name, "Rest");
    assert_eq!(step.color, StepColor::Green);
    assert_eq!(step.duration, 30 * SECOND);
    let frame = Frame::new(4, step, 12 * SECOND + 340_000_000);
    assert_eq!(frame.label, "Round 4 | Rest");
    assert_eq!(frame.time_remaining, "00:12.3");
    assert_eq!(frame.color, StepColor::Green);
}

#[test]
fn each_step_has_its_name_and_colour() {
    let prep = Step::new(StepId::Prep, 0);
    assert_eq!((prep.name, prep.color, prep.duration), ("Prepare", StepColor::Blue, 0));
    let work = Step::new(StepId::Work, 5);
    assert_eq!((work.name, work.color, work.duration), ("Work", StepColor::Red, 5));
}
