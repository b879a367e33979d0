use routine::app::App;
use routine::settings::Settings;
use routine::step::{StepColor, StepId};

const MS: u64 = 1_000_000;
const SECOND: u64 = 1_000_000_000;

fn nanos(seconds: u64) -> u128 {
    (seconds * SECOND) as u128
}

#[test]
fn first_poll_reports_the_preparation() {
    let mut app = App::starting_at(Settings::new(5, 10, 10), 100);
    assert!(app.can_advance(100));
    let (round, step, remaining) = app.advance(100);
    assert_eq!(round, 1);
    assert_eq!(step.id, StepId::Prep);
    assert_eq!(step.name, "Prepare");
    assert_eq!(step.color, StepColor::Blue);
    assert_eq!(step.duration, nanos(5));
    assert_eq!(remaining, nanos(5));
}

#[test]
fn a_fresh_routine_prepares_in_round_one() {
    let app = App::starting_at(Settings::new(3, 10, 10), 7 * SECOND);
    assert_eq!(app.round_nr(), 1);
    assert_eq!(app.step().id, StepId::Prep);
    assert_eq!(app.expiration(), nanos(10));
    assert!(app.is_runnable());
}

#[test]
fn the_countdown_follows_the_clock() {
    let mut app = App::starting_at(Settings::new(5, 10, 10), 0);
    let (_, step, remaining) = app.advance(2 * SECOND + 300 * MS);
    assert_eq!(step.id, StepId::Prep);
    assert_eq!(remaining, 2_700_000_000);
    assert_eq!(app.expiration(), nanos(5));
}

#[test]
fn a_step_is_shown_with_no_time_left_before_it_gives_way() {
    let mut app = App::starting_at(Settings::new(5, 10, 10), 0);
    let (round, step, remaining) = app.advance(5 * SECOND);
    assert_eq!((round, step.id, remaining), (1, StepId::Prep, 0));
    let (round, step, remaining) = app.advance(5 * SECOND + 1);
    assert_eq!((round, step.id, remaining), (1, StepId::Work, nanos(10)));
    assert_eq!(step.name, "Work");
    assert_eq!(step.color, StepColor::Red);
    assert_eq!(app.expiration(), nanos(15) + 1);
}

#[test]
fn the_round_goes_up_from_rest_to_work() {
    let mut app = App::starting_at(Settings::new(5, 10, 10), 0);
    let (round, step, _) = app.advance(5 * SECOND + 1);
    assert_eq!((round, step.id), (1, StepId::Work));
    let (round, step, remaining) = app.advance(15 * SECOND + 2);
    assert_eq!((round, step.id, remaining), (1, StepId::Rest, nanos(10)));
    assert_eq!(step.name, "Rest");
    assert_eq!(step.color, StepColor::Green);
    let (round, step, remaining) = app.advance(25 * SECOND + 3);
    assert_eq!((round, step.id, remaining), (2, StepId::Work, nanos(10)));
    let (round, step, _) = app.advance(35 * SECOND + 4);
    assert_eq!((round, step.id), (2, StepId::Rest));
    let (round, step, _) = app.advance(45 * SECOND + 5);
    assert_eq!((round, step.id), (3, StepId::Work));
    assert_eq!(app.round_nr(), 3);
}

#[test]
fn a_late_poll_moves_on_by_one_step() {
    let mut app = App::starting_at(Settings::new(5, 10, 10), 0);
    let (round, step, remaining) = app.advance(47 * SECOND);
    assert_eq!((round, step.id, remaining), (1, StepId::Work, nanos(10)));
    assert_eq!(app.expiration(), nanos(57));
}

#[test]
fn polls_every_millisecond_reach_the_third_round() {
    let mut app = App::starting_at(Settings::new(5, 10, 10), 0);
    let mut last = app.advance(0);
    for k in 1..=47_000u64 {
        last = app.advance(k * MS);
    }
    let (round, step, remaining) = last;
    assert_eq!((round, step.id), (3, StepId::Work));
    assert_eq!(remaining, 8_005_000_000);
}

#[test]
fn one_second_of_work_and_of_rest() {
    let start = 1_000 * SECOND;
    let mut app = App::starting_at(Settings::new(0, 1, 1), start);
    let (round, step, remaining) = app.advance(start);
    assert_eq!((round, step.id, remaining), (1, StepId::Prep, 0));
    let (round, step, remaining) = app.advance(start + SECOND);
    assert_eq!((round, step.id, remaining), (1, StepId::Work, nanos(1)));
    let (round, step, remaining) = app.advance(start + 1_001 * MS);
    assert_eq!((round, step.id, remaining), (1, StepId::Work, 999_000_000));
    let (round, step, remaining) = app.advance(start + 2_001 * MS);
    assert_eq!((round, step.id, remaining), (1, StepId::Rest, nanos(1)));
    let (round, step, remaining) = app.advance(start + 3_001 * MS);
    assert_eq!((round, step.id, remaining), (1, StepId::Rest, 0));
    let (round, step, remaining) = app.advance(start + 3_002 * MS);
    assert_eq!((round, step.id, remaining), (2, StepId::Work, nanos(1)));
}

#[test]
fn no_preparation_goes_to_work_at_the_first_later_poll() {
    let mut app = App::starting_at(Settings::new(0, 30, 30), 50);
    assert_eq!(app.step().id, StepId::Prep);
    assert_eq!(app.expiration(), 50);
    let (round, step, remaining) = app.advance(51);
    assert_eq!((round, step.id, remaining), (1, StepId::Work, nanos(30)));
}

#[test]
fn a_routine_without_work_goes_straight_to_rest() {
    let mut app = App::starting_at(Settings::new(5, 0, 10), 0);
    let (round, step, remaining) = app.advance(5 * SECOND);
    assert_eq!((round, step.id, remaining), (1, StepId::Prep, 0));
    let (round, step, remaining) = app.advance(5 * SECOND + 1);
    assert_eq!((round, step.id, remaining), (1, StepId::Rest, nanos(10)));
    let (round, step, remaining) = app.advance(15 * SECOND + 2);
    assert_eq!((round, step.id, remaining), (2, StepId::Rest, nanos(10)));
    let (round, step, _) = app.advance(25 * SECOND + 3);
    assert_eq!((round, step.id), (3, StepId::Rest));
}

#[test]
fn a_routine_without_rest_works_round_after_round() {
    let mut app = App::starting_at(Settings::new(1, 2, 0), 0);
    let (round, step, _) = app.advance(SECOND + 1);
    assert_eq!((round, step.id), (1, StepId::Work));
    let (round, step, remaining) = app.advance(3 * SECOND + 2);
    assert_eq!((round, step.id, remaining), (2, StepId::Work, nanos(2)));
}

#[test]
fn polling_twice_at_one_instant_changes_nothing() {
    let mut app = App::starting_at(Settings::new(5, 10, 10), 0);
    let first = app.advance(20 * SECOND);
    let expiration = app.expiration();
    let second = app.advance(20 * SECOND);
    assert_eq!((first.0, first.1.id, first.2), (second.0, second.1.id, second.2));
    assert_eq!(first.1.duration, second.1.duration);
    assert_eq!(app.expiration(), expiration);
    assert_eq!(app.round_nr(), first.0);
}

#[test]
fn the_time_left_is_never_more_than_the_step_lasts() {
    let mut app = App::starting_at(Settings::new(2, 3, 1), 0);
    let mut rounds = 1;
    for k in 0..20_000u64 {
        let (round, step, remaining) = app.advance(k * MS);
        assert!(remaining <= step.duration);
        assert!(round == rounds || round == rounds + 1);
        assert!(k <= 2_000 || step.id != StepId::Prep);
        assert!(step.id == StepId::Prep || step.duration > 0);
        rounds = round;
    }
    assert_eq!(rounds, 5);
}

#[test]
fn a_clock_that_goes_back_changes_nothing() {
    let mut app = App::starting_at(Settings::new(5, 10, 10), 100 * SECOND);
    let (round, step, remaining) = app.advance(90 * SECOND);
    assert_eq!((round, step.id, remaining), (1, StepId::Prep, nanos(15)));
    assert_eq!(app.expiration(), nanos(105));
}

#[test]
fn a_routine_of_preparation_alone_cannot_leave_it() {
    let mut app = App::starting_at(Settings::new(5, 0, 0), 0);
    assert!(!app.is_runnable());
    assert!(app.can_advance(5 * SECOND));
    let (round, step, remaining) = app.advance(4 * SECOND);
    assert_eq!((round, step.id, remaining), (1, StepId::Prep, nanos(1)));
    assert!(!app.can_advance(5 * SECOND + 1));
}

#[test]
fn the_longest_durations_fit() {
    let mut app = App::starting_at(Settings::new(i64::MAX, i64::MAX, i64::MAX), u64::MAX);
    let whole = i64::MAX as u128 * 1_000_000_000;
    assert_eq!(app.expiration(), u64::MAX as u128 + whole);
    let (round, step, remaining) = app.advance(u64::MAX);
    assert_eq!((round, step.id, remaining), (1, StepId::Prep, whole));
}

#[test]
fn the_clock_drives_a_routine() {
    let mut app = App::new(Settings::new(1_000, 30, 30));
    assert_eq!(app.round_nr(), 1);
    let (round, step, remaining) = app.tick();
    assert_eq!((round, step.id), (1, StepId::Prep));
    assert!(remaining <= nanos(1_000));
    assert!(remaining > nanos(990));
    let frame = app.on_render();
    assert_eq!(frame.label, "Round 1 | Prepare");
    assert_eq!(frame.color, StepColor::Blue);
    assert!(frame.time_remaining.starts_with("16:3"));
}

#[test]
fn the_clock_moves_past_an_empty_preparation() {
    let mut app = App::new(Settings::new(0, 30, 30));
    let mut status = app.tick();
    let mut polls = 0;
    while status.1.id == StepId::Prep && polls < 10_000_000 {
        assert_eq!(status.2, 0);
        status = app.tick();
        polls += 1;
    }
    assert_eq!((status.0, status.1.id, status.2), (1, StepId::Work, nanos(30)));
}

#[test]
fn rendering_brings_the_routine_up_to_date() {
    let mut app = App::starting_at(Settings::new(5, 90, 10), 0);
    let frame = app.render_at(5 * SECOND + 1);
    assert_eq!(frame.label, "Round 1 | Work");
    assert_eq!(frame.time_remaining, "01:30.0");
    assert_eq!(frame.color, StepColor::Red);
    let frame = app.render_at(6 * SECOND + 500 * MS);
    assert_eq!(frame.label, "Round 1 | Work");
    assert_eq!(frame.time_remaining, "01:28.5");
    assert_eq!(app.step().id, StepId::Work);
}
