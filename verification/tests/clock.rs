use clockwatch::{Clockwatch, Span};

fn ms(millis: u64) -> Span {
    Span::from_millis(millis)
}

#[test]
fn new_clock_is_paused_at_zero_without_laps() {
    let clock = Clockwatch::new();
    assert!(!clock.is_running());
    assert_eq!(clock.elapsed_time(), Span::zero());
    assert!(clock.laps().is_empty());
}

#[test]
fn paused_updates_leave_elapsed_unchanged() {
    let mut clock = Clockwatch::new();
    for dt in [0u64, 1, 16, 1_000, 3_600_000] {
        clock.update(ms(dt));
        assert_eq!(clock.elapsed_time(), Span::zero());
    }
    clock.toggle_start_pause();
    clock.update(ms(250));
    clock.toggle_start_pause();
    for dt in [5u64, 500, 50_000] {
        clock.update(ms(dt));
    }
    assert_eq!(clock.elapsed_time(), ms(250));
    assert!(!clock.is_running());
}

#[test]
fn running_updates_add_up() {
    let mut clock = Clockwatch::new();
    clock.toggle_start_pause();
    let steps = [1u128, 999_999, 16_000_000, 7, 1_500_000_000];
    let mut sum: u128 = 0;
    for dt in steps {
        clock.update(Span::from_nanos(dt));
        sum += dt;
        assert_eq!(clock.elapsed_time().as_nanos(), sum);
    }
    assert_eq!(sum, 1_517_000_007);
    assert!(clock.is_running());
    assert!(clock.laps().is_empty());
}

#[test]
fn frames_below_a_millisecond_are_not_lost() {
    let mut clock = Clockwatch::new();
    clock.toggle_start_pause();
    for _ in 0..1000 {
        clock.update(Span::from_nanos(1_500));
    }
    assert_eq!(clock.elapsed_time().as_nanos(), 1_500_000);
    assert_eq!(clock.elapsed_time().as_millis(), 1);
}

#[test]
fn toggle_twice_restores_running_and_keeps_the_rest() {
    let mut clock = Clockwatch::new();
    clock.toggle_start_pause();
    clock.update(ms(42));
    clock.lap();
    let laps_before = clock.laps().clone();
    for start_running in [true, false] {
        if clock.is_running() != start_running {
            clock.toggle_start_pause();
        }
        clock.toggle_start_pause();
        assert_eq!(clock.is_running(), !start_running);
        clock.toggle_start_pause();
        assert_eq!(clock.is_running(), start_running);
        assert_eq!(clock.elapsed_time(), ms(42));
        assert_eq!(clock.laps(), &laps_before);
    }
}

#[test]
fn lap_appends_the_current_elapsed_time() {
    let mut clock = Clockwatch::new();
    clock.toggle_start_pause();
    clock.update(ms(700));
    clock.lap();
    assert_eq!(clock.laps(), &vec![ms(700)]);
    assert_eq!(clock.elapsed_time(), ms(700));
    assert!(clock.is_running());
}

#[test]
fn n_laps_give_n_entries_in_call_order() {
    let mut clock = Clockwatch::new();
    clock.toggle_start_pause();
    let mut expected = Vec::new();
    for n in 1..=25u64 {
        clock.update(ms(n));
        clock.lap();
        expected.push(ms(n * (n + 1) / 2));
        assert_eq!(clock.laps().len(), n as usize);
    }
    assert_eq!(clock.laps(), &expected);
}

#[test]
fn lap_while_paused_captures_the_frozen_value() {
    let mut clock = Clockwatch::new();
    clock.toggle_start_pause();
    clock.update(ms(300));
    clock.toggle_start_pause();
    clock.lap();
    clock.update(ms(900));
    clock.lap();
    assert_eq!(clock.laps(), &vec![ms(300), ms(300)]);
    assert!(!clock.is_running());
}

#[test]
fn laps_never_exceed_elapsed_and_elapsed_never_decreases() {
    let mut clock = Clockwatch::new();
    let mut last = 0u128;
    for round in 0..40u64 {
        match round % 4 {
            0 => clock.toggle_start_pause(),
            1 => clock.update(ms(round * 3)),
            2 => clock.lap(),
            _ => clock.update(Span::from_nanos(1)),
        }
        let now = clock.elapsed_time().as_nanos();
        assert!(now >= last);
        last = now;
        assert!(clock.laps().iter().all(|lap| lap.as_nanos() <= now));
    }
    assert_eq!(clock.laps().len(), 10);
}

#[test]
fn running_clock_lap_scenario() {
    let mut clock = Clockwatch::new();
    clock.toggle_start_pause();
    assert!(clock.is_running());
    clock.update(ms(1500));
    clock.lap();
    assert_eq!(clock.clock_line(), "00:00:01:500");
    assert_eq!(clock.lap_lines(), vec!["Laps:".to_string(), "00:00:01:500".to_string()]);
}

#[test]
fn laps_are_listed_most_recent_first() {
    let mut clock = Clockwatch::new();
    clock.toggle_start_pause();
    clock.update(ms(500));
    clock.lap();
    clock.update(ms(500));
    clock.lap();
    assert_eq!(
        clock.lap_lines(),
        vec!["Laps:".to_string(), "00:00:01:000".to_string(), "00:00:00:500".to_string()]
    );
    assert_eq!(clock.laps(), &vec![ms(500), ms(1000)]);
}

#[test]
fn lap_list_of_a_fresh_clock_is_only_the_heading() {
    let clock = Clockwatch::new();
    assert_eq!(clock.lap_lines(), vec!["Laps:".to_string()]);
    assert_eq!(clock.clock_line(), "00:00:00:000");
}

#[test]
fn render_gives_clock_and_laps_and_changes_nothing() {
    let mut clock = Clockwatch::new();
    clock.toggle_start_pause();
    clock.update(ms(61_001));
    clock.lap();
    clock.update(ms(3_600_000));
    let first = clock.render();
    let second = clock.render();
    assert_eq!(first.clock, "01:01:01:001");
    assert_eq!(first.laps, vec!["Laps:".to_string(), "00:01:01:001".to_string()]);
    assert_eq!(first.clock, second.clock);
    assert_eq!(first.laps, second.laps);
    assert!(clock.is_running());
    assert_eq!(clock.elapsed_time(), ms(3_661_001));
    assert_eq!(clock.laps(), &vec![ms(61_001)]);
}
