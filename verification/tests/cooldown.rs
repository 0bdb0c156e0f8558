//! Tests for the cooldown timer.

use lockwars::Cooldown;

#[test]
fn cooldown_starts_not_ready() {
    let cooldown = Cooldown::new(10, 100);
    assert!(!cooldown.is_over(100));
    assert!(!cooldown.is_over(105));
    assert!(!cooldown.is_over(109));
}

#[test]
fn cooldown_fires_once_elapsed_reaches_duration() {
    let cooldown = Cooldown::new(10, 100);
    assert!(cooldown.is_over(110));
    assert!(cooldown.is_over(111));
    assert!(cooldown.is_over(u64::MAX));
}

#[test]
fn cooldown_not_ready_right_after_reset() {
    let mut cooldown = Cooldown::new(10, 100);
    assert!(cooldown.is_over(200));
    cooldown.reset(200);
    assert!(!cooldown.is_over(200));
    assert!(!cooldown.is_over(209));
    assert!(cooldown.is_over(210));
}

#[test]
fn execute_triggers_exactly_once_while_ready() {
    let mut cooldown = Cooldown::new(5, 0);
    assert!(!cooldown.execute(3));
    assert!(cooldown.execute(7));
    assert!(!cooldown.execute(7));
    assert!(!cooldown.execute(11));
    assert!(cooldown.execute(12));
}

#[test]
fn zero_duration_cooldown_is_always_over() {
    let mut cooldown = Cooldown::new(0, 50);
    assert!(cooldown.is_over(50));
    assert!(cooldown.is_over(49));
    cooldown.reset(60);
    assert!(cooldown.is_over(60));
}

#[test]
fn timestamps_before_the_last_reset_count_as_no_elapsed_time() {
    let cooldown = Cooldown::new(10, 100);
    assert!(!cooldown.is_over(90));
    assert!(!cooldown.is_over(0));
}
