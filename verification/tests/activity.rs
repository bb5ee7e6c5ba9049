use status_blocks::blocks::activity::{
    get_idle, rate_countdown, rate_countup, Activity, ActivityConfig, Phase, INFO_LIMIT, WARNING_LIMIT,
};
use status_blocks::clock::Moment;
use status_blocks::widget::State;

fn secs(s: u64) -> Moment {
    Moment::from_secs(s)
}

fn config(reset_time: u64, idle_threshold: u64) -> ActivityConfig {
    ActivityConfig { interval: 1, reset_time, idle_threshold }
}

/// A block with the usual settings (reset after 300 s, idle from 10 s),
/// started at clock reading zero.
fn usual() -> Activity {
    Activity::with_id(String::from("block"), config(300, 10), secs(0))
}

#[test]
fn activity_config_defaults() {
    assert_eq!(ActivityConfig::default_interval(), 1);
    assert_eq!(ActivityConfig::default_reset_time(), 300);
    assert_eq!(ActivityConfig::default_idle_threshold(), 10);
}

#[test]
fn activity_starts_with_an_empty_idle_label() {
    let a = usual();
    assert_eq!(a.id(), "block");
    assert_eq!(a.text(), "");
    assert_eq!(a.state(), State::Idle);
}

#[test]
fn activity_new_draws_a_hex_identifier() {
    let a = Activity::new(config(300, 10), secs(0));
    assert_eq!(a.id().len(), 32);
    assert!(a.id().chars().all(|c| matches!(c, '0'..='9' | 'a'..='f')));
    assert_eq!(a.text(), "");
    assert_eq!(a.state(), State::Idle);
    let b = Activity::new(config(300, 10), secs(0));
    assert_ne!(a.id(), b.id());
}

#[test]
fn activity_new_behaves_like_with_id() {
    let mut a = Activity::new(config(300, 10), secs(40));
    let mut b = Activity::with_id(String::new(), config(300, 10), secs(40));
    for (reading, now) in [(Some(1_000), 50), (Some(30_000), 60), (Some(30_000), 65), (None, 400)] {
        assert_eq!(a.update(reading, secs(now)), b.update(reading, secs(now)));
        assert_eq!(a.text(), b.text());
        assert_eq!(a.state(), b.state());
    }
}

#[test]
fn activity_update_returns_the_configured_interval() {
    let cfg = ActivityConfig { interval: 7, reset_time: 300, idle_threshold: 10 };
    let mut a = Activity::with_id(String::new(), cfg, secs(0));
    assert_eq!(a.update(Some(1_000), secs(1)), 7);
    assert_eq!(a.update(Some(400_000), secs(2)), 7);
}

#[test]
fn phase_follows_the_thresholds() {
    assert_eq!(Phase::classify(0, 300, 10), Phase::Active);
    assert_eq!(Phase::classify(9, 300, 10), Phase::Active);
    assert_eq!(Phase::classify(10, 300, 10), Phase::Idle);
    assert_eq!(Phase::classify(299, 300, 10), Phase::Idle);
    assert_eq!(Phase::classify(300, 300, 10), Phase::AwayComplete);
    assert_eq!(Phase::classify(u128::MAX, 300, 10), Phase::AwayComplete);
}

#[test]
fn a_complete_break_outranks_an_idle_spell() {
    // With the reset time below the idle threshold there is no idle spell.
    assert_eq!(Phase::classify(4, 5, 10), Phase::Active);
    assert_eq!(Phase::classify(5, 5, 10), Phase::AwayComplete);
    assert_eq!(Phase::classify(7, 5, 10), Phase::AwayComplete);
    assert_eq!(Phase::classify(10, 5, 10), Phase::AwayComplete);
    assert_eq!(Phase::classify(0, 0, 0), Phase::AwayComplete);

    let mut a = Activity::with_id(String::new(), config(5, 10), secs(0));
    a.update(Some(7_000), secs(100));
    assert_eq!(a.text(), "00h00m00");
    assert_eq!(a.state(), State::Info);
}

#[test]
fn away_complete_shows_zero_and_restarts_the_countup() {
    let mut a = usual();
    assert_eq!(a.phase(Some(300_000), secs(50)), Phase::AwayComplete);
    a.update(Some(300_000), secs(50));
    assert_eq!(a.text(), "00h00m00");
    assert_eq!(a.state(), State::Info);

    // The count-up now runs from the tick that completed the break.
    a.update(Some(1_000), secs(57));
    assert_eq!(a.text(), "00h00m07");
    assert_eq!(a.state(), State::Info);
}

#[test]
fn away_complete_for_every_reading_past_the_reset_time() {
    for reading in [300_000u64, 300_001, 300_999, 301_000, 1_000_000, u64::MAX] {
        let mut a = usual();
        assert_eq!(a.phase(Some(reading), secs(5000)), Phase::AwayComplete);
        a.update(Some(reading), secs(5000));
        assert_eq!(a.text(), "00h00m00");
        assert_eq!(a.state(), State::Info);
    }
}

#[test]
fn idle_counts_down_to_the_reset_time() {
    let mut a = usual();
    assert_eq!(a.phase(Some(20_000), secs(5)), Phase::Idle);
    a.update(Some(20_000), secs(5));
    assert_eq!(a.text(), "00h04m40");
    assert_eq!(a.state(), State::Warning);

    a.update(Some(21_999), secs(6));
    assert_eq!(a.text(), "00h04m39");
    assert_eq!(a.state(), State::Warning);
}

#[test]
fn idle_at_its_two_ends() {
    let mut a = usual();
    a.update(Some(9_999), secs(1));
    assert_eq!(a.text(), "00h00m01");
    assert_eq!(a.state(), State::Info);

    a.update(Some(10_000), secs(2));
    assert_eq!(a.text(), "00h04m50");
    assert_eq!(a.state(), State::Warning);

    a.update(Some(299_999), secs(3));
    assert_eq!(a.text(), "00h00m01");
    assert_eq!(a.state(), State::Warning);

    a.update(Some(300_000), secs(4));
    assert_eq!(a.text(), "00h00m00");
    assert_eq!(a.state(), State::Info);
}

#[test]
fn idle_does_not_move_the_countup_anchor() {
    let mut a = usual();
    a.update(Some(50_000), secs(100));
    assert_eq!(a.text(), "00h04m10");
    a.update(Some(2_000), secs(130));
    assert_eq!(a.text(), "00h02m10");
    assert_eq!(a.state(), State::Info);
}

#[test]
fn countdown_state_is_info_only_at_zero() {
    assert_eq!(rate_countdown(0), State::Info);
    assert_eq!(rate_countdown(1), State::Warning);
    assert_eq!(rate_countdown(u64::MAX), State::Warning);
}

#[test]
fn active_counts_up_from_the_anchor() {
    let mut a = Activity::with_id(String::new(), config(300, 10), Moment::new(10, 500_000_000).unwrap());
    a.update(Some(100), Moment::new(11, 499_999_999).unwrap());
    assert_eq!(a.text(), "00h00m00");
    a.update(Some(200), Moment::new(11, 500_000_000).unwrap());
    assert_eq!(a.text(), "00h00m01");
    a.update(Some(300), secs(110));
    assert_eq!(a.text(), "00h01m39");
    a.update(Some(400), secs(3735));
    assert_eq!(a.text(), "01h02m04");
    assert_eq!(a.state(), State::Critical);
}

#[test]
fn active_countup_never_goes_down_between_ticks() {
    let mut a = usual();
    let mut last = String::from("00h00m00");
    for step in 1..400u64 {
        // A reading that changes on every tick and stays below the threshold.
        a.update(Some(step % 7 * 1_000 + step % 3), secs(step * 9));
        let text = String::from(a.text());
        assert!(text >= last, "{} after {}", text, last);
        last = text;
    }
    assert_eq!(last, "00h59m51");
}

#[test]
fn a_clock_that_ran_backwards_shows_zero() {
    let mut a = Activity::with_id(String::new(), config(300, 10), secs(1000));
    a.update(Some(1_000), secs(400));
    assert_eq!(a.text(), "00h00m00");
    assert_eq!(a.state(), State::Info);
}

#[test]
fn countup_tiers_at_their_boundaries() {
    assert_eq!(rate_countup(0), State::Info);
    assert_eq!(rate_countup(1800), State::Info);
    assert_eq!(rate_countup(1801), State::Warning);
    assert_eq!(rate_countup(3000), State::Warning);
    assert_eq!(rate_countup(3001), State::Critical);
    assert_eq!(rate_countup(u64::MAX), State::Critical);
    assert_eq!(INFO_LIMIT, 1800);
    assert_eq!(WARNING_LIMIT, 3000);
}

#[test]
fn countup_tiers_through_a_tick() {
    for (elapsed, text, state) in [
        (1800u64, "00h30m00", State::Info),
        (1801, "00h30m01", State::Warning),
        (3000, "00h50m00", State::Warning),
        (3001, "00h50m01", State::Critical),
    ] {
        let mut a = usual();
        a.update(Some(4_321), secs(elapsed));
        assert_eq!(a.text(), text);
        assert_eq!(a.state(), state);
    }
}

#[test]
fn a_frozen_reading_is_taken_at_face_value_below_the_threshold() {
    let mut a = usual();
    a.update(Some(5_000), secs(100));
    assert_eq!(a.text(), "00h01m40");
    assert_eq!(a.idle_seconds(Some(5_000), secs(109)), 5);
    assert_eq!(a.phase(Some(5_000), secs(109)), Phase::Active);
    a.update(Some(5_000), secs(109));
    assert_eq!(a.text(), "00h01m49");
    assert_eq!(a.state(), State::Info);
}

#[test]
fn a_frozen_reading_advances_once_the_threshold_has_passed() {
    let mut a = usual();
    a.update(Some(5_000), secs(100));
    assert_eq!(a.idle_seconds(Some(5_000), secs(100)), 5);

    // Ten seconds without a change: the stall is added to the reading.
    assert_eq!(a.idle_seconds(Some(5_000), secs(110)), 15);
    assert_eq!(a.phase(Some(5_000), secs(110)), Phase::Idle);
    a.update(Some(5_000), secs(110));
    assert_eq!(a.text(), "00h04m45");
    assert_eq!(a.state(), State::Warning);

    // The stall is counted from when the reading was first seen, on every
    // tick anew.
    assert_eq!(a.idle_seconds(Some(5_000), secs(120)), 25);
    a.update(Some(5_000), secs(120));
    assert_eq!(a.text(), "00h04m35");

    assert_eq!(a.idle_seconds(Some(5_000), secs(394)), 299);
    assert_eq!(a.idle_seconds(Some(5_000), secs(395)), 300);
    a.update(Some(5_000), secs(395));
    assert_eq!(a.text(), "00h00m00");
    assert_eq!(a.state(), State::Info);
}

#[test]
fn a_new_reading_restarts_the_stall() {
    let mut a = usual();
    a.update(Some(5_000), secs(100));
    a.update(Some(5_000), secs(115));
    assert_eq!(a.text(), "00h04m40");

    a.update(Some(5_001), secs(116));
    assert_eq!(a.text(), "00h01m56");
    assert_eq!(a.idle_seconds(Some(5_001), secs(125)), 5);
    assert_eq!(a.idle_seconds(Some(5_001), secs(126)), 15);
}

#[test]
fn the_stall_keeps_sub_second_readings() {
    let mut a = usual();
    a.update(Some(5_999), secs(100));
    assert_eq!(a.idle_seconds(Some(5_999), secs(110)), 15);
    assert_eq!(a.idle_seconds(Some(5_999), Moment::new(110, 999_999_999).unwrap()), 15);
    assert_eq!(a.idle_seconds(Some(5_999), secs(111)), 16);
}

#[test]
fn compensation_does_not_overflow() {
    let mut a = usual();
    a.update(Some(u64::MAX), secs(0));
    assert_eq!(a.idle_seconds(Some(u64::MAX), secs(0)), 18_446_744_073_709_551);
    assert_eq!(a.idle_seconds(Some(u64::MAX), secs(20)), 18_446_744_073_709_571);
    assert_eq!(
        a.idle_seconds(Some(u64::MAX), secs(u64::MAX)),
        18_446_744_073_709_551 + u64::MAX as u128
    );
    a.update(Some(u64::MAX), secs(u64::MAX));
    assert_eq!(a.text(), "00h00m00");
}

#[test]
fn an_unsupported_query_counts_as_zero() {
    let mut a = usual();
    assert_eq!(a.idle_seconds(None, secs(5)), 0);
    assert_eq!(a.idle_seconds(None, secs(5)), a.idle_seconds(Some(0), secs(5)));
    a.update(None, secs(5));
    assert_eq!(a.text(), "00h00m05");
    assert_eq!(a.state(), State::Info);

    // Zero is the reading the block starts from, so it stalls like any other.
    a.update(None, secs(10));
    assert_eq!(a.text(), "00h04m50");
    assert_eq!(a.state(), State::Warning);

    let mut b = usual();
    b.update(Some(3_000), secs(1));
    b.update(None, secs(30));
    assert_eq!(b.text(), "00h00m30");
}

#[test]
fn click_restarts_the_countup() {
    let mut a = usual();
    a.update(Some(1_000), secs(2000));
    assert_eq!(a.text(), "00h33m20");
    assert_eq!(a.state(), State::Warning);

    a.click(secs(2001));
    // Label and state change with the next tick, not with the click.
    assert_eq!(a.text(), "00h33m20");
    assert_eq!(a.state(), State::Warning);

    a.update(Some(1_500), secs(2010));
    assert_eq!(a.text(), "00h00m09");
    assert_eq!(a.state(), State::Info);
}

#[test]
fn click_does_not_override_a_high_idle_reading() {
    let mut a = usual();
    a.update(Some(50_000), secs(10));
    assert_eq!(a.text(), "00h04m10");

    a.click(secs(11));
    assert_eq!(a.phase(Some(60_000), secs(12)), Phase::Idle);
    a.update(Some(60_000), secs(12));
    assert_eq!(a.text(), "00h04m00");
    assert_eq!(a.state(), State::Warning);

    a.click(secs(13));
    assert_eq!(a.phase(Some(400_000), secs(13)), Phase::AwayComplete);
    a.update(Some(400_000), secs(13));
    assert_eq!(a.text(), "00h00m00");
    assert_eq!(a.state(), State::Info);
}

#[test]
fn click_leaves_the_stall_alone() {
    let mut a = usual();
    a.update(Some(5_000), secs(100));
    a.click(secs(105));
    assert_eq!(a.idle_seconds(Some(5_000), secs(110)), 15);
    a.update(Some(5_000), secs(110));
    assert_eq!(a.text(), "00h04m45");
    assert_eq!(a.state(), State::Warning);
}

#[test]
fn asking_for_the_phase_changes_nothing() {
    let mut a = usual();
    a.update(Some(1_000), secs(10));
    assert_eq!(a.phase(Some(400_000), secs(20)), Phase::AwayComplete);
    assert_eq!(a.text(), "00h00m10");
    a.update(Some(2_000), secs(30));
    assert_eq!(a.text(), "00h00m30");
}

#[test]
fn get_idle_takes_no_answer_for_zero() {
    assert_eq!(get_idle(None), 0);
    assert_eq!(get_idle(Some(0)), 0);
    assert_eq!(get_idle(Some(1234)), 1234);
    assert_eq!(get_idle(Some(u64::MAX)), u64::MAX);
}
