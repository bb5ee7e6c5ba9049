//! What holds of every tick of the activity block, proved from the model.

use crate::blocks::activity::{countup_state, ActivityModel, Phase};
use crate::clock::{elapsed_secs, lemma_elapsed_secs_monotonic};
use crate::decimal::clock_label;
use crate::widget::State;
use vstd::prelude::*;

verus! {

/// Once the idle time reaches the reset time the break is complete: the
/// label shows zero seconds, the state is `Info`, and the count-up starts
/// over at the tick's clock reading.
pub proof fn lemma_break_complete(s: ActivityModel, raw: nat, now: nat)
    requires
        s.idle_secs(raw, now) >= s.reset_time,
    ensures
        s.phase(raw, now) == Phase::AwayComplete,
        s.displayed(raw, now) == 0,
        s.severity(raw, now) == State::Info,
        s.tick(raw, now).start_time == now,
        s.tick(raw, now).text == clock_label(0),
        s.tick(raw, now).state == State::Info,
{
}

/// Between the idle threshold and the reset time the label counts down the
/// seconds left of the break. The state is `Warning` unless nothing is
/// left, and something always is, since the idle time is still short of the
/// reset time. The count-up anchor stays where it was.
pub proof fn lemma_idle_countdown(s: ActivityModel, raw: nat, now: nat)
    requires
        s.idle_threshold <= s.idle_secs(raw, now) < s.reset_time,
    ensures
        s.phase(raw, now) == Phase::Idle,
        s.displayed(raw, now) == s.reset_time - s.idle_secs(raw, now),
        s.severity(raw, now) == if s.displayed(raw, now) == 0 {
            State::Info
        } else {
            State::Warning
        },
        s.displayed(raw, now) > 0,
        s.severity(raw, now) == State::Warning,
        s.tick(raw, now).start_time == s.start_time,
{
}

/// Below the idle threshold, and short of the reset time, the label counts
/// up the whole seconds since the count-up anchor, graded by
/// [`countup_state`]. The anchor stays where it was.
pub proof fn lemma_active_countup(s: ActivityModel, raw: nat, now: nat)
    requires
        s.idle_secs(raw, now) < s.idle_threshold,
        s.idle_secs(raw, now) < s.reset_time,
    ensures
        s.phase(raw, now) == Phase::Active,
        s.displayed(raw, now) == elapsed_secs(now, s.start_time),
        s.severity(raw, now) == countup_state(elapsed_secs(now, s.start_time)),
        s.tick(raw, now).start_time == s.start_time,
{
}

/// From one active tick to a later active tick the count-up never goes
/// down.
pub proof fn lemma_countup_never_decreases(
    s: ActivityModel,
    raw1: nat,
    now1: nat,
    raw2: nat,
    now2: nat,
)
    requires
        now1 <= now2,
        s.phase(raw1, now1) == Phase::Active,
        s.tick(raw1, now1).phase(raw2, now2) == Phase::Active,
    ensures
        s.displayed(raw1, now1) <= s.tick(raw1, now1).displayed(raw2, now2),
{
    lemma_elapsed_secs_monotonic(now1, now2, s.start_time);
}

/// The grades of the count-up: `Info` up to thirty minutes, `Warning` up to
/// fifty, `Critical` beyond.
pub proof fn lemma_countup_tiers(elapsed: nat)
    ensures
        countup_state(elapsed) == State::Info <==> elapsed <= 1800,
        countup_state(elapsed) == State::Warning <==> 1800 < elapsed <= 3000,
        countup_state(elapsed) == State::Critical <==> elapsed > 3000,
{
}

/// A counter that shows the value it showed before, and has done so for at
/// least the idle threshold, is made up for: the idle time that counts lies
/// above what the counter shows by a second for every second of the stall,
/// so the user no longer passes for active.
pub proof fn lemma_stall_is_compensated(s: ActivityModel, raw: nat, now: nat)
    requires
        raw == s.idle_last_reading,
        s.stall_secs(now) >= s.idle_threshold,
        s.idle_threshold >= 1,
    ensures
        s.compensated_ms(raw, now) == raw + 1000 * s.stall_secs(now),
        s.compensated_ms(raw, now) > raw,
        s.idle_secs(raw, now) >= s.idle_threshold,
        s.phase(raw, now) != Phase::Active,
{
}

/// Two ticks in a row that read the same value: if by the second the
/// counter has shown that value for at least the idle threshold, the idle
/// time of the second tick lies above the reading and is no smaller than
/// the idle time of the first; it is greater whenever the first tick still
/// took the reading at face value.
pub proof fn lemma_frozen_counter_advances(s: ActivityModel, raw: nat, now1: nat, now2: nat)
    requires
        now1 <= now2,
        s.idle_threshold >= 1,
        s.tick(raw, now1).stall_secs(now2) >= s.idle_threshold,
    ensures
        s.tick(raw, now1).compensated_ms(raw, now2) > raw,
        s.tick(raw, now1).compensated_ms(raw, now2) >= s.compensated_ms(raw, now1),
        s.compensated_ms(raw, now1) == raw ==> s.tick(raw, now1).compensated_ms(raw, now2)
            > s.compensated_ms(raw, now1),
        s.tick(raw, now1).phase(raw, now2) != Phase::Active,
{
    let s1 = s.tick(raw, now1);
    lemma_stall_is_compensated(s1, raw, now2);
    if raw == s.idle_last_reading {
        lemma_elapsed_secs_monotonic(now1, now2, s.idle_start_time);
    }
}

/// Declaring oneself active does not touch the idle bookkeeping: the tick
/// after a click goes by the same idle time and finds the same phase as it
/// would have without the click. A reading at or above the idle threshold
/// is therefore still reported as idle or as a complete break.
pub proof fn lemma_click_keeps_idle_verdict(s: ActivityModel, clicked_at: nat, raw: nat, now: nat)
    ensures
        s.interact(clicked_at).idle_secs(raw, now) == s.idle_secs(raw, now),
        s.interact(clicked_at).phase(raw, now) == s.phase(raw, now),
        s.idle_secs(raw, now) >= s.idle_threshold ==> s.interact(clicked_at).phase(raw, now)
            != Phase::Active,
{
}

/// A click changes the count-up anchor and nothing else, whatever came
/// before.
pub proof fn lemma_click_resets_countup(s: ActivityModel, clicked_at: nat, raw: nat, now: nat)
    requires
        s.interact(clicked_at).phase(raw, now) == Phase::Active,
    ensures
        s.interact(clicked_at).displayed(raw, now) == elapsed_secs(now, clicked_at),
{
}

/// How a tick moves the anchors. Each anchor is either left alone or set to
/// the tick's clock reading, so with a clock that does not run backwards
/// neither is ever rewound. The stall anchor moves exactly when the reading
/// is new, and the last reading is then replaced with it.
pub proof fn lemma_anchors_only_move_forward(s: ActivityModel, raw: nat, now: nat)
    ensures
        s.tick(raw, now).start_time == s.start_time || s.tick(raw, now).start_time == now,
        s.tick(raw, now).idle_start_time == if raw == s.idle_last_reading {
            s.idle_start_time
        } else {
            now
        },
        s.tick(raw, now).idle_last_reading == raw,
        now >= s.start_time ==> s.tick(raw, now).start_time >= s.start_time,
        now >= s.idle_start_time ==> s.tick(raw, now).idle_start_time >= s.idle_start_time,
        s.tick(raw, now).id == s.id,
        s.tick(raw, now).update_interval == s.update_interval,
        s.tick(raw, now).reset_time == s.reset_time,
        s.tick(raw, now).idle_threshold == s.idle_threshold,
{
}

} // verus!
