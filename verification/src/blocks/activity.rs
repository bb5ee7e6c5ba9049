//! How long the user has been at the keyboard, and how long until a break
//! counts as taken.
//!
//! The block is a small state machine. On every tick the host hands in the
//! idle counter of the display server and the current clock reading; the
//! block answers with a clock label and a [`State`]. While the user is active
//! the label counts up from the last break; once the user has been idle for
//! `idle_threshold` seconds it counts down to `reset_time`, and when that is
//! reached the break is complete and the count-up starts afresh.

use crate::clock::{elapsed_secs, Moment};
use crate::decimal::{clock_label, format_clock};
use crate::ident::{is_block_id, new_id};
use crate::widget::State;
use vstd::prelude::*;

verus! {

/// Longest stretch of activity, in seconds, that is still shown as `Info`.
pub const INFO_LIMIT: u64 = 1800;

/// Longest stretch of activity, in seconds, that is still shown as
/// `Warning`; anything longer is `Critical`.
pub const WARNING_LIMIT: u64 = 3000;

/// Settings of the block. All three are whole seconds.
#[derive(Clone, Copy, Debug)]
pub struct ActivityConfig {
    /// Update interval in seconds.
    pub interval: u64,
    /// Idle time after which a break is complete and the count-up restarts.
    pub reset_time: u64,
    /// Idle time below which the user still counts as active.
    pub idle_threshold: u64,
}

impl ActivityConfig {
    /// The update interval used when none is configured: one second.
    pub fn default_interval() -> (secs: u64)
        ensures
            secs == 1,
    {
        1
    }

    /// The reset time used when none is configured: five minutes.
    pub fn default_reset_time() -> (secs: u64)
        ensures
            secs == 300,
    {
        300
    }

    /// The idle threshold used when none is configured: ten seconds.
    pub fn default_idle_threshold() -> (secs: u64)
        ensures
            secs == 10,
    {
        10
    }
}

/// What the user is doing, as far as the idle counter tells.
#[derive(Clone, Copy, Debug, PartialEq, Eq, Structural)]
pub enum Phase {
    /// Idle for less than the threshold.
    Active,
    /// Idle for at least the threshold, but the break is not complete yet.
    Idle,
    /// Idle for at least the reset time.
    AwayComplete,
}

impl Phase {
    /// The phase for `idle_secs` seconds without input. A complete break
    /// takes precedence over an idle spell, and that over activity.
    pub open spec fn at(idle_secs: nat, reset_time: nat, idle_threshold: nat) -> Phase {
        if idle_secs >= reset_time {
            Phase::AwayComplete
        } else if idle_secs >= idle_threshold {
            Phase::Idle
        } else {
            Phase::Active
        }
    }

    /// Computes [`Phase::at`].
    pub fn classify(idle_secs: u128, reset_time: u64, idle_threshold: u64) -> (phase: Phase)
        ensures
            phase == Phase::at(idle_secs as nat, reset_time as nat, idle_threshold as nat),
    {
        if idle_secs >= reset_time as u128 {
            Phase::AwayComplete
        } else if idle_secs >= idle_threshold as u128 {
            Phase::Idle
        } else {
            Phase::Active
        }
    }
}

/// The idle time in milliseconds that a query of the idle counter stands
/// for. A display server that cannot tell answers nothing, which counts as
/// no idle time at all.
pub open spec fn raw_idle(reading: Option<u64>) -> nat {
    match reading {
        Some(ms) => ms as nat,
        None => 0,
    }
}

/// Computes [`raw_idle`].
pub fn get_idle(reading: Option<u64>) -> (ms: u64)
    ensures
        ms == raw_idle(reading),
{
    match reading {
        Some(ms) => ms,
        None => 0,
    }
}

/// The state shown while counting up `elapsed` seconds of activity.
pub open spec fn countup_state(elapsed: nat) -> State {
    if elapsed <= INFO_LIMIT {
        State::Info
    } else if elapsed <= WARNING_LIMIT {
        State::Warning
    } else {
        State::Critical
    }
}

/// The state shown while `remaining` seconds of a break are still to go.
pub open spec fn countdown_state(remaining: nat) -> State {
    if remaining > 0 {
        State::Warning
    } else {
        State::Info
    }
}

/// Computes [`countup_state`].
pub fn rate_countup(elapsed: u64) -> (state: State)
    ensures
        state == countup_state(elapsed as nat),
{
    if elapsed <= INFO_LIMIT {
        State::Info
    } else if elapsed <= WARNING_LIMIT {
        State::Warning
    } else {
        State::Critical
    }
}

/// Computes [`countdown_state`].
pub fn rate_countdown(remaining: u64) -> (state: State)
    ensures
        state == countdown_state(remaining as nat),
{
    if remaining > 0 {
        State::Warning
    } else {
        State::Info
    }
}

/// The block as the contracts see it. Clock readings are nanoseconds since
/// the host's origin, idle readings milliseconds, settings seconds.
pub struct ActivityModel {
    pub id: Seq<char>,
    pub update_interval: nat,
    pub reset_time: nat,
    pub idle_threshold: nat,
    /// Since when the user counts as continuously active.
    pub start_time: nat,
    /// When the idle counter last showed a new value.
    pub idle_start_time: nat,
    /// The last value the idle counter showed.
    pub idle_last_reading: nat,
    pub text: Seq<char>,
    pub state: State,
}

impl ActivityModel {
    /// Whole seconds for which the idle counter has shown the same value.
    pub open spec fn stall_secs(self, now: nat) -> nat {
        elapsed_secs(now, self.idle_start_time)
    }

    /// Whether the idle counter is taken to be stuck: it shows `raw` again
    /// and has done so for at least the idle threshold.
    pub open spec fn stalled(self, raw: nat, now: nat) -> bool {
        raw == self.idle_last_reading && self.stall_secs(now) >= self.idle_threshold
    }

    /// The idle time in milliseconds after making up for a stuck counter:
    /// the seconds for which it has been stuck are added to what it shows.
    pub open spec fn compensated_ms(self, raw: nat, now: nat) -> nat {
        if self.stalled(raw, now) {
            raw + 1000 * self.stall_secs(now)
        } else {
            raw
        }
    }

    /// Whole seconds of idle time that the tick goes by.
    pub open spec fn idle_secs(self, raw: nat, now: nat) -> nat {
        self.compensated_ms(raw, now) / 1000
    }

    /// The phase a tick with this reading finds the user in.
    pub open spec fn phase(self, raw: nat, now: nat) -> Phase {
        Phase::at(self.idle_secs(raw, now), self.reset_time, self.idle_threshold)
    }

    /// The seconds that the label of the tick shows.
    pub open spec fn displayed(self, raw: nat, now: nat) -> nat {
        match self.phase(raw, now) {
            Phase::AwayComplete => 0,
            Phase::Idle => (self.reset_time - self.idle_secs(raw, now)) as nat,
            Phase::Active => elapsed_secs(now, self.start_time),
        }
    }

    /// The state that the tick attaches to the label.
    pub open spec fn severity(self, raw: nat, now: nat) -> State {
        match self.phase(raw, now) {
            Phase::AwayComplete => State::Info,
            Phase::Idle => countdown_state(self.displayed(raw, now)),
            Phase::Active => countup_state(self.displayed(raw, now)),
        }
    }

    /// The block after a tick that read `raw` milliseconds of idle time at
    /// clock reading `now`.
    ///
    /// The stall anchor and the last reading move together, and only when
    /// the reading is new. The count-up anchor moves only when a break has
    /// just been completed. Label and state are replaced on every tick.
    pub open spec fn tick(self, raw: nat, now: nat) -> ActivityModel {
        ActivityModel {
            start_time: if self.phase(raw, now) == Phase::AwayComplete {
                now
            } else {
                self.start_time
            },
            idle_start_time: if raw == self.idle_last_reading {
                self.idle_start_time
            } else {
                now
            },
            idle_last_reading: raw,
            text: clock_label(self.displayed(raw, now)),
            state: self.severity(raw, now),
            ..self
        }
    }

    /// The block after the user declared themselves active at `now`: the
    /// count-up starts over and nothing else changes.
    pub open spec fn interact(self, now: nat) -> ActivityModel {
        ActivityModel { start_time: now, ..self }
    }
}

/// The activity block.
pub struct Activity {
    id: String,
    update_interval: u64,
    reset_time: u64,
    idle_threshold: u64,
    start_time: Moment,
    idle_start_time: Moment,
    idle_last_reading: u64,
    text: String,
    state: State,
}

impl View for Activity {
    type V = ActivityModel;

    closed spec fn view(&self) -> ActivityModel {
        ActivityModel {
            id: self.id@,
            update_interval: self.update_interval as nat,
            reset_time: self.reset_time as nat,
            idle_threshold: self.idle_threshold as nat,
            start_time: self.start_time@,
            idle_start_time: self.idle_start_time@,
            idle_last_reading: self.idle_last_reading as nat,
            text: self.text@,
            state: self.state,
        }
    }
}

impl Activity {
    /// The block as it stands before its first tick, given the clock
    /// reading `now`, under the identifier `id`: both anchors at `now`, no
    /// idle reading seen, an empty label.
    pub open spec fn initial(id: Seq<char>, block_config: ActivityConfig, now: nat) -> ActivityModel {
        ActivityModel {
            id,
            update_interval: block_config.interval as nat,
            reset_time: block_config.reset_time as nat,
            idle_threshold: block_config.idle_threshold as nat,
            start_time: now,
            idle_start_time: now,
            idle_last_reading: 0,
            text: Seq::empty(),
            state: State::Idle,
        }
    }

    /// A block with the given identifier, started at `now`.
    pub fn with_id(id: String, block_config: ActivityConfig, now: Moment) -> (block: Activity)
        ensures
            block@ == Activity::initial(id@, block_config, now@),
    {
        Activity {
            id,
            update_interval: block_config.interval,
            reset_time: block_config.reset_time,
            idle_threshold: block_config.idle_threshold,
            start_time: now,
            idle_start_time: now,
            idle_last_reading: 0,
            text: String::new(),
            state: State::Idle,
        }
    }

    /// A block with a fresh random identifier, started at `now`.
    pub fn new(block_config: ActivityConfig, now: Moment) -> (block: Activity)
        ensures
            is_block_id(block@.id),
            block@ == Activity::initial(block@.id, block_config, now@),
    {
        Activity::with_id(new_id(), block_config, now)
    }

    /// Whole seconds of idle time that a tick with this reading goes by.
    pub fn idle_seconds(&self, reading: Option<u64>, now: Moment) -> (secs: u128)
        ensures
            secs == self@.idle_secs(raw_idle(reading), now@),
    {
        let idle: u64 = get_idle(reading);
        let mut compensated: u128 = idle as u128;
        if idle == self.idle_last_reading {
            let stall: u64 = now.secs_since(self.idle_start_time);
            if stall >= self.idle_threshold {
                compensated = compensated + 1000 * (stall as u128);
            }
        }
        compensated / 1000
    }

    /// The phase that a tick with this reading finds the user in. Asking
    /// does not change the block.
    pub fn phase(&self, reading: Option<u64>, now: Moment) -> (phase: Phase)
        ensures
            phase == self@.phase(raw_idle(reading), now@),
    {
        Phase::classify(self.idle_seconds(reading, now), self.reset_time, self.idle_threshold)
    }

    /// One tick: takes what the idle counter shows (`None` where the display
    /// server cannot tell) and the clock reading, brings label and state up
    /// to date, and returns the seconds after which the host should tick
    /// again.
    pub fn update(&mut self, reading: Option<u64>, now: Moment) -> (every: u64)
        ensures
            final(self)@ == old(self)@.tick(raw_idle(reading), now@),
            every == old(self)@.update_interval,
    {
        let idle: u64 = get_idle(reading);
        let idle_secs: u128 = self.idle_seconds(reading, now);
        let phase = Phase::classify(idle_secs, self.reset_time, self.idle_threshold);

        if idle != self.idle_last_reading {
            self.idle_start_time = now;
            self.idle_last_reading = idle;
        }

        let elapsed: u64;
        let state: State;
        match phase {
            Phase::AwayComplete => {
                self.start_time = now;
                elapsed = 0;
                state = State::Info;
            },
            Phase::Idle => {
                elapsed = self.reset_time - (idle_secs as u64);
                state = rate_countdown(elapsed);
            },
            Phase::Active => {
                elapsed = now.secs_since(self.start_time);
                state = rate_countup(elapsed);
            },
        }

        self.text = format_clock(elapsed);
        self.state = state;
        self.update_interval
    }

    /// The user declares themselves active: the count-up starts over at
    /// `now`. The idle bookkeeping is left alone, so the next tick still
    /// goes by what the idle counter says.
    pub fn click(&mut self, now: Moment)
        ensures
            final(self)@ == old(self)@.interact(now@),
    {
        self.start_time = now;
    }

    /// The identifier of the block.
    pub fn id(&self) -> (id: &str)
        ensures
            id@ == self@.id,
    {
        self.id.as_str()
    }

    /// The label as of the last tick.
    pub fn text(&self) -> (text: &str)
        ensures
            text@ == self@.text,
    {
        self.text.as_str()
    }

    /// The state as of the last tick.
    pub fn state(&self) -> (state: State)
        ensures
            state == self@.state,
    {
        self.state
    }
}

} // verus!
