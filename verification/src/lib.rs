//! Verified cores of two status-bar blocks.
//!
//! `blocks::activity` tracks how long the user has been active or idle and
//! renders a clock with an escalating state; `blocks::gmailcount` turns the
//! body of a mail feed into an unread count. Both are pure state machines:
//! the host reads the idle counter, the clock and the feed, and hands the
//! readings in as plain values.

pub mod blocks;
pub mod clock;
pub mod decimal;
pub mod feed;
pub mod ident;
pub mod widget;
