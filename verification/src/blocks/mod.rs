//! The blocks, one module each.

pub mod activity;
pub mod activity_laws;
pub mod gmailcount;
