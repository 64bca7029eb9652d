//! Argument-list builders for command-line tools run through a `Runner`.

pub mod ansible;
pub mod docker;
pub mod git;
pub mod kubectl;


pub mod systemd;
