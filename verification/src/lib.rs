//! Core of an unattended daily check-in agent.
//!
//! The agent polls a reward-program service, checks in once a day when
//! needed, and reports outcomes to a webhook. This crate holds the decisions:
//! how a reply of the service is read, how long to sleep, which award was
//! earned, what a notification says, and the cycle that ties them together.
//! Sending requests and sleeping are left to the caller, which performs the
//! [`controller::Action`] it is handed and reports back an
//! [`controller::Event`].

pub mod api;
pub mod controller;
pub mod error;
pub mod notify;
pub mod reward;
pub mod schedule;
pub mod text;
