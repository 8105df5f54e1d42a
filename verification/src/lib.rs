//! Core logic of an automated moderation agent for a chat platform.
//!
//! The agent watches a live stream of membership events, classifies each
//! newly joined member with a fast heuristic spam classifier, and decides
//! on an enforcement action (a ban with a message purge) when the
//! classifier fires.  Everything that decides or computes lives here and
//! is verified; the session transport, the remote enforcement calls and
//! the console output are performed by a thin unverified shell around
//! this crate.

pub mod classify;
pub mod dispatch;
pub mod report;
pub mod snowflake;
pub mod text;
