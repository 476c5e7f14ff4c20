//! Per-session voice-call bookkeeping for an audio-queueing bot.
//!
//! For each session the crate keeps one call with its playback queue
//! ([`call`], [`registry`]) and, in step with it, a queue of track metadata
//! ([`metadata`], [`data`]). [`events`] holds what the three watchers of a
//! call do when they are triggered, [`session`] what the commands and the
//! notifications do to a session as a whole. Around them stand the texts
//! that users see ([`error`], [`commands`], [`report`]), the reading of
//! requests and search results ([`search`]), and the settings ([`config`],
//! [`env_config`], [`logging`]).
//!
//! Nothing here waits, locks or talks to a service: a caller hands in what
//! happened and gets back what to do.

pub mod call;
pub mod commands;
pub mod config;
pub mod data;
pub mod duration;
pub mod env_config;
pub mod error;
pub mod events;
pub mod logging;
pub mod metadata;
pub mod registry;
pub mod report;
pub mod scan;
pub mod search;
pub mod session;
pub mod text;
pub mod track_queue;
pub mod wrap;
