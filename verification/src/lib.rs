//! Control core of a terminal music player.
//!
//! The player drives an external, already-running playback engine over a
//! local line-delimited command channel.  This crate holds the verified
//! heart of that player: the playback state and its transition rules, the
//! command wire format, the bounded-retry connect and send policies of the
//! channel transport, the input debouncer, and the small pure helpers that
//! the library indexer and catalog search are built around.  All of the
//! actual I/O (terminal, pipe, process, file system, HTTP) lives outside
//! this crate and consumes these functions.

pub mod action;
pub mod catalog;
pub mod codec;
pub mod dispatch;
pub mod input;
pub mod media;
pub mod song;
pub mod state;
pub mod supervisor;
pub mod transport;
