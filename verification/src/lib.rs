//! Command-line companion library for a multi-protocol download engine.
//!
//! The engine itself (HTTP segmenting, BitTorrent, persistence) lives in an
//! outside crate and is driven from the application shell; this library holds
//! the verified logic around it: input classification, download-id handling
//! and prefix resolution, human-readable formatting of sizes, speeds and
//! durations, configuration editing, torrent-file reporting and the state
//! machine behind the interactive front-end.

pub mod text;

pub mod numfmt;

pub mod util;

pub mod format;

pub mod input;

pub mod id;

pub mod status;

pub mod report;

pub mod config;

pub mod torrent;

pub mod commands;

pub mod tui;
