//! Verified core of a terminal radio player: the byte cache that makes a
//! live stream seekable, the station list and its labels, and the
//! key-driven state machine of the player screen.
pub mod app;
pub mod config;
pub mod mhz;
pub mod source;
pub mod text;
pub mod ui;
