//! Replay of captured network traces.
//!
//! The crate decodes the legacy binary trace format into a recording
//! (`pcap`), derives wall-clock timing from packet timestamps (`clock`,
//! `duration`), and drives playback through a pure state machine
//! (`player`) that exchanges commands and events with a controller
//! (`model`). Every function is specified and verified; an embedding only
//! has to perform the waits, transmissions and channel operations the
//! engine decides on.

pub mod clock;
pub mod duration;
pub mod model;
pub mod pcap;
pub mod player;
