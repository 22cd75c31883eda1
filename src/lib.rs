//! The playback engine of a terminal music player: a verified controller
//! for the queue of tracks, the decisions of the per-track decode loop, the
//! mapping of channel layouts to device positions, the negotiation of the
//! output stream, track metadata, and the search box.

pub mod channels;
pub mod decode;
pub mod error;
pub mod output;
pub mod player;
pub mod search;
pub mod track;
