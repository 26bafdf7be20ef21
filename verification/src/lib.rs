//! A terminal music player core: playback control over an external player
//! process, playlist management with directory persistence, and the session
//! logic that ties the two together.  All decision logic is verified; the
//! surrounding process, socket and file I/O lives outside this crate and
//! talks to it through plain values.

pub mod config;
pub mod error;
pub mod json;
pub mod persist;
pub mod playback;
pub mod playlist;
pub mod search;
pub mod session;
pub mod text;
