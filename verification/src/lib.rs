//! Core of a command-line karaoke player.
//!
//! The crate holds the parts of the player that decide rather than perform:
//! resolving an audio reference into an ordered list of playable stream
//! URIs, classifying captured microphone frames as silence or voice,
//! tracking the playback engine's state from its event stream, mapping a
//! playback position onto the song's beat grid, and scheduling when the
//! displayed lyric line changes.  Everything that touches a device, the
//! network or the terminal lives outside and hands these modules plain
//! values.

pub mod beat;
pub mod capture;
pub mod clock;
pub mod content_providers;
pub mod scheduler;
pub mod server_interface;
pub mod strutil;
