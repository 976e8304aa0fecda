//! Core of a per-guild audio playback coordinator: the playlist and track
//! data model, the player state machine and its transition rules, playback
//! position bookkeeping, tunable settings together with the live filter
//! parameters they induce, and the registry that maps each guild to its
//! player.
//!
//! Everything here works on plain values. The surrounding process — the
//! chat gateway, the HTTP front-end, the voice transport and the external
//! transcoding process — performs the I/O and feeds results back in as
//! arguments, so every decision this crate makes is verified.

pub mod clock;
pub mod player;
pub mod playlist;
pub mod position;
pub mod registry;
pub mod settings;
pub mod timefmt;
pub mod track;
