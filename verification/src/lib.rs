//! Decision core of a one-shot YouTube-to-NAS synchroniser.

pub mod commands;
pub mod config;
pub mod db;
pub mod id3_tags;
pub mod lock;
pub mod musicbrainz;
pub mod ntfy;
pub mod numbers;
pub mod paths;
pub mod preflight;
pub mod sync;
pub mod sync_laws;
pub mod text;
pub mod ytdlp;
pub mod ytdlp_updater;
