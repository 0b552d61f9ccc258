//! Catalogue of a personal music library.
//!
//! The tags of an audio file (FLAC, MP3 with ID3, MP4) are read out of its bytes into
//! one record, and records are filed as artists, albums and tracks in an SQLite
//! database that also keeps the configuration. Walking the library and reading the files
//! is left to the caller.
//!
//! - [`metadata`]: the record of a track and the three readers behind it
//!   ([`flac_tags`], [`mp3_tags`], [`mp4_tags`]);
//! - [`store`]: the three upserts and the values bound to their statements;
//! - [`commands`]: the schema, the configuration command and the steps of a scan;
//! - [`config`]: the configuration keys and what makes a value valid;
//! - [`errors`]: what can go wrong, and the message of each error;
//! - [`decimal`], [`bytes`]: numbers in text and in bytes.

pub mod bytes;
pub mod commands;
pub mod config;
pub mod decimal;
pub mod errors;
pub mod flac_tags;
pub mod metadata;
pub mod mp3_tags;
pub mod mp4_tags;
pub mod store;
