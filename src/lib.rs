//! Speaker resolution and audio-query assembly for a client of a
//! text-to-speech engine.
//!
//! The library decides; the caller talks to the engine. `metas` holds the
//! speaker catalog and the rules that turn an optional style id and an
//! optional speaker name into one style id. `audio_query` builds the query
//! that is sent for synthesis, and `pipeline` is the state machine that says
//! which engine request comes next and when a run stops. `engine` expands
//! the engine-URL shorthands and reads the phonetic notation of a text, and
//! `listing` writes the plain-text catalog records.
pub mod audio_query;
pub mod engine;
pub mod error;
pub mod listing;
pub mod metas;
pub mod pipeline;
