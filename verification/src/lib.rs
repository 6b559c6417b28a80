//! Verified core of a music-catalog service.
//!
//! The library owns the catalog semantics — tracks, playlists, playlist
//! membership and play history, with their ordering, uniqueness and search
//! guarantees — and the decision logic of the media access gateway:
//! streaming-URL resolution and playback recording. Process plumbing (HTTP
//! routing, JSON, the database driver, the object-storage client) stays
//! outside and hands the library plain values.

pub mod api;
pub mod auth;
pub mod config;
pub mod error;
pub mod laws;
pub mod model;
mod provider;
mod seq_facts;
pub mod store;
pub mod stream;
pub mod text;
