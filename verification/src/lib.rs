//! Seer: a small personal-data service (listening, reading, location and
//! weather) whose decision logic, text formats and data conversions are
//! verified here; the HTTP, cache and database plumbing lives in `app/`.

pub mod text;
pub mod resp;
pub mod outside;
pub mod hardcover;
pub mod geo;
pub mod weather;
pub mod lastfm;
pub mod config;
pub mod db;
pub mod redis;
pub mod telemetry;
pub mod auth;
