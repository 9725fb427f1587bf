//! The core of a music scrobbling service: every rule of the HTTP API and of
//! the background worker, without the I/O around it.

pub mod access;
pub mod accounts;
pub mod auth;
pub mod catalog;
pub mod community;
pub mod connect;
pub mod enrichment;
pub mod entries;
pub mod errors;
pub mod ids;
pub mod ingest;
pub mod jobs;
pub mod live;
pub mod metadata;
pub mod models;
pub mod poller;
pub mod providers;
pub mod ratelimit;
pub mod scrobble;
pub mod spotify;
pub mod text;
pub mod time;
pub mod uploads;
pub mod users;
