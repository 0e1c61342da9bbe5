//! Decision logic of a Redis Streams job worker with at-least-once delivery.
pub mod text;
pub mod decode;
pub mod resp;
pub mod stream;
pub mod store;
pub mod runner;
pub mod backoff;
pub mod trim;
pub mod config;
pub mod worker;
pub mod clock;
pub mod laws;
