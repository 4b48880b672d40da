//! A client-side pipeline for a server-sent-events firehose of GitHub events:
//! the record model, the payload decoder and the controller that decides,
//! event by event, what the surrounding program reports and when it stops.

pub mod config;
pub mod decoder;
pub mod error;
pub mod json;
pub mod laws;
pub mod pipeline;
pub mod record;
pub mod status;
