//! A transcription service: uploads are stored and queued, a worker turns them
//! into text, and the text is served by task identifier.
//!
//! This crate holds the decisions of the service. It performs no input or
//! output: programs around it carry out the pending step of each state machine
//! and report what happened.

pub mod cleanup;
pub mod error;
pub mod file_name;
pub mod fresh;
pub mod json;
pub mod publishing;
pub mod reply;
pub mod results;
pub mod saving;
pub mod storage;
pub mod task;
pub mod text;
pub mod topology;
pub mod upload;
pub mod whisper;
pub mod worker;
