//! Orchestration of a fetch-process-deliver job for background removal.
//!
//! A job downloads an image to a temporary input file, hands the input and
//! output paths to an external image-processing routine, delivers the output
//! path to a caller-supplied consumer, and removes both temporary files.
//! This crate holds the decidable part of that pipeline: temp-path
//! construction, the encodability check for the foreign boundary, and the
//! state machine that sequences the stages. The surrounding binary performs
//! the network, filesystem and foreign calls and reports their outcomes back
//! to the machine.

pub mod job;
pub mod paths;
pub mod traces;
