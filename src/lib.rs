//! Capture/encode buffer pipeline bookkeeping and an Annex-B NAL unit splitter.
use vstd::prelude::*;

pub mod nal_parser;
pub mod error;
pub mod buffer_queue;
pub mod pipeline;
pub mod frame;
pub mod audio;
pub mod session;
