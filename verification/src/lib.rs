//! Planning, parsing and bookkeeping for a folder-wide video converter.
use vstd::prelude::*;

pub mod text;
pub mod options;
pub mod codec;
pub mod decode;
pub mod json;
pub mod run;
pub mod config;
pub mod encoders;
pub mod probe;
pub mod streams;
pub mod paths;
pub mod review;
pub mod metadata;
pub mod progress;
pub mod search;
pub mod vmaf;
pub mod tools;
pub mod cli;
pub mod plans;
pub mod roundtrip;
pub mod command;
pub mod validate;
pub mod bmff;
pub mod quality;
pub mod compare;
pub mod diagnostics;
pub mod embedding;
pub mod video;
pub mod events;
pub mod batch;
pub mod selection;

verus! {

} // verus!
