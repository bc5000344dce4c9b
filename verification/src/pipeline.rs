//! The life of a capture pipeline, as a machine that is told what each
//! native call gave back and says which call to make next.
//!
//! The caller holds the pipeline, makes the calls and hands in the replies.
//! A start walks from `Idle` through enumeration, configuration, opening the
//! device and building the graph to `Streaming`; any failure on the way
//! gives back what was created and ends in `Idle` with the error. A stop
//! gives back the complete graph.

pub mod laws;
pub mod machine;
pub mod model;

pub use machine::Pipeline;
pub use model::{Event, NativeCall, Phase, PipelineView, Stage, Step, MAX_IMAGES};
