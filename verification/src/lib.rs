//! Engine for fanning one command template out over the lines of an input
//! list: each line is templated into a concrete argument vector, given a
//! deterministic output file path, bundled into a job, and queued for a
//! fixed pool of workers; per-job launch gating (clobber protection) and
//! output disposition are decided here as well.

pub mod job;
pub mod launcher;
pub mod lines;
pub mod paths;
pub mod queue;
pub mod template;
