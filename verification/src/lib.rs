//! Verified core of a small Minecraft server runner.
//!
//! The heart of the library is the output aggregation pipeline: two
//! concurrent relays move decoded lines from a child process's output
//! streams into one bounded channel, and a single aggregator drains that
//! channel into a sink. The pipeline model, its ordering and bounded-memory
//! guarantees, the line decoder, the environment checks and the run
//! orchestration decisions all live here with proved contracts; the
//! asynchronous plumbing around them is ordinary unverified glue.

pub mod channel;
pub mod environment;
pub mod errors;
pub mod message;
pub mod orchestrator;
pub mod pipeline;
pub mod reader;
