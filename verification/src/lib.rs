//! Client-side model of a shared-canvas pixel-flood protocol: the wire
//! grammar for colors, coordinates and commands, an image-to-command
//! generator with its transform pipeline, a modulus sharder that splits the
//! command stream into disjoint partitions, and the per-shard streaming
//! session state machine.

pub mod color;
pub mod command;
pub mod coordinates;
pub mod digits;
pub mod generator;
pub mod pixel;
pub mod scan;
pub mod session;
pub mod shard;
pub mod source;
pub mod transform;
