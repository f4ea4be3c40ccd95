//! Aids for tests and tools: reads without side effects and the trace line.

pub mod debugging;
pub mod text;
pub mod trace;
