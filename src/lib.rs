//! Per-core CPU power state: typed access to the frequency-scaling and
//! thermal pseudo-files of one core, and utilization from two counter
//! snapshots.
pub mod decimal;
pub mod text;
pub mod system;
pub mod cpu;
pub mod display;
