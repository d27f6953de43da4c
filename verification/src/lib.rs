//! Parsing and arithmetic for a cgroup v2 memory accounting pipeline.
//!
//! The kernel exposes a process group's memory ceiling and memory usage
//! through two small text files: a limit file holding either the sentinel
//! `max` or a decimal byte count, and a statistics file holding one
//! `key value` pair per line.  This crate contains the verified core of
//! that pipeline: the line parser for the limit file (in a checked and a
//! precondition-guarded fast variant), the tolerant statistics parser,
//! and the calculators that combine the parsed counters into a net-usage
//! and an available-memory figure.  Reading the files themselves is left
//! to the caller, which hands the file contents in as plain strings.

pub mod error;
pub mod limit;
pub mod stat;
pub mod stat_laws;
pub mod text;
pub mod usage;

pub use error::ReadParseError;
pub use limit::memory_max_line_wf;
pub use limit::memory_max_parse;
pub use limit::memory_max_parse_fast;
pub use stat::memory_stat_parse;
pub use stat::MemoryStat;
pub use usage::memory_available;
pub use usage::memory_net_used;
pub use usage::memory_net_used_calc;
