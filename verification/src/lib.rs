//! Verified core of a small collection of storage and I/O benchmarks:
//! argument and `ps` output parsing, file naming, read and write loop plans,
//! HDFS endpoint extraction, zero-filled payload buffers, the heap profile
//! gate, and a layered request-handler builder.

pub mod decimal;
pub mod text;
pub mod rss;
pub mod read_bench;
pub mod write_bench;
pub mod file_prep;
pub mod hdfs_target;
pub mod buffers;
pub mod heap_profile;
pub mod layers;
