//! Compute-unit benchmarking for programs run in an in-process virtual machine:
//! order statistics over measured samples, extraction of the execution context of
//! one simulated pass, and the decisions of a benchmark run.

pub mod cu_bench;
