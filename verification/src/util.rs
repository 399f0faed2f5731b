//! Helpers of the program around the kernel.

pub mod tracing;
