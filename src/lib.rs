//! Throughput measurement of AES-128 block encryption over an in-memory buffer,
//! with the capability and build-configuration logic that labels the result.

pub mod cipher;
pub mod probe;
pub mod report;
pub mod bench;
