//! Run-time detection of CPU features.
//!
//! The library holds the logic of detection: bit utilities over feature
//! bitsets, a reader for the `/proc/cpuinfo` text format, the decoders that
//! turn raw x86 registers, ARM auxiliary-vector bitfields or cpuinfo text
//! into feature bitsets, the name-to-feature tables, and a memoizing feature
//! cache. Issuing CPUID, calling `getauxval` and reading files are the
//! caller's part; their results come in as plain values.
pub mod aarch64;
pub mod arm;
pub mod auxv;
pub mod bit;
pub mod cache;
pub mod cpuinfo;
pub mod ppv;
pub mod text;
pub mod x86;
