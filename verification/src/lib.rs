//! A typed, ownership-checked layer over the Raspberry Pi GPIO driver.
//!
//! The driver itself is a process-global native library: initialising it,
//! poking pin registers and tearing it down are foreign calls that report
//! plain integer status codes. Everything this crate can decide without the
//! hardware lives here, verified: the typed pin vocabulary, the encoding of
//! modes, levels and pull configurations into driver codes, the decoding of
//! every status report into a typed result, and the handle that stands for a
//! live driver session. The foreign calls themselves stay with the embedding
//! program, which routes every driver report through these decoders and
//! performs termination when the owning scope ends.

pub mod types;
pub mod status;
pub mod handle;
pub mod sample;
pub mod laws;
