//! Scans a file tree for audio files whose integrated loudness (in LUFS)
//! falls below a configurable threshold.
//!
//! The library holds the scan's logic: glob-based include/exclude filtering
//! with directory pruning, the traversal plan over a directory tree, audio
//! track selection, the packet-by-packet decode loop that feeds a loudness
//! accumulator, and the below-threshold report decision. File-system and
//! stream I/O, command-line handling and floating-point presentation live in
//! the application shell around it.

pub mod decode;
pub mod errors;
pub mod filter;
pub mod report;
pub mod track;
pub mod walk;
