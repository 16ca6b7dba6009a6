//! A benchmarking harness for a recurrent video-matting network.
//!
//! The harness runs the network's forward pass repeatedly over one still
//! frame, threads the four recurrent feature maps from each pass into the
//! next, discards the first (warm-up) pass, and reports the mean latency of
//! the remaining passes together with the last matte as a grayscale image.
//!
//! Samples are carried as IEEE-754 single-precision bit patterns (`u32`), so
//! that every rule of the harness can be stated over integers.

pub mod error;
pub mod shape;
pub mod profile;
pub mod bench;
pub mod postprocess;
pub mod preprocess;
pub mod backend;
pub mod state;
pub mod clock;
pub mod inference;
pub mod runner;
pub mod summary;
