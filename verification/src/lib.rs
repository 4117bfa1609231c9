//! Planning and bookkeeping for driving an external `ffmpeg` binary.
//!
//! The library decides, from plain values, everything that a thin shell
//! around the process needs: which encoder to try, which command-line
//! arguments to pass, and how to read the process's exit status. The
//! shell itself (spawning, streaming, the user interface) stays outside.

pub mod args;
pub mod numfmt;
pub mod outcome;
pub mod pathname;
pub mod pipeline;
pub mod plan;
pub mod strutil;
