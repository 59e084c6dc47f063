//! Replay-to-columnar materialization pipeline for Slippi game replays.
//!
//! A decoded replay (match-start record, optional end/metadata summaries, an
//! integrity hash and a per-frame time series) is turned into:
//!
//! - a columnar layout of the frame series whose schema is derived from the
//!   per-port occupancy of the match, ready to be serialized as an Arrow IPC
//!   file, together with a destination path deterministic in the replay's
//!   integrity hash, and
//! - an immutable artifact handle aggregating the text summaries, the hash and
//!   the container path, safe to hand across a process boundary.
//!
//! File and network I/O, the binary replay decoder and the text encoding of
//! the decoded records live outside this crate; the pipeline here works on
//! plain values and is verified end to end.

pub mod columnar;
pub mod handle;
pub mod model;
pub mod pipeline;
