//! Logical-stream synchronisation for Ogg/Vorbis: header bootstrapping,
//! chained-stream detection, end-of-stream truncation and granule
//! bookkeeping, written as state machines over packet metadata.
//!
//! The machines never touch bytes: a driver reads packets from the
//! container, hands each packet's metadata to a machine and performs the
//! action the machine answers with (parse a header, decode, skip).
pub mod error;
pub mod packet;
pub mod headers;
pub mod reader;
pub mod samples;

pub use error::ReadError;
pub use packet::PacketInfo;
pub use headers::{HeaderKind, HeaderPhase, HeaderScan, PhaseStep, ScanModel, ScanStep, SourcePoll};
pub use reader::{Action, Phase, StreamTracker, TrackerModel};
