use vstd::prelude::*;

verus! {

/// What the stream logic reads of one container packet: the identifier of
/// the logical stream it belongs to, the absolute granule position of the
/// page it ends in, and its boundary flags. The payload stays with the driver.
#[derive(Debug, Clone, Copy, PartialEq, Eq, Structural)]
pub struct PacketInfo {
    pub serial: u32,
    pub absgp: u64,
    pub first_in_stream: bool,
    pub last_in_stream: bool,
    pub last_in_page: bool,
}

} // verus!
