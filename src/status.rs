//! The completeness gate over a sample's frame-status metadata.

use vstd::prelude::*;

verus! {

/// The status value that marks a complete frame.
pub const FRAME_STATUS_COMPLETE: i64 = 0;

/// What a sample's attachments say of its frame status.
#[derive(Debug, Clone, Copy, PartialEq, Eq, Structural)]
pub enum FrameStatusInfo {
    /// The attachment array is absent or empty.
    NoAttachments,
    /// The first attachment has no frame-status entry.
    NoStatusEntry,
    /// The entry cannot be read as a 64-bit integer.
    Unreadable,
    /// The entry holds this value.
    Status { value: i64 },
}

/// Whether the metadata says the frame is complete.
pub open spec fn complete(info: FrameStatusInfo) -> bool {
    info is Status && info->value == FRAME_STATUS_COMPLETE
}

/// True only for a readable status that equals the complete value: any other
/// shape of the metadata counts as not complete.
pub fn is_frame_complete(info: &FrameStatusInfo) -> (r: bool)
    ensures
        r == complete(*info),
{
    match info {
        FrameStatusInfo::Status { value } => *value == FRAME_STATUS_COMPLETE,
        _ => false,
    }
}

} // verus!
