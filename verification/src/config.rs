//! Capture configuration and its validation.
//!
//! A configuration is collected by a builder and validated before any
//! native call is made: an invalid parameter never reaches the native
//! layer.  The constraints are the same for both interface revisions except
//! that the millisecond revision additionally demands that the buffer
//! duration covers at least one frame.

use vstd::prelude::*;

use crate::status::ApiRevision;

verus! {

/// A builder-collected set of capture parameters, immutable once passed to
/// initialization.
#[derive(Clone, Copy, Debug, PartialEq, Eq, Structural)]
pub struct RecorderConfig {
    /// Samples delivered by one read call.  Must be positive.
    pub frame_length: i32,
    /// Capture device: `-1` selects the default device; other values are
    /// device indices and must be non-negative.
    pub device_index: i32,
    /// Capacity of the native buffer: a frame count or a duration in
    /// milliseconds, depending on the revision.  Must be positive, and in
    /// the millisecond revision no smaller than the frame length.
    pub buffer: i32,
    /// Whether the native layer should log buffer overflows
    /// (millisecond revision only).
    pub log_overflow: bool,
    /// Whether the native layer should log silence warnings
    /// (millisecond revision only).
    pub log_silence: bool,
}

/// The constraint an invalid configuration violates.
#[derive(Clone, Copy, Debug, PartialEq, Eq, Structural)]
pub enum ConfigFault {
    /// The frame length is zero or negative.
    FrameLengthNotPositive,
    /// The device index is below `-1`.
    DeviceIndexTooSmall,
    /// The buffer parameter is zero or negative.
    BufferNotPositive,
    /// The buffer duration is shorter than one frame
    /// (millisecond revision only).
    BufferSmallerThanFrame,
}

/// Whether a configuration satisfies every documented constraint of the
/// given revision.
pub open spec fn config_valid(c: RecorderConfig, revision: ApiRevision) -> bool {
    &&& c.frame_length > 0
    &&& c.device_index >= -1
    &&& c.buffer > 0
    &&& (revision.buffer_covers_frame() ==> c.buffer >= c.frame_length)
}

/// The first constraint a configuration violates, in the order the checks
/// are made for the given revision, or `None` when it is valid.
pub open spec fn spec_config_fault(c: RecorderConfig, revision: ApiRevision) -> Option<
    ConfigFault,
> {
    if revision is BufferedFrames {
        if c.frame_length <= 0 {
            Some(ConfigFault::FrameLengthNotPositive)
        } else if c.device_index < -1 {
            Some(ConfigFault::DeviceIndexTooSmall)
        } else if c.buffer <= 0 {
            Some(ConfigFault::BufferNotPositive)
        } else {
            None
        }
    } else {
        if c.device_index < -1 {
            Some(ConfigFault::DeviceIndexTooSmall)
        } else if c.frame_length <= 0 {
            Some(ConfigFault::FrameLengthNotPositive)
        } else if c.buffer <= 0 {
            Some(ConfigFault::BufferNotPositive)
        } else if c.buffer < c.frame_length {
            Some(ConfigFault::BufferSmallerThanFrame)
        } else {
            None
        }
    }
}

/// A configuration is valid exactly when no check finds a fault,
/// whichever revision orders the checks.
pub proof fn lemma_valid_iff_no_fault(c: RecorderConfig, revision: ApiRevision)
    ensures
        config_valid(c, revision) <==> spec_config_fault(c, revision) is None,
{
}

/// Checks a configuration against the constraints of the given revision.
///
/// Succeeds exactly on valid configurations; on an invalid one it names the
/// first violated constraint.  This check runs before any native call, so a
/// rejected configuration never reaches the native layer.
pub fn validate_config(c: &RecorderConfig, revision: ApiRevision) -> (r: Result<(), ConfigFault>)
    ensures
        r is Ok <==> config_valid(*c, revision),
        r matches Err(fault) ==> spec_config_fault(*c, revision) == Some(fault),
{
    match revision {
        ApiRevision::BufferedFrames => {
            if c.frame_length <= 0 {
                Err(ConfigFault::FrameLengthNotPositive)
            } else if c.device_index < -1 {
                Err(ConfigFault::DeviceIndexTooSmall)
            } else if c.buffer <= 0 {
                Err(ConfigFault::BufferNotPositive)
            } else {
                Ok(())
            }
        },
        ApiRevision::MillisecondBuffer => {
            if c.device_index < -1 {
                Err(ConfigFault::DeviceIndexTooSmall)
            } else if c.frame_length <= 0 {
                Err(ConfigFault::FrameLengthNotPositive)
            } else if c.buffer <= 0 {
                Err(ConfigFault::BufferNotPositive)
            } else if c.buffer < c.frame_length {
                Err(ConfigFault::BufferSmallerThanFrame)
            } else {
                Ok(())
            }
        },
    }
}

} // verus!
