//! Native status codes and the revision-dependent code tables.
//!
//! The native recorder reports every fallible operation through an integer
//! status code.  Zero is success; any other value, including one this
//! binding has never heard of, is a failure.  Two revisions of the native
//! interface are supported, and they disagree on the tail of the code table:
//! the older, millisecond-buffer revision inserts a buffer-overflow code
//! before the final runtime-error code.

use vstd::prelude::*;

verus! {

/// The revision of the native recorder interface a symbol table speaks.
///
/// The two revisions differ in the parameters of the native init call, in
/// the set of exported symbols, and in the status-code table.  All recorder
/// logic is written once against this tag.
#[derive(Clone, Copy, Debug, PartialEq, Eq, Structural)]
pub enum ApiRevision {
    /// Buffer capacity is a count of frames; the native layer exposes
    /// metadata queries (selected device, sample rate, version) and a
    /// debug-logging toggle.
    BufferedFrames,
    /// Buffer capacity is a duration in milliseconds, which must cover at
    /// least one frame; init takes overflow- and silence-logging flags and
    /// the status table carries a dedicated buffer-overflow code.
    MillisecondBuffer,
}

impl ApiRevision {
    /// Whether a valid configuration must have its buffer parameter at
    /// least as large as the frame length.
    pub open spec fn buffer_covers_frame(self) -> bool {
        self is MillisecondBuffer
    }

    /// Whether init forwards overflow- and silence-logging flags.
    pub open spec fn has_logging_flags(self) -> bool {
        self is MillisecondBuffer
    }

    /// Whether the native layer answers metadata queries (selected device,
    /// sample rate, version).
    pub open spec fn has_metadata_queries(self) -> bool {
        self is BufferedFrames
    }

    /// Whether the status table has the dedicated buffer-overflow code.
    pub open spec fn has_overflow_code(self) -> bool {
        self is MillisecondBuffer
    }
}

/// A status reported by the native recorder.  `SUCCESS` is the only
/// non-failure value.
#[derive(Clone, Copy, Debug, PartialEq, Eq, Structural)]
#[allow(non_camel_case_types)]
pub enum PvRecorderStatus {
    SUCCESS,
    OUT_OF_MEMORY,
    INVALID_ARGUMENT,
    INVALID_STATE,
    BACKEND_ERROR,
    DEVICE_ALREADY_INITIALIZED,
    DEVICE_NOT_INITIALIZED,
    IO_ERROR,
    BUFFER_OVERFLOW,
    RUNTIME_ERROR,
}

/// The status a raw native code denotes under the given revision.
///
/// Codes 0 through 7 agree between the revisions.  The millisecond revision
/// reads 8 as a buffer overflow and 9 as a runtime error; the frame-count
/// revision reads 8 as a runtime error.  Every code outside the table is
/// read as a runtime error, so an unknown future code is still a failure.
pub open spec fn spec_status_from_code(code: int, revision: ApiRevision) -> PvRecorderStatus {
    if code == 0 {
        PvRecorderStatus::SUCCESS
    } else if code == 1 {
        PvRecorderStatus::OUT_OF_MEMORY
    } else if code == 2 {
        PvRecorderStatus::INVALID_ARGUMENT
    } else if code == 3 {
        PvRecorderStatus::INVALID_STATE
    } else if code == 4 {
        PvRecorderStatus::BACKEND_ERROR
    } else if code == 5 {
        PvRecorderStatus::DEVICE_ALREADY_INITIALIZED
    } else if code == 6 {
        PvRecorderStatus::DEVICE_NOT_INITIALIZED
    } else if code == 7 {
        PvRecorderStatus::IO_ERROR
    } else if code == 8 && revision.has_overflow_code() {
        PvRecorderStatus::BUFFER_OVERFLOW
    } else {
        PvRecorderStatus::RUNTIME_ERROR
    }
}

/// Translates a raw native status code into a status value.
///
/// Success is reported exactly for code zero: whatever the revision, every
/// non-zero code — known or unknown — decodes to a failure status.
pub fn status_from_code(code: i32, revision: ApiRevision) -> (status: PvRecorderStatus)
    ensures
        status == spec_status_from_code(code as int, revision),
        status is SUCCESS <==> code == 0,
{
    if code == 0 {
        PvRecorderStatus::SUCCESS
    } else if code == 1 {
        PvRecorderStatus::OUT_OF_MEMORY
    } else if code == 2 {
        PvRecorderStatus::INVALID_ARGUMENT
    } else if code == 3 {
        PvRecorderStatus::INVALID_STATE
    } else if code == 4 {
        PvRecorderStatus::BACKEND_ERROR
    } else if code == 5 {
        PvRecorderStatus::DEVICE_ALREADY_INITIALIZED
    } else if code == 6 {
        PvRecorderStatus::DEVICE_NOT_INITIALIZED
    } else if code == 7 {
        PvRecorderStatus::IO_ERROR
    } else if code == 8 && matches!(revision, ApiRevision::MillisecondBuffer) {
        PvRecorderStatus::BUFFER_OVERFLOW
    } else {
        PvRecorderStatus::RUNTIME_ERROR
    }
}

} // verus!
