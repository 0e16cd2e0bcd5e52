//! Session lifecycle scenarios: validation gating, the recording state
//! machine, read framing, and resource symmetry, all driven by fake
//! native layers that count their calls.

use std::cell::Cell;

use pv_recorder::ApiRevision;
use pv_recorder::OwnershipLedger;
use pv_recorder::PvRecorder;
use pv_recorder::PvRecorderBuilder;
use pv_recorder::PvRecorderError;
use pv_recorder::PvRecorderErrorStatus;
use pv_recorder::PvRecorderStatus;
use pv_recorder::RecorderBuilder;
use pv_recorder::RecorderErrorStatus;
use pv_recorder::SymbolTable;
use pv_recorder::SymbolTableLoader;

/// A fake native layer that counts its calls and aborts the test if it
/// is ever initialized: for scenarios whose configurations must never
/// reach the native layer.
struct UntouchableNative {
    init_calls: Cell<u32>,
}

impl UntouchableNative {
    fn new() -> Self {
        Self { init_calls: Cell::new(0) }
    }

    fn init(&self) -> PvRecorderStatus {
        self.init_calls.set(self.init_calls.get() + 1);
        panic!("the native layer must not be called for an invalid configuration");
    }
}

fn load_table(revision: ApiRevision) -> SymbolTable {
    let mut loader = SymbolTableLoader::new(revision);
    while loader.pending().is_some() {
        loader.on_resolved();
    }
    loader.finish()
}

/// The runner's init sequence: validate, then — only on success — load
/// the library, call native init, and conclude.
fn run_init(
    builder: &PvRecorderBuilder,
    native: &UntouchableNative,
) -> Result<PvRecorder, PvRecorderError> {
    builder.validate()?;
    let table = load_table(ApiRevision::BufferedFrames);
    let status = native.init(); // never reached by these scenarios
    builder.init(table, status, 16000, &b"mic".to_vec(), &b"1.0".to_vec())
}

#[test]
fn valid_configurations_initialize_with_the_configured_frame_length() {
    for frame_length in [1, 256, 512, 4096] {
        for device_index in [-1, 0, 3] {
            let mut builder = PvRecorderBuilder::new(frame_length);
            builder.device_index(device_index);
            builder.buffered_frames_count(32);
            assert!(builder.validate().is_ok());
            let table = load_table(ApiRevision::BufferedFrames);
            let recorder = builder
                .init(table, PvRecorderStatus::SUCCESS, 16000, &b"mic".to_vec(), &b"1.0".to_vec())
                .expect("a valid configuration must initialize");
            assert_eq!(recorder.frame_length(), frame_length as usize);
        }
    }
}

#[test]
fn invalid_configurations_fail_without_any_native_call() {
    let zero_frame = {
        let mut b = PvRecorderBuilder::new(0);
        b.device_index(0);
        b
    };
    let negative_frame = {
        let mut b = PvRecorderBuilder::new(-7);
        b.device_index(0);
        b
    };
    let bad_device = {
        let mut b = PvRecorderBuilder::new(512);
        b.device_index(-2);
        b
    };
    let bad_buffer = {
        let mut b = PvRecorderBuilder::new(512);
        b.buffered_frames_count(0);
        b
    };
    for builder in [zero_frame, negative_frame, bad_device, bad_buffer] {
        let native = UntouchableNative::new();
        let err = run_init(&builder, &native).expect_err("an invalid configuration must fail");
        assert_eq!(err.status(), PvRecorderErrorStatus::ArgumentError);
        assert_eq!(native.init_calls.get(), 0);
    }
}

#[test]
fn millisecond_buffer_must_cover_one_frame() {
    let mut builder = RecorderBuilder::new();
    builder.frame_length(512);
    builder.buffer_size_msec(100);
    let err = builder.validate().expect_err("a buffer shorter than a frame must be rejected");
    assert_eq!(err.status(), RecorderErrorStatus::ArgumentError);
    assert_eq!(err.message(), "buffer_size_msec should be greater than the frame length");

    let table = load_table(ApiRevision::MillisecondBuffer);
    let err = builder
        .init(table, PvRecorderStatus::SUCCESS)
        .expect_err("init must reject what validation rejects");
    assert_eq!(err.status(), RecorderErrorStatus::ArgumentError);
}

#[test]
fn failed_start_leaves_the_session_ready() {
    let builder = PvRecorderBuilder::new(512);
    let table = load_table(ApiRevision::BufferedFrames);
    let mut recorder = builder
        .init(table, PvRecorderStatus::SUCCESS, 16000, &b"mic".to_vec(), &b"1.0".to_vec())
        .unwrap();
    let err = recorder.start(PvRecorderStatus::DEVICE_ALREADY_INITIALIZED).unwrap_err();
    assert_eq!(
        err.status(),
        PvRecorderErrorStatus::LibraryError(PvRecorderStatus::DEVICE_ALREADY_INITIALIZED)
    );
    assert!(!recorder.is_recording());
}

#[test]
fn read_before_start_surfaces_the_invalid_state_status() {
    let builder = PvRecorderBuilder::new(512);
    let table = load_table(ApiRevision::BufferedFrames);
    let recorder = builder
        .init(table, PvRecorderStatus::SUCCESS, 16000, &b"mic".to_vec(), &b"1.0".to_vec())
        .unwrap();
    // The session was never started, so the native layer reports an
    // invalid state; the binding surfaces it instead of crashing.
    let buffer = recorder.frame_buffer();
    let err = recorder.read(PvRecorderStatus::INVALID_STATE, buffer).unwrap_err();
    assert_eq!(
        err.status(),
        PvRecorderErrorStatus::LibraryError(PvRecorderStatus::INVALID_STATE)
    );
    assert_eq!(err.message(), "Function 'pv_recorder_read' in the pvrecorder library failed");
}

#[test]
fn millisecond_read_rejects_short_buffers_and_fills_adequate_ones() {
    let mut builder = RecorderBuilder::new();
    builder.frame_length(256);
    builder.buffer_size_msec(1000);
    let table = load_table(ApiRevision::MillisecondBuffer);
    let mut recorder = builder.init(table, PvRecorderStatus::SUCCESS).unwrap();
    assert_eq!(recorder.frame_length(), 256);

    recorder.start(PvRecorderStatus::SUCCESS).unwrap();

    let err = recorder.read(100, PvRecorderStatus::SUCCESS).unwrap_err();
    assert_eq!(err.status(), RecorderErrorStatus::ArgumentError);

    assert!(recorder.read(256, PvRecorderStatus::SUCCESS).is_ok());
    assert!(recorder.read(512, PvRecorderStatus::SUCCESS).is_ok());

    let err = recorder.read(256, PvRecorderStatus::IO_ERROR).unwrap_err();
    assert_eq!(err.status(), RecorderErrorStatus::LibraryError(PvRecorderStatus::IO_ERROR));

    recorder.stop(PvRecorderStatus::SUCCESS).unwrap();
}

#[test]
fn end_to_end_capture_deletes_the_session_exactly_once() {
    // init(frame_length = 512, device_index = -1)
    let mut builder = PvRecorderBuilder::new(512);
    builder.device_index(-1);
    let table = load_table(ApiRevision::BufferedFrames);
    let mut recorder = builder
        .init(table, PvRecorderStatus::SUCCESS, 16000, &b"mic".to_vec(), &b"1.0".to_vec())
        .unwrap();
    let mut ledger = OwnershipLedger::new();
    let delete_calls = Cell::new(0u32);

    recorder.start(PvRecorderStatus::SUCCESS).unwrap();
    let buffer = recorder.frame_buffer();
    let frame = recorder.read(PvRecorderStatus::SUCCESS, buffer).unwrap();
    assert_eq!(frame.len(), 512);
    recorder.stop(PvRecorderStatus::SUCCESS).unwrap();
    assert!(recorder.is_recording() == false);

    // Two more handles are cloned and all three are released; only the
    // last release may issue the native delete.
    ledger.on_clone();
    ledger.on_clone();
    for _ in 0..3 {
        if ledger.on_drop() {
            delete_calls.set(delete_calls.get() + 1);
        }
    }
    assert_eq!(delete_calls.get(), 1);
    assert_eq!(ledger.deletes, 1);
    assert_eq!(ledger.owners, 0);
}
