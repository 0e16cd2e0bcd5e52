//! End-to-end binding scenarios, driven by a fake native layer: the
//! runner's native calls are replaced by canned statuses and canned
//! native strings fed into the verified decision functions.

use pv_recorder::ApiRevision;
use pv_recorder::PvRecorder;
use pv_recorder::PvRecorderBuilder;
use pv_recorder::PvRecorderError;
use pv_recorder::PvRecorderStatus;
use pv_recorder::SymbolTable;
use pv_recorder::SymbolTableLoader;

/// Resolves every required symbol, as a runner with a complete native
/// library would.
fn load_table(revision: ApiRevision) -> SymbolTable {
    let mut loader = SymbolTableLoader::new(revision);
    while loader.pending().is_some() {
        loader.on_resolved();
    }
    loader.finish()
}

/// Runs the init sequence against a cooperative fake native layer that
/// reports success, a 16 kHz sample rate, a device name and a version.
fn init_with_fake(builder: &PvRecorderBuilder) -> Result<PvRecorder, PvRecorderError> {
    builder.validate()?;
    let table = load_table(ApiRevision::BufferedFrames);
    let device_raw: Vec<u8> = b"Fake Microphone".to_vec();
    let version_raw: Vec<u8> = b"1.2.0".to_vec();
    builder.init(table, PvRecorderStatus::SUCCESS, 16000, &device_raw, &version_raw)
}

#[test]
fn test_init() -> Result<(), PvRecorderError> {
    let mut builder = PvRecorderBuilder::new(512);
    builder.device_index(0);
    let recorder = init_with_fake(&builder)?;
    assert!(recorder.sample_rate() > 0);
    assert!(recorder.selected_device().len() > 0);
    assert!(recorder.version().len() > 0);

    Ok(())
}

#[test]
fn test_start_stop() -> Result<(), PvRecorderError> {
    let frame_length = 666;

    let mut builder = PvRecorderBuilder::new(frame_length);
    builder.device_index(0);
    builder.frame_length(frame_length);
    let mut recorder = init_with_fake(&builder)?;
    recorder.set_debug_logging(true);

    assert!(recorder.is_recording() == false);
    recorder.start(PvRecorderStatus::SUCCESS)?;
    assert!(recorder.is_recording() == true);

    let buffer = recorder.frame_buffer();
    let frame = recorder.read(PvRecorderStatus::SUCCESS, buffer)?;
    assert!(frame.len() == frame_length as usize);

    recorder.stop(PvRecorderStatus::SUCCESS)?;
    assert!(recorder.is_recording() == false);

    Ok(())
}

#[test]
fn test_get_available_devices() -> Result<(), PvRecorderError> {
    let raw_entries: Vec<Vec<u8>> = vec![
        b"Built-in Microphone".to_vec(),
        b"USB Audio Device".to_vec(),
    ];
    let (devices, _must_free) =
        PvRecorderBuilder::default().get_available_devices(PvRecorderStatus::SUCCESS, &raw_entries);

    for device in devices? {
        assert!(device.len() >= 0)
    }

    Ok(())
}
