//! Status-code tables, error construction and translation, the symbol
//! loader's all-or-nothing behavior, and builder defaults and setters.

use pv_recorder::recorder;
use pv_recorder::sdk;
use pv_recorder::status::status_from_code;
use pv_recorder::vtable::required_symbol_count;
use pv_recorder::ApiRevision;
use pv_recorder::PvRecorderBuilder;
use pv_recorder::PvRecorderError;
use pv_recorder::PvRecorderErrorStatus;
use pv_recorder::PvRecorderStatus;
use pv_recorder::RecorderError;
use pv_recorder::RecorderErrorStatus;
use pv_recorder::SymbolTableLoader;

#[test]
fn the_shared_code_table_decodes_the_same_under_both_revisions() {
    for revision in [ApiRevision::BufferedFrames, ApiRevision::MillisecondBuffer] {
        assert_eq!(status_from_code(0, revision), PvRecorderStatus::SUCCESS);
        assert_eq!(status_from_code(1, revision), PvRecorderStatus::OUT_OF_MEMORY);
        assert_eq!(status_from_code(2, revision), PvRecorderStatus::INVALID_ARGUMENT);
        assert_eq!(status_from_code(3, revision), PvRecorderStatus::INVALID_STATE);
        assert_eq!(status_from_code(4, revision), PvRecorderStatus::BACKEND_ERROR);
        assert_eq!(status_from_code(5, revision), PvRecorderStatus::DEVICE_ALREADY_INITIALIZED);
        assert_eq!(status_from_code(6, revision), PvRecorderStatus::DEVICE_NOT_INITIALIZED);
        assert_eq!(status_from_code(7, revision), PvRecorderStatus::IO_ERROR);
    }
}

#[test]
fn the_code_tables_diverge_after_the_io_error_code() {
    assert_eq!(
        status_from_code(8, ApiRevision::BufferedFrames),
        PvRecorderStatus::RUNTIME_ERROR
    );
    assert_eq!(
        status_from_code(8, ApiRevision::MillisecondBuffer),
        PvRecorderStatus::BUFFER_OVERFLOW
    );
    assert_eq!(
        status_from_code(9, ApiRevision::MillisecondBuffer),
        PvRecorderStatus::RUNTIME_ERROR
    );
}

#[test]
fn unknown_codes_are_failures_not_crashes() {
    for code in [9, 10, 99, -1, i32::MAX, i32::MIN] {
        let status = status_from_code(code, ApiRevision::BufferedFrames);
        assert_ne!(status, PvRecorderStatus::SUCCESS);
        assert_eq!(status, PvRecorderStatus::RUNTIME_ERROR);
        assert!(recorder::check_fn_call_status(status, "pv_recorder_start").is_err());
    }
}

#[test]
fn a_failed_call_names_the_failing_function() {
    assert!(recorder::check_fn_call_status(PvRecorderStatus::SUCCESS, "pv_recorder_stop").is_ok());
    let err = recorder::check_fn_call_status(PvRecorderStatus::IO_ERROR, "pv_recorder_stop")
        .unwrap_err();
    assert_eq!(err.status(), PvRecorderErrorStatus::LibraryError(PvRecorderStatus::IO_ERROR));
    assert_eq!(err.message(), "Function 'pv_recorder_stop' in the pvrecorder library failed");

    let err = sdk::check_fn_call_status(PvRecorderStatus::BUFFER_OVERFLOW, "pv_recorder_read")
        .unwrap_err();
    assert_eq!(
        err.status(),
        RecorderErrorStatus::LibraryError(PvRecorderStatus::BUFFER_OVERFLOW)
    );
    assert_eq!(err.message(), "Function 'pv_recorder_read' in the pvrecorder library failed");
}

#[test]
fn load_failures_embed_the_loader_diagnostic() {
    let err = recorder::library_load_error("file not found");
    assert_eq!(err.status(), PvRecorderErrorStatus::LibraryLoadError);
    assert_eq!(
        err.message(),
        "Failed to load pvrecorder dynamic library: file not found"
    );

    let err = recorder::symbol_load_error("pv_recorder_read", "undefined symbol");
    assert_eq!(err.status(), PvRecorderErrorStatus::LibraryLoadError);
    assert_eq!(
        err.message(),
        "Failed to load function symbol `pv_recorder_read` from pvrecorder library: undefined symbol"
    );

    let err = sdk::library_load_error("wrong architecture");
    assert_eq!(err.status(), RecorderErrorStatus::LibraryLoadError);
    assert_eq!(
        err.message(),
        "Failed to load pvrecorder dynamic library: wrong architecture"
    );
}

#[test]
fn errors_carry_their_kind_and_message() {
    let err = PvRecorderError::new(PvRecorderErrorStatus::OtherError, "decoding went wrong");
    assert_eq!(err.status(), PvRecorderErrorStatus::OtherError);
    assert_eq!(err.message(), "decoding went wrong");

    let err = RecorderError::new(RecorderErrorStatus::ArgumentError, "bad parameter");
    assert_eq!(err.status(), RecorderErrorStatus::ArgumentError);
    assert_eq!(err.message(), "bad parameter");
}

#[test]
fn the_loader_asks_for_every_required_symbol_in_order() {
    let mut loader = SymbolTableLoader::new(ApiRevision::BufferedFrames);
    let mut names: Vec<&str> = Vec::new();
    while let Some(name) = loader.pending() {
        names.push(name);
        loader.on_resolved();
    }
    assert_eq!(names.len(), required_symbol_count(ApiRevision::BufferedFrames));
    assert_eq!(
        names,
        vec![
            "pv_recorder_init",
            "pv_recorder_delete",
            "pv_recorder_start",
            "pv_recorder_stop",
            "pv_recorder_read",
            "pv_recorder_set_debug_logging",
            "pv_recorder_get_is_recording",
            "pv_recorder_get_selected_device",
            "pv_recorder_get_available_devices",
            "pv_recorder_free_available_devices",
            "pv_recorder_sample_rate",
            "pv_recorder_version",
        ]
    );
    let table = loader.finish();
    assert_eq!(table.revision(), ApiRevision::BufferedFrames);
}

#[test]
fn the_millisecond_revision_requires_its_own_symbol_set() {
    let mut loader = SymbolTableLoader::new(ApiRevision::MillisecondBuffer);
    let mut names: Vec<&str> = Vec::new();
    while let Some(name) = loader.pending() {
        names.push(name);
        loader.on_resolved();
    }
    assert_eq!(
        names,
        vec![
            "pv_recorder_init",
            "pv_recorder_delete",
            "pv_recorder_start",
            "pv_recorder_stop",
            "pv_recorder_read",
            "pv_recorder_get_audio_devices",
            "pv_recorder_free_device_list",
        ]
    );
}

#[test]
fn a_missing_symbol_aborts_the_load_with_its_name() {
    // The runner resolves names in order; suppose the sixth export is
    // missing from an older binary.
    let mut loader = SymbolTableLoader::new(ApiRevision::BufferedFrames);
    let mut failed: Option<PvRecorderError> = None;
    let mut resolved: u32 = 0;
    while let Some(name) = loader.pending() {
        if name == "pv_recorder_set_debug_logging" {
            failed = Some(recorder::symbol_load_error(name, "undefined symbol"));
            break;
        }
        loader.on_resolved();
        resolved += 1;
    }
    let err = failed.expect("the load must abort on the missing symbol");
    assert_eq!(err.status(), PvRecorderErrorStatus::LibraryLoadError);
    assert_eq!(
        err.message(),
        "Failed to load function symbol `pv_recorder_set_debug_logging` from pvrecorder library: undefined symbol"
    );
    assert_eq!(resolved, 5);
}

#[test]
fn builder_defaults_and_setters_shape_the_validated_configuration() {
    let builder = PvRecorderBuilder::default();
    assert!(builder.validate().is_ok());

    let mut builder = PvRecorderBuilder::new(512);
    builder
        .frame_length(1024)
        .device_index(2)
        .buffered_frames_count(10)
        .library_path("/opt/libs/libpv_recorder.so");
    assert!(builder.validate().is_ok());
    assert_eq!(builder.get_library_path(), "/opt/libs/libpv_recorder.so");

    let err = PvRecorderBuilder::new(0).validate().unwrap_err();
    assert_eq!(err.message(), "frame_length should be greater than zero");
}
