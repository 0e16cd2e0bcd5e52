//! The frame-count revision of the binding.
//!
//! This revision sizes the native buffer as a count of frames, resolves
//! the full metadata query set, and reports errors as [`PvRecorderError`]
//! values.  The unverified runner opens the shared library, resolves the
//! symbols a [`SymbolTableLoader`] asks for, makes the native calls, and
//! feeds every status and every copied native string back into the
//! decision functions here.

use vstd::prelude::*;

use vstd::string::StringExecFns;
use vstd::utf8::decode_utf8;
use vstd::utf8::valid_utf8;

use crate::config::config_valid;
use crate::config::spec_config_fault;
use crate::config::validate_config;
use crate::config::ConfigFault;
use crate::config::RecorderConfig;
use crate::devices::decode_entries;
use crate::devices::string_from_utf8;
use crate::session::Session;
use crate::status::ApiRevision;
use crate::status::PvRecorderStatus;
use crate::vtable::SymbolTable;

verus! {

/// The kind of a binding error.
#[derive(Clone, Copy, Debug, PartialEq, Eq, Structural)]
pub enum PvRecorderErrorStatus {
    /// The native layer reported the carried non-success status.
    LibraryError(PvRecorderStatus),
    /// The shared library could not be opened, or a required export was
    /// missing.
    LibraryLoadError,
    /// A configuration parameter violated a documented constraint; the
    /// native layer was never called.
    ArgumentError,
    /// A native string could not be decoded.
    OtherError,
}

/// A structured binding error: a kind and a human-readable message.
#[derive(Clone, Debug)]
pub struct PvRecorderError {
    status: PvRecorderErrorStatus,
    message: String,
}

impl PvRecorderError {
    /// The kind of this error.
    pub closed spec fn spec_status(&self) -> PvRecorderErrorStatus {
        self.status
    }

    /// The message of this error.
    pub closed spec fn spec_message(&self) -> Seq<char> {
        self.message@
    }

    /// An error of the given kind carrying the given message.
    pub fn new(status: PvRecorderErrorStatus, message: &str) -> (e: Self)
        ensures
            e.spec_status() == status,
            e.spec_message() == message@,
    {
        Self { status, message: message.to_owned() }
    }

    /// The kind of this error.
    pub fn status(&self) -> (status: PvRecorderErrorStatus)
        ensures
            status == self.spec_status(),
    {
        self.status
    }

    /// The message of this error.
    pub fn message(&self) -> (message: &str)
        ensures
            message@ == self.spec_message(),
    {
        self.message.as_str()
    }
}

/// The message of the error a failed native call produces.
pub open spec fn spec_call_failure_message(function_name: Seq<char>) -> Seq<char> {
    "Function '"@ + function_name + "' in the pvrecorder library failed"@
}

/// Translates the status a native call reported: success passes through,
/// any other status becomes a `LibraryError` naming the failing function.
pub fn check_fn_call_status(status: PvRecorderStatus, function_name: &str) -> (r: Result<
    (),
    PvRecorderError,
>)
    ensures
        r is Ok <==> status is SUCCESS,
        r matches Err(e) ==> {
            &&& e.spec_status() == PvRecorderErrorStatus::LibraryError(status)
            &&& e.spec_message() == spec_call_failure_message(function_name@)
        },
{
    if matches!(status, PvRecorderStatus::SUCCESS) {
        Ok(())
    } else {
        let mut message = "Function '".to_owned();
        message.append(function_name);
        message.append("' in the pvrecorder library failed");
        Err(PvRecorderError { status: PvRecorderErrorStatus::LibraryError(status), message })
    }
}

/// The error reported when the shared library itself cannot be opened,
/// with the OS loader diagnostic embedded.
pub fn library_load_error(detail: &str) -> (e: PvRecorderError)
    ensures
        e.spec_status() is LibraryLoadError,
        e.spec_message() == "Failed to load pvrecorder dynamic library: "@ + detail@,
{
    let mut message = "Failed to load pvrecorder dynamic library: ".to_owned();
    message.append(detail);
    PvRecorderError { status: PvRecorderErrorStatus::LibraryLoadError, message }
}

/// The error reported when a required export is missing, naming the
/// symbol and embedding the OS loader diagnostic.
pub fn symbol_load_error(symbol: &str, detail: &str) -> (e: PvRecorderError)
    ensures
        e.spec_status() is LibraryLoadError,
        e.spec_message() == "Failed to load function symbol `"@ + symbol@
            + "` from pvrecorder library: "@ + detail@,
{
    let mut message = "Failed to load function symbol `".to_owned();
    message.append(symbol);
    message.append("` from pvrecorder library: ");
    message.append(detail);
    PvRecorderError { status: PvRecorderErrorStatus::LibraryLoadError, message }
}

/// The message of the argument error each configuration fault produces.
pub open spec fn spec_config_fault_message(fault: ConfigFault) -> Seq<char> {
    match fault {
        ConfigFault::FrameLengthNotPositive => "frame_length should be greater than zero"@,
        ConfigFault::DeviceIndexTooSmall => "device_index should be greater than or equal to -1"@,
        ConfigFault::BufferNotPositive => "buffered_frames_count should be greater than zero"@,
        ConfigFault::BufferSmallerThanFrame => "buffer_size_msec should be greater than the frame length"@,
    }
}

/// The argument error a configuration fault produces.
pub(crate) fn config_fault_error(fault: ConfigFault) -> (e: PvRecorderError)
    ensures
        e.spec_status() is ArgumentError,
        e.spec_message() == spec_config_fault_message(fault),
{
    let message: &str = match fault {
        ConfigFault::FrameLengthNotPositive => "frame_length should be greater than zero",
        ConfigFault::DeviceIndexTooSmall => "device_index should be greater than or equal to -1",
        ConfigFault::BufferNotPositive => "buffered_frames_count should be greater than zero",
        ConfigFault::BufferSmallerThanFrame => "buffer_size_msec should be greater than the frame length",
    };
    PvRecorderError { status: PvRecorderErrorStatus::ArgumentError, message: message.to_owned() }
}

/// Collects the capture parameters of the frame-count revision.
pub struct PvRecorderBuilder {
    frame_length: i32,
    device_index: i32,
    buffered_frames_count: i32,
    library_path: String,
}

impl PvRecorderBuilder {
    /// The configuration these parameters denote.
    pub closed spec fn spec_config(&self) -> RecorderConfig {
        RecorderConfig {
            frame_length: self.frame_length,
            device_index: self.device_index,
            buffer: self.buffered_frames_count,
            log_overflow: false,
            log_silence: false,
        }
    }

    /// The shared-library path the runner should open, empty until set.
    pub closed spec fn spec_library_path(&self) -> Seq<char> {
        self.library_path@
    }

    /// A builder with the given frame length, the default device, and the
    /// default buffer capacity of fifty frames.  The library path starts
    /// empty; the runner resolves and sets it.
    pub fn new(frame_length: i32) -> (b: Self)
        ensures
            b.spec_config() == (RecorderConfig {
                frame_length,
                device_index: -1i32,
                buffer: 50i32,
                log_overflow: false,
                log_silence: false,
            }),
            b.spec_library_path() == Seq::<char>::empty(),
    {
        Self {
            frame_length,
            device_index: -1,
            buffered_frames_count: 50,
            library_path: String::new(),
        }
    }

    /// Replaces the frame length.
    pub fn frame_length(&mut self, frame_length: i32) -> (b: &mut Self)
        ensures
            b.spec_config() == (RecorderConfig { frame_length, ..old(self).spec_config() }),
            b.spec_library_path() == old(self).spec_library_path(),
            *final(self) == *final(b),
    {
        self.frame_length = frame_length;
        self
    }

    /// Replaces the device index.
    pub fn device_index(&mut self, device_index: i32) -> (b: &mut Self)
        ensures
            b.spec_config() == (RecorderConfig { device_index, ..old(self).spec_config() }),
            b.spec_library_path() == old(self).spec_library_path(),
            *final(self) == *final(b),
    {
        self.device_index = device_index;
        self
    }

    /// Replaces the buffer capacity, counted in frames.
    pub fn buffered_frames_count(&mut self, buffered_frames_count: i32) -> (b: &mut Self)
        ensures
            b.spec_config() == (RecorderConfig {
                buffer: buffered_frames_count,
                ..old(self).spec_config()
            }),
            b.spec_library_path() == old(self).spec_library_path(),
            *final(self) == *final(b),
    {
        self.buffered_frames_count = buffered_frames_count;
        self
    }

    /// Replaces the shared-library path.
    pub fn library_path(&mut self, library_path: &str) -> (b: &mut Self)
        ensures
            b.spec_library_path() == library_path@,
            b.spec_config() == old(self).spec_config(),
            *final(self) == *final(b),
    {
        self.library_path = library_path.to_owned();
        self
    }

    /// The shared-library path the runner should open.
    pub fn get_library_path(&self) -> (path: &str)
        ensures
            path@ == self.spec_library_path(),
    {
        self.library_path.as_str()
    }

    /// The collected frame length, for the runner to hand to the native
    /// init call.
    pub fn get_frame_length(&self) -> (frame_length: i32)
        ensures
            frame_length == self.spec_config().frame_length,
    {
        self.frame_length
    }

    /// The collected device index, for the runner to hand to the native
    /// init call.
    pub fn get_device_index(&self) -> (device_index: i32)
        ensures
            device_index == self.spec_config().device_index,
    {
        self.device_index
    }

    /// The collected buffer capacity, for the runner to hand to the
    /// native init call.
    pub fn get_buffered_frames_count(&self) -> (buffered_frames_count: i32)
        ensures
            buffered_frames_count == self.spec_config().buffer,
    {
        self.buffered_frames_count
    }

    /// Checks the collected parameters against the revision's
    /// constraints.  This check comes before any native work: the runner
    /// opens the library and calls native init only after it passes.
    pub fn validate(&self) -> (r: Result<(), PvRecorderError>)
        ensures
            r is Ok <==> config_valid(self.spec_config(), ApiRevision::BufferedFrames),
            r matches Err(e) ==> {
                &&& e.spec_status() is ArgumentError
                &&& spec_config_fault(self.spec_config(), ApiRevision::BufferedFrames)
                    matches Some(fault) && e.spec_message() == spec_config_fault_message(fault)
            },
    {
        let config = RecorderConfig {
            frame_length: self.frame_length,
            device_index: self.device_index,
            buffer: self.buffered_frames_count,
            log_overflow: false,
            log_silence: false,
        };
        match validate_config(&config, ApiRevision::BufferedFrames) {
            Ok(()) => Ok(()),
            Err(fault) => Err(config_fault_error(fault)),
        }
    }

    /// Concludes initialization from what the native layer did.
    ///
    /// The parameters are rejected first: an invalid configuration is an
    /// argument error whatever the native layer would have said, so a
    /// runner that validates first never makes a native call for it.  A
    /// non-success init status is a library error.  Then the metadata the
    /// native layer reported is decoded; an undecodable device name or
    /// version string fails initialization.  On success the recorder
    /// holds the configured frame length, the reported sample rate, the
    /// decoded metadata, and is not recording.
    pub fn init(
        &self,
        table: SymbolTable,
        init_status: PvRecorderStatus,
        sample_rate: i32,
        selected_device_raw: &Vec<u8>,
        version_raw: &Vec<u8>,
    ) -> (r: Result<PvRecorder, PvRecorderError>)
        requires
            table.spec_revision() is BufferedFrames,
        ensures
            r is Ok <==> {
                &&& config_valid(self.spec_config(), ApiRevision::BufferedFrames)
                &&& init_status is SUCCESS
                &&& valid_utf8(selected_device_raw@)
                &&& valid_utf8(version_raw@)
            },
            r matches Ok(recorder) ==> {
                &&& recorder.wf()
                &&& recorder.spec_session().frame_length == self.spec_config().frame_length
                &&& recorder.spec_session().sample_rate == sample_rate
                &&& recorder.spec_session().selected_device@ == decode_utf8(selected_device_raw@)
                &&& recorder.spec_session().version@ == decode_utf8(version_raw@)
                &&& recorder.spec_session().recording == false
                &&& recorder.spec_session().debug_logging == false
            },
            r matches Err(e) ==> {
                if !config_valid(self.spec_config(), ApiRevision::BufferedFrames) {
                    &&& e.spec_status() is ArgumentError
                    &&& spec_config_fault(self.spec_config(), ApiRevision::BufferedFrames)
                        matches Some(fault) && e.spec_message() == spec_config_fault_message(
                        fault,
                    )
                } else if !(init_status is SUCCESS) {
                    &&& e.spec_status() == PvRecorderErrorStatus::LibraryError(init_status)
                    &&& e.spec_message() == spec_call_failure_message("pv_recorder_init"@)
                } else if !valid_utf8(selected_device_raw@) {
                    &&& e.spec_status() is OtherError
                    &&& e.spec_message() == "Failed to convert selected device string"@
                } else {
                    &&& e.spec_status() is OtherError
                    &&& e.spec_message() == "Failed to convert version string"@
                }
            },
    {
        self.validate()?;
        check_fn_call_status(init_status, "pv_recorder_init")?;
        let selected_device = match string_from_utf8(selected_device_raw) {
            Some(name) => name,
            None => {
                return Err(
                    PvRecorderError::new(
                        PvRecorderErrorStatus::OtherError,
                        "Failed to convert selected device string",
                    ),
                );
            },
        };
        let version = match string_from_utf8(version_raw) {
            Some(version) => version,
            None => {
                return Err(
                    PvRecorderError::new(
                        PvRecorderErrorStatus::OtherError,
                        "Failed to convert version string",
                    ),
                );
            },
        };
        let session = Session::new(self.frame_length, sample_rate, selected_device, version);
        Ok(PvRecorder { session, table })
    }

    /// Concludes a device enumeration from what the native layer did.
    ///
    /// Returns the result and whether the runner must now call the native
    /// free function: exactly when the native layer produced a list —
    /// also when an entry failed to decode, so the list is never leaked.
    /// A decode failure aborts the whole enumeration; no partial list is
    /// returned.
    pub fn get_available_devices(&self, status: PvRecorderStatus, raw_entries: &Vec<Vec<u8>>) -> (r:
        (Result<Vec<String>, PvRecorderError>, bool))
        ensures
            r.1 <==> status is SUCCESS,
            !(status is SUCCESS) ==> (r.0 matches Err(e) && {
                &&& e.spec_status() == PvRecorderErrorStatus::LibraryError(status)
                &&& e.spec_message() == spec_call_failure_message(
                    "pv_recorder_get_available_devices"@,
                )
            }),
            status is SUCCESS ==> match r.0 {
                Ok(names) => {
                    &&& forall|i: int|
                        0 <= i < raw_entries@.len() ==> valid_utf8(#[trigger] raw_entries@[i]@)
                    &&& names@.len() == raw_entries@.len()
                    &&& forall|i: int|
                        0 <= i < raw_entries@.len() ==> #[trigger] names@[i]@ == decode_utf8(
                            raw_entries@[i]@,
                        )
                },
                Err(e) => {
                    &&& !(forall|i: int|
                        0 <= i < raw_entries@.len() ==> valid_utf8(#[trigger] raw_entries@[i]@))
                    &&& e.spec_status() is OtherError
                    &&& e.spec_message() == "Failed to convert device strings"@
                },
            },
    {
        match check_fn_call_status(status, "pv_recorder_get_available_devices") {
            Ok(()) => {},
            Err(e) => {
                return (Err(e), false);
            },
        }
        match decode_entries(raw_entries) {
            Some(names) => (Ok(names), true),
            None => (
                (
                    Err(
                        PvRecorderError::new(
                            PvRecorderErrorStatus::OtherError,
                            "Failed to convert device strings",
                        ),
                    ),
                    true,
                )
            ),
        }
    }
}

impl Default for PvRecorderBuilder {
    /// The default builder: a frame of 512 samples, the default device,
    /// and the default buffer capacity.
    fn default() -> (b: Self)
        ensures
            b.spec_config() == (RecorderConfig {
                frame_length: 512i32,
                device_index: -1i32,
                buffer: 50i32,
                log_overflow: false,
                log_silence: false,
            }),
            b.spec_library_path() == Seq::<char>::empty(),
    {
        Self::new(512)
    }
}

/// A handle on one initialized native capture session of the frame-count
/// revision.  It owns the completeness witness of the symbol table the
/// session was created through, and tracks the session state machine.
#[derive(Debug)]
pub struct PvRecorder {
    session: Session,
    table: SymbolTable,
}

impl PvRecorder {
    /// The session this handle tracks.
    pub closed spec fn spec_session(&self) -> Session {
        self.session
    }

    /// Every recorder produced by init satisfies this: the session is
    /// well formed and the symbol table is the revision's complete set.
    pub closed spec fn wf(&self) -> bool {
        self.session.wf() && self.table.spec_revision() is BufferedFrames
    }

    /// Applies the outcome of the native start call: a success moves the
    /// session to recording; any other status leaves it unchanged and is
    /// reported as a library error.
    pub fn start(&mut self, status: PvRecorderStatus) -> (r: Result<(), PvRecorderError>)
        requires
            old(self).wf(),
        ensures
            final(self).wf(),
            final(self).spec_session() == old(self).spec_session().start_effect(status),
            r is Ok <==> status is SUCCESS,
            r matches Err(e) ==> {
                &&& e.spec_status() == PvRecorderErrorStatus::LibraryError(status)
                &&& e.spec_message() == spec_call_failure_message("pv_recorder_start"@)
            },
    {
        self.session.on_start(status);
        check_fn_call_status(status, "pv_recorder_start")
    }

    /// Applies the outcome of the native stop call: a success moves the
    /// session out of recording; any other status leaves it unchanged and
    /// is reported as a library error.
    pub fn stop(&mut self, status: PvRecorderStatus) -> (r: Result<(), PvRecorderError>)
        requires
            old(self).wf(),
        ensures
            final(self).wf(),
            final(self).spec_session() == old(self).spec_session().stop_effect(status),
            r is Ok <==> status is SUCCESS,
            r matches Err(e) ==> {
                &&& e.spec_status() == PvRecorderErrorStatus::LibraryError(status)
                &&& e.spec_message() == spec_call_failure_message("pv_recorder_stop"@)
            },
    {
        self.session.on_stop(status);
        check_fn_call_status(status, "pv_recorder_stop")
    }

    /// Allocates the buffer one read call fills: exactly `frame_length`
    /// zeroed samples, to be handed to the native read call.
    pub fn frame_buffer(&self) -> (frame: Vec<i16>)
        requires
            self.wf(),
        ensures
            frame@.len() == self.spec_session().frame_length as int,
            forall|i: int| 0 <= i < frame@.len() ==> frame@[i] == 0i16,
    {
        self.session.frame_buffer()
    }

    /// Concludes one read call: on native success the frame the native
    /// layer filled is handed back, and it holds exactly `frame_length`
    /// samples; on any other status the frame is withheld — its contents
    /// are undefined — and the status is reported as a library error.
    pub fn read(&self, status: PvRecorderStatus, frame: Vec<i16>) -> (r: Result<
        Vec<i16>,
        PvRecorderError,
    >)
        requires
            self.wf(),
            frame@.len() == self.spec_session().frame_length as int,
        ensures
            r is Ok <==> status is SUCCESS,
            r matches Ok(samples) ==> {
                &&& samples == frame
                &&& samples@.len() == self.spec_session().frame_length as int
            },
            r matches Err(e) ==> {
                &&& e.spec_status() == PvRecorderErrorStatus::LibraryError(status)
                &&& e.spec_message() == spec_call_failure_message("pv_recorder_read"@)
            },
    {
        check_fn_call_status(status, "pv_recorder_read")?;
        Ok(frame)
    }

    /// Records that the native debug-logging toggle was set.
    pub fn set_debug_logging(&mut self, is_debug_logging_enabled: bool)
        requires
            old(self).wf(),
        ensures
            final(self).wf(),
            final(self).spec_session() == (Session {
                debug_logging: is_debug_logging_enabled,
                ..old(self).spec_session()
            }),
    {
        self.session.on_set_debug_logging(is_debug_logging_enabled);
    }

    /// The number of samples every successful read returns.
    pub fn frame_length(&self) -> (n: usize)
        requires
            self.wf(),
        ensures
            n == self.spec_session().frame_length as int,
    {
        self.session.frame_length as usize
    }

    /// Whether capture is running: false immediately after init, true
    /// after a successful start, false again after a successful stop.
    pub fn is_recording(&self) -> (recording: bool)
        ensures
            recording == self.spec_session().recording,
    {
        self.session.recording
    }

    /// The capture sample rate the native layer reported at init, or zero
    /// if it reported a negative value.
    pub fn sample_rate(&self) -> (rate: usize)
        ensures
            self.spec_session().sample_rate >= 0 ==> rate == self.spec_session().sample_rate as int,
            self.spec_session().sample_rate < 0 ==> rate == 0,
    {
        if self.session.sample_rate >= 0 {
            self.session.sample_rate as usize
        } else {
            0
        }
    }

    /// The name of the bound capture device, cached at init.
    pub fn selected_device(&self) -> (name: String)
        ensures
            name@ == self.spec_session().selected_device@,
    {
        self.session.selected_device.clone()
    }

    /// The native library version string, cached at init.
    pub fn version(&self) -> (version: String)
        ensures
            version@ == self.spec_session().version@,
    {
        self.session.version.clone()
    }
}

} // verus!
