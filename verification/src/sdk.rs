//! The millisecond-buffer revision of the binding.
//!
//! This revision sizes the native buffer as a duration in milliseconds —
//! which must cover at least one frame — passes overflow- and
//! silence-logging flags to the native init call, exposes no metadata
//! queries, and reports errors as [`RecorderError`] values.  The read
//! call fills a caller-supplied buffer, which must hold at least one
//! frame.  As in the frame-count revision, every native outcome is fed
//! back into the decision functions here by the unverified runner.

use vstd::prelude::*;

use vstd::string::StringExecFns;
use vstd::utf8::decode_utf8;
use vstd::utf8::valid_utf8;

use crate::config::config_valid;
use crate::config::spec_config_fault;
use crate::config::validate_config;
use crate::config::ConfigFault;
use crate::config::RecorderConfig;
use crate::devices::decode_entries;
use crate::session::Session;
use crate::status::ApiRevision;
use crate::status::PvRecorderStatus;
use crate::vtable::SymbolTable;

verus! {

/// The kind of a binding error.
#[derive(Clone, Copy, Debug, PartialEq, Eq, Structural)]
pub enum RecorderErrorStatus {
    /// The native layer reported the carried non-success status.
    LibraryError(PvRecorderStatus),
    /// The shared library could not be opened, or a required export was
    /// missing.
    LibraryLoadError,
    /// A caller-supplied parameter violated a documented constraint; the
    /// native layer was never called.
    ArgumentError,
    /// A native string could not be decoded.
    OtherError,
}

/// A structured binding error: a kind and a human-readable message.
#[derive(Clone, Debug)]
pub struct RecorderError {
    status: RecorderErrorStatus,
    message: String,
}

impl RecorderError {
    /// The kind of this error.
    pub closed spec fn spec_status(&self) -> RecorderErrorStatus {
        self.status
    }

    /// The message of this error.
    pub closed spec fn spec_message(&self) -> Seq<char> {
        self.message@
    }

    /// An error of the given kind carrying the given message.
    pub fn new(status: RecorderErrorStatus, message: &str) -> (e: Self)
        ensures
            e.spec_status() == status,
            e.spec_message() == message@,
    {
        Self { status, message: message.to_owned() }
    }

    /// The kind of this error.
    pub fn status(&self) -> (status: RecorderErrorStatus)
        ensures
            status == self.spec_status(),
    {
        self.status
    }

    /// The message of this error.
    pub fn message(&self) -> (message: &str)
        ensures
            message@ == self.spec_message(),
    {
        self.message.as_str()
    }
}

/// The message of the error a failed native call produces.
pub open spec fn spec_call_failure_message(function_name: Seq<char>) -> Seq<char> {
    "Function '"@ + function_name + "' in the pvrecorder library failed"@
}

/// Translates the status a native call reported: success passes through,
/// any other status becomes a `LibraryError` naming the failing function.
pub fn check_fn_call_status(status: PvRecorderStatus, function_name: &str) -> (r: Result<
    (),
    RecorderError,
>)
    ensures
        r is Ok <==> status is SUCCESS,
        r matches Err(e) ==> {
            &&& e.spec_status() == RecorderErrorStatus::LibraryError(status)
            &&& e.spec_message() == spec_call_failure_message(function_name@)
        },
{
    if matches!(status, PvRecorderStatus::SUCCESS) {
        Ok(())
    } else {
        let mut message = "Function '".to_owned();
        message.append(function_name);
        message.append("' in the pvrecorder library failed");
        Err(RecorderError { status: RecorderErrorStatus::LibraryError(status), message })
    }
}

/// The error reported when the shared library itself cannot be opened,
/// with the OS loader diagnostic embedded.
pub fn library_load_error(detail: &str) -> (e: RecorderError)
    ensures
        e.spec_status() is LibraryLoadError,
        e.spec_message() == "Failed to load pvrecorder dynamic library: "@ + detail@,
{
    let mut message = "Failed to load pvrecorder dynamic library: ".to_owned();
    message.append(detail);
    RecorderError { status: RecorderErrorStatus::LibraryLoadError, message }
}

/// The error reported when a required export is missing, naming the
/// symbol and embedding the OS loader diagnostic.
pub fn symbol_load_error(symbol: &str, detail: &str) -> (e: RecorderError)
    ensures
        e.spec_status() is LibraryLoadError,
        e.spec_message() == "Failed to load function symbol `"@ + symbol@
            + "` from pvrecorder library: "@ + detail@,
{
    let mut message = "Failed to load function symbol `".to_owned();
    message.append(symbol);
    message.append("` from pvrecorder library: ");
    message.append(detail);
    RecorderError { status: RecorderErrorStatus::LibraryLoadError, message }
}

/// The message of the argument error each configuration fault produces.
pub open spec fn spec_config_fault_message(fault: ConfigFault) -> Seq<char> {
    match fault {
        ConfigFault::FrameLengthNotPositive => "frame_length should be greater than zero"@,
        ConfigFault::DeviceIndexTooSmall => "device_index should be greater than or equal to -1"@,
        ConfigFault::BufferNotPositive => "buffer_size_msec should be greater than zero"@,
        ConfigFault::BufferSmallerThanFrame => "buffer_size_msec should be greater than the frame length"@,
    }
}

/// The argument error a configuration fault produces.
fn config_fault_error(fault: ConfigFault) -> (e: RecorderError)
    ensures
        e.spec_status() is ArgumentError,
        e.spec_message() == spec_config_fault_message(fault),
{
    let message: &str = match fault {
        ConfigFault::FrameLengthNotPositive => "frame_length should be greater than zero",
        ConfigFault::DeviceIndexTooSmall => "device_index should be greater than or equal to -1",
        ConfigFault::BufferNotPositive => "buffer_size_msec should be greater than zero",
        ConfigFault::BufferSmallerThanFrame => "buffer_size_msec should be greater than the frame length",
    };
    RecorderError { status: RecorderErrorStatus::ArgumentError, message: message.to_owned() }
}

/// Collects the capture parameters of the millisecond revision.
pub struct RecorderBuilder {
    device_index: i32,
    frame_length: i32,
    buffer_size_msec: i32,
    log_overflow: bool,
    log_silence: bool,
    library_path: String,
}

impl RecorderBuilder {
    /// The configuration these parameters denote.
    pub closed spec fn spec_config(&self) -> RecorderConfig {
        RecorderConfig {
            frame_length: self.frame_length,
            device_index: self.device_index,
            buffer: self.buffer_size_msec,
            log_overflow: self.log_overflow,
            log_silence: self.log_silence,
        }
    }

    /// The shared-library path the runner should open, empty until set.
    pub closed spec fn spec_library_path(&self) -> Seq<char> {
        self.library_path@
    }

    /// A builder with the defaults of this revision: the default device,
    /// a frame of 512 samples, a one-second buffer, overflow logging off
    /// and silence logging on.  The library path starts empty; the
    /// runner resolves and sets it.
    pub fn new() -> (b: Self)
        ensures
            b.spec_config() == (RecorderConfig {
                frame_length: 512i32,
                device_index: -1i32,
                buffer: 1000i32,
                log_overflow: false,
                log_silence: true,
            }),
            b.spec_library_path() == Seq::<char>::empty(),
    {
        Self {
            device_index: -1,
            frame_length: 512,
            buffer_size_msec: 1000,
            log_overflow: false,
            log_silence: true,
            library_path: String::new(),
        }
    }

    /// Replaces the device index.
    pub fn device_index(&mut self, device_index: i32) -> (b: &mut Self)
        ensures
            b.spec_config() == (RecorderConfig { device_index, ..old(self).spec_config() }),
            b.spec_library_path() == old(self).spec_library_path(),
            *final(self) == *final(b),
    {
        self.device_index = device_index;
        self
    }

    /// Replaces the frame length.
    pub fn frame_length(&mut self, frame_length: i32) -> (b: &mut Self)
        ensures
            b.spec_config() == (RecorderConfig { frame_length, ..old(self).spec_config() }),
            b.spec_library_path() == old(self).spec_library_path(),
            *final(self) == *final(b),
    {
        self.frame_length = frame_length;
        self
    }

    /// Replaces the buffer duration in milliseconds.
    pub fn buffer_size_msec(&mut self, buffer_size_msec: i32) -> (b: &mut Self)
        ensures
            b.spec_config() == (RecorderConfig {
                buffer: buffer_size_msec,
                ..old(self).spec_config()
            }),
            b.spec_library_path() == old(self).spec_library_path(),
            *final(self) == *final(b),
    {
        self.buffer_size_msec = buffer_size_msec;
        self
    }

    /// Replaces the overflow-logging flag.
    pub fn log_overflow(&mut self, log_overflow: bool) -> (b: &mut Self)
        ensures
            b.spec_config() == (RecorderConfig { log_overflow, ..old(self).spec_config() }),
            b.spec_library_path() == old(self).spec_library_path(),
            *final(self) == *final(b),
    {
        self.log_overflow = log_overflow;
        self
    }

    /// Replaces the silence-logging flag.
    pub fn log_silence(&mut self, log_silence: bool) -> (b: &mut Self)
        ensures
            b.spec_config() == (RecorderConfig { log_silence, ..old(self).spec_config() }),
            b.spec_library_path() == old(self).spec_library_path(),
            *final(self) == *final(b),
    {
        self.log_silence = log_silence;
        self
    }

    /// Replaces the shared-library path.
    pub fn library_path(&mut self, library_path: &str) -> (b: &mut Self)
        ensures
            b.spec_library_path() == library_path@,
            b.spec_config() == old(self).spec_config(),
            *final(self) == *final(b),
    {
        self.library_path = library_path.to_owned();
        self
    }

    /// The shared-library path the runner should open.
    pub fn get_library_path(&self) -> (path: &str)
        ensures
            path@ == self.spec_library_path(),
    {
        self.library_path.as_str()
    }

    /// The collected device index, for the runner to hand to the native
    /// init call.
    pub fn get_device_index(&self) -> (device_index: i32)
        ensures
            device_index == self.spec_config().device_index,
    {
        self.device_index
    }

    /// The collected frame length, for the runner to hand to the native
    /// init call.
    pub fn get_frame_length(&self) -> (frame_length: i32)
        ensures
            frame_length == self.spec_config().frame_length,
    {
        self.frame_length
    }

    /// The collected buffer duration, for the runner to hand to the
    /// native init call.
    pub fn get_buffer_size_msec(&self) -> (buffer_size_msec: i32)
        ensures
            buffer_size_msec == self.spec_config().buffer,
    {
        self.buffer_size_msec
    }

    /// The collected overflow-logging flag, for the runner to hand to
    /// the native init call.
    pub fn get_log_overflow(&self) -> (log_overflow: bool)
        ensures
            log_overflow == self.spec_config().log_overflow,
    {
        self.log_overflow
    }

    /// The collected silence-logging flag, for the runner to hand to the
    /// native init call.
    pub fn get_log_silence(&self) -> (log_silence: bool)
        ensures
            log_silence == self.spec_config().log_silence,
    {
        self.log_silence
    }

    /// Checks the collected parameters against the revision's
    /// constraints, including that the buffer duration covers at least
    /// one frame.  This check comes before any native work: the runner
    /// opens the library and calls native init only after it passes.
    pub fn validate(&self) -> (r: Result<(), RecorderError>)
        ensures
            r is Ok <==> config_valid(self.spec_config(), ApiRevision::MillisecondBuffer),
            r matches Err(e) ==> {
                &&& e.spec_status() is ArgumentError
                &&& spec_config_fault(self.spec_config(), ApiRevision::MillisecondBuffer)
                    matches Some(fault) && e.spec_message() == spec_config_fault_message(fault)
            },
    {
        let config = RecorderConfig {
            frame_length: self.frame_length,
            device_index: self.device_index,
            buffer: self.buffer_size_msec,
            log_overflow: self.log_overflow,
            log_silence: self.log_silence,
        };
        match validate_config(&config, ApiRevision::MillisecondBuffer) {
            Ok(()) => Ok(()),
            Err(fault) => Err(config_fault_error(fault)),
        }
    }

    /// Concludes initialization from what the native layer did.
    ///
    /// The parameters are rejected first: an invalid configuration is an
    /// argument error whatever the native layer would have said, so a
    /// runner that validates first never makes a native call for it.  A
    /// non-success init status is a library error.  On success the
    /// recorder holds the configured frame length and is not recording;
    /// this revision reports no metadata.
    pub fn init(&self, table: SymbolTable, init_status: PvRecorderStatus) -> (r: Result<
        Recorder,
        RecorderError,
    >)
        requires
            table.spec_revision() is MillisecondBuffer,
        ensures
            r is Ok <==> {
                &&& config_valid(self.spec_config(), ApiRevision::MillisecondBuffer)
                &&& init_status is SUCCESS
            },
            r matches Ok(recorder) ==> {
                &&& recorder.wf()
                &&& recorder.spec_session().frame_length == self.spec_config().frame_length
                &&& recorder.spec_session().recording == false
            },
            r matches Err(e) ==> {
                if !config_valid(self.spec_config(), ApiRevision::MillisecondBuffer) {
                    &&& e.spec_status() is ArgumentError
                    &&& spec_config_fault(self.spec_config(), ApiRevision::MillisecondBuffer)
                        matches Some(fault) && e.spec_message() == spec_config_fault_message(
                        fault,
                    )
                } else {
                    &&& e.spec_status() == RecorderErrorStatus::LibraryError(init_status)
                    &&& e.spec_message() == spec_call_failure_message("pv_recorder_init"@)
                }
            },
    {
        self.validate()?;
        check_fn_call_status(init_status, "pv_recorder_init")?;
        let session = Session::new(self.frame_length, 0, String::new(), String::new());
        Ok(Recorder { session, table })
    }

    /// Concludes a device enumeration from what the native layer did.
    ///
    /// Returns the result and whether the runner must now call the native
    /// free function: exactly when the native layer produced a list —
    /// also when an entry failed to decode, so the list is never leaked.
    /// A decode failure aborts the whole enumeration; no partial list is
    /// returned.
    pub fn get_audio_devices(&self, status: PvRecorderStatus, raw_entries: &Vec<Vec<u8>>) -> (r: (
        Result<Vec<String>, RecorderError>,
        bool,
    ))
        ensures
            r.1 <==> status is SUCCESS,
            !(status is SUCCESS) ==> (r.0 matches Err(e) && {
                &&& e.spec_status() == RecorderErrorStatus::LibraryError(status)
                &&& e.spec_message() == spec_call_failure_message("pv_recorder_get_audio_devices"@)
            }),
            status is SUCCESS ==> match r.0 {
                Ok(names) => {
                    &&& forall|i: int|
                        0 <= i < raw_entries@.len() ==> valid_utf8(#[trigger] raw_entries@[i]@)
                    &&& names@.len() == raw_entries@.len()
                    &&& forall|i: int|
                        0 <= i < raw_entries@.len() ==> #[trigger] names@[i]@ == decode_utf8(
                            raw_entries@[i]@,
                        )
                },
                Err(e) => {
                    &&& !(forall|i: int|
                        0 <= i < raw_entries@.len() ==> valid_utf8(#[trigger] raw_entries@[i]@))
                    &&& e.spec_status() is OtherError
                    &&& e.spec_message() == "Failed to convert device strings"@
                },
            },
    {
        match check_fn_call_status(status, "pv_recorder_get_audio_devices") {
            Ok(()) => {},
            Err(e) => {
                return (Err(e), false);
            },
        }
        match decode_entries(raw_entries) {
            Some(names) => (Ok(names), true),
            None => (
                (
                    Err(
                        RecorderError::new(
                            RecorderErrorStatus::OtherError,
                            "Failed to convert device strings",
                        ),
                    ),
                    true,
                )
            ),
        }
    }
}

impl Default for RecorderBuilder {
    /// The default builder, with the defaults of this revision.
    fn default() -> (b: Self)
        ensures
            b.spec_config() == (RecorderConfig {
                frame_length: 512i32,
                device_index: -1i32,
                buffer: 1000i32,
                log_overflow: false,
                log_silence: true,
            }),
            b.spec_library_path() == Seq::<char>::empty(),
    {
        Self::new()
    }
}

/// A handle on one initialized native capture session of the millisecond
/// revision.
#[derive(Debug)]
pub struct Recorder {
    session: Session,
    table: SymbolTable,
}

impl Recorder {
    /// The session this handle tracks.
    pub closed spec fn spec_session(&self) -> Session {
        self.session
    }

    /// Every recorder produced by init satisfies this: the session is
    /// well formed and the symbol table is the revision's complete set.
    pub closed spec fn wf(&self) -> bool {
        self.session.wf() && self.table.spec_revision() is MillisecondBuffer
    }

    /// Applies the outcome of the native start call: a success moves the
    /// session to recording; any other status leaves it unchanged and is
    /// reported as a library error.
    pub fn start(&mut self, status: PvRecorderStatus) -> (r: Result<(), RecorderError>)
        requires
            old(self).wf(),
        ensures
            final(self).wf(),
            final(self).spec_session() == old(self).spec_session().start_effect(status),
            r is Ok <==> status is SUCCESS,
            r matches Err(e) ==> {
                &&& e.spec_status() == RecorderErrorStatus::LibraryError(status)
                &&& e.spec_message() == spec_call_failure_message("pv_recorder_start"@)
            },
    {
        self.session.on_start(status);
        check_fn_call_status(status, "pv_recorder_start")
    }

    /// Applies the outcome of the native stop call: a success moves the
    /// session out of recording; any other status leaves it unchanged and
    /// is reported as a library error.
    pub fn stop(&mut self, status: PvRecorderStatus) -> (r: Result<(), RecorderError>)
        requires
            old(self).wf(),
        ensures
            final(self).wf(),
            final(self).spec_session() == old(self).spec_session().stop_effect(status),
            r is Ok <==> status is SUCCESS,
            r matches Err(e) ==> {
                &&& e.spec_status() == RecorderErrorStatus::LibraryError(status)
                &&& e.spec_message() == spec_call_failure_message("pv_recorder_stop"@)
            },
    {
        self.session.on_stop(status);
        check_fn_call_status(status, "pv_recorder_stop")
    }

    /// Concludes one read call into a caller-supplied buffer of
    /// `buffer_len` samples.
    ///
    /// A buffer smaller than one frame is an argument error, whatever the
    /// native layer would have said: a runner that checks the length
    /// first never makes a native call for it.  Otherwise the native
    /// status decides: success passes through, anything else is a
    /// library error and the buffer contents are undefined.
    pub fn read(&self, buffer_len: usize, status: PvRecorderStatus) -> (r: Result<
        (),
        RecorderError,
    >)
        requires
            self.wf(),
        ensures
            r is Ok <==> (buffer_len >= self.spec_session().frame_length as int && status
                is SUCCESS),
            r matches Err(e) ==> {
                if buffer_len < self.spec_session().frame_length as int {
                    &&& e.spec_status() is ArgumentError
                    &&& e.spec_message() == "PCM buffer needs to be at least the frame_length"@
                } else {
                    &&& e.spec_status() == RecorderErrorStatus::LibraryError(status)
                    &&& e.spec_message() == spec_call_failure_message("pv_recorder_read"@)
                }
            },
    {
        if buffer_len < self.session.frame_length as usize {
            return Err(
                RecorderError::new(
                    RecorderErrorStatus::ArgumentError,
                    "PCM buffer needs to be at least the frame_length",
                ),
            );
        }
        check_fn_call_status(status, "pv_recorder_read")
    }

    /// The number of samples every successful read fills.
    pub fn frame_length(&self) -> (n: usize)
        requires
            self.wf(),
        ensures
            n == self.spec_session().frame_length as int,
    {
        self.session.frame_length as usize
    }
}

} // verus!
