//! A binding layer for a dynamically loaded audio-capture library.
//!
//! The native recorder is a precompiled shared library reached through a
//! table of resolved symbols.  Everything the binding itself decides —
//! configuration validation, the all-or-nothing symbol table, translation of
//! native status codes into structured errors, the session state machine,
//! device-list decoding and library path resolution — lives here and is
//! verified.  The raw foreign calls themselves (opening the shared library,
//! resolving symbols, invoking function pointers) cannot be verified and are
//! performed by an unverified runner, which feeds every native outcome back
//! into the verified decision functions of this crate.

pub mod config;
pub mod devices;
pub mod recorder;
pub mod sdk;
pub mod session;
pub mod status;
pub mod util;
pub mod vtable;

pub use config::ConfigFault;
pub use config::RecorderConfig;
pub use recorder::PvRecorder;
pub use recorder::PvRecorderBuilder;
pub use recorder::PvRecorderError;
pub use recorder::PvRecorderErrorStatus;
pub use sdk::Recorder;
pub use sdk::RecorderBuilder;
pub use sdk::RecorderError;
pub use sdk::RecorderErrorStatus;
pub use session::OwnershipLedger;
pub use session::Session;
pub use status::ApiRevision;
pub use status::PvRecorderStatus;
pub use util::find_machine_type;
pub use util::pv_library_path;
pub use util::Machine;
pub use util::Platform;
pub use vtable::SymbolTable;
pub use vtable::SymbolTableLoader;
