//! The native symbol table and its all-or-nothing loader.
//!
//! Each interface revision requires a fixed set of exported functions.  A
//! symbol table is valid only when every required symbol resolved: a single
//! missing export aborts the whole load and no partial table is ever
//! produced.  The unverified runner holds the raw function pointers and the
//! open library mapping; the [`SymbolTable`] here is the binding's witness
//! that resolution completed, and it can only be obtained by driving a
//! [`SymbolTableLoader`] through every required name.

use vstd::prelude::*;

use crate::status::ApiRevision;

verus! {

/// The exported names the given revision must resolve, in the order they
/// are attempted.
pub open spec fn spec_required_symbols(revision: ApiRevision) -> Seq<Seq<char>> {
    if revision is BufferedFrames {
        seq![
            "pv_recorder_init"@,
            "pv_recorder_delete"@,
            "pv_recorder_start"@,
            "pv_recorder_stop"@,
            "pv_recorder_read"@,
            "pv_recorder_set_debug_logging"@,
            "pv_recorder_get_is_recording"@,
            "pv_recorder_get_selected_device"@,
            "pv_recorder_get_available_devices"@,
            "pv_recorder_free_available_devices"@,
            "pv_recorder_sample_rate"@,
            "pv_recorder_version"@,
        ]
    } else {
        seq![
            "pv_recorder_init"@,
            "pv_recorder_delete"@,
            "pv_recorder_start"@,
            "pv_recorder_stop"@,
            "pv_recorder_read"@,
            "pv_recorder_get_audio_devices"@,
            "pv_recorder_free_device_list"@,
        ]
    }
}

/// How many exported names the given revision must resolve.
pub fn required_symbol_count(revision: ApiRevision) -> (n: usize)
    ensures
        n == spec_required_symbols(revision).len(),
{
    match revision {
        ApiRevision::BufferedFrames => 12,
        ApiRevision::MillisecondBuffer => 7,
    }
}

/// The exported name at position `i` of the given revision's required set.
pub fn required_symbol_name(revision: ApiRevision, i: usize) -> (name: &'static str)
    requires
        i < spec_required_symbols(revision).len(),
    ensures
        name@ == spec_required_symbols(revision)[i as int],
{
    match revision {
        ApiRevision::BufferedFrames => {
            if i == 0 {
                "pv_recorder_init"
            } else if i == 1 {
                "pv_recorder_delete"
            } else if i == 2 {
                "pv_recorder_start"
            } else if i == 3 {
                "pv_recorder_stop"
            } else if i == 4 {
                "pv_recorder_read"
            } else if i == 5 {
                "pv_recorder_set_debug_logging"
            } else if i == 6 {
                "pv_recorder_get_is_recording"
            } else if i == 7 {
                "pv_recorder_get_selected_device"
            } else if i == 8 {
                "pv_recorder_get_available_devices"
            } else if i == 9 {
                "pv_recorder_free_available_devices"
            } else if i == 10 {
                "pv_recorder_sample_rate"
            } else {
                "pv_recorder_version"
            }
        },
        ApiRevision::MillisecondBuffer => {
            if i == 0 {
                "pv_recorder_init"
            } else if i == 1 {
                "pv_recorder_delete"
            } else if i == 2 {
                "pv_recorder_start"
            } else if i == 3 {
                "pv_recorder_stop"
            } else if i == 4 {
                "pv_recorder_read"
            } else if i == 5 {
                "pv_recorder_get_audio_devices"
            } else {
                "pv_recorder_free_device_list"
            }
        },
    }
}

/// A complete symbol table for one revision.
///
/// A value of this type exists only after a [`SymbolTableLoader`] has seen
/// every required symbol of its revision resolve, so holding one is
/// holding the guarantee that no required export was missing.
#[derive(Debug)]
pub struct SymbolTable {
    revision: ApiRevision,
}

impl SymbolTable {
    /// The revision whose required set this table resolved.
    pub closed spec fn spec_revision(self) -> ApiRevision {
        self.revision
    }

    /// The revision whose required set this table resolved.
    pub fn revision(&self) -> (revision: ApiRevision)
        ensures
            revision == self.spec_revision(),
    {
        self.revision
    }
}

/// Tracks symbol resolution for one library load, name by name and in
/// order.  The load finishes only when every required name resolved.
pub struct SymbolTableLoader {
    revision: ApiRevision,
    resolved: usize,
}

impl SymbolTableLoader {
    /// The revision whose required set is being resolved.
    pub closed spec fn spec_revision(self) -> ApiRevision {
        self.revision
    }

    /// How many required names have resolved so far.
    pub closed spec fn spec_resolved(self) -> int {
        self.resolved as int
    }

    /// Resolution never runs past the required set.
    pub open spec fn wf(self) -> bool {
        self.spec_resolved() <= spec_required_symbols(self.spec_revision()).len()
    }

    /// A loader with nothing resolved yet.
    pub fn new(revision: ApiRevision) -> (loader: SymbolTableLoader)
        ensures
            loader.spec_revision() == revision,
            loader.spec_resolved() == 0,
            loader.wf(),
    {
        SymbolTableLoader { revision, resolved: 0 }
    }

    /// The next exported name the runner must resolve, or `None` when
    /// every required name has resolved.
    pub fn pending(&self) -> (name: Option<&'static str>)
        requires
            self.wf(),
        ensures
            match name {
                Some(name) => {
                    &&& self.spec_resolved() < spec_required_symbols(self.spec_revision()).len()
                    &&& name@ == spec_required_symbols(self.spec_revision())[self.spec_resolved()]
                },
                None => self.spec_resolved() == spec_required_symbols(
                    self.spec_revision(),
                ).len(),
            },
    {
        if self.resolved < required_symbol_count(self.revision) {
            Some(required_symbol_name(self.revision, self.resolved))
        } else {
            None
        }
    }

    /// Records that the pending name resolved.
    pub fn on_resolved(&mut self)
        requires
            old(self).spec_resolved() < spec_required_symbols(old(self).spec_revision()).len(),
        ensures
            final(self).spec_revision() == old(self).spec_revision(),
            final(self).spec_resolved() == old(self).spec_resolved() + 1,
            final(self).wf(),
    {
        self.resolved = self.resolved + 1;
    }

    /// Completes the load.  Only a loader that resolved every required
    /// name can produce a table: a partial resolution never does.
    pub fn finish(self) -> (table: SymbolTable)
        requires
            self.spec_resolved() == spec_required_symbols(self.spec_revision()).len(),
        ensures
            table.spec_revision() == self.spec_revision(),
    {
        SymbolTable { revision: self.revision }
    }
}

} // verus!
