//! The recorder session state machine and the shared-ownership ledger.
//!
//! A session is the binding-side record of one initialized native capture
//! instance: the validated frame length, the metadata cached at init, and
//! whether capture is currently running.  Every native call is made by an
//! unverified runner; the session consumes the status the native layer
//! reported and decides the next state.  The ownership ledger models the
//! shared-handle discipline: however many handles co-own a session, the
//! native delete call is issued exactly once, by the last one released.

use vstd::prelude::*;

use crate::status::PvRecorderStatus;

verus! {

/// One initialized capture session.
#[derive(Debug)]
pub struct Session {
    /// Samples delivered by one read call.  Positive.
    pub frame_length: i32,
    /// The fixed capture sample rate the native layer reported at init,
    /// or zero where the revision has no such query.
    pub sample_rate: i32,
    /// The name of the bound capture device, decoded at init, or empty
    /// where the revision has no such query.
    pub selected_device: String,
    /// The native library version string, decoded at init, or empty where
    /// the revision has no such query.
    pub version: String,
    /// Whether capture is running: false from init, true after a
    /// successful start, false again after a successful stop.
    pub recording: bool,
    /// Whether native debug logging was requested.
    pub debug_logging: bool,
}

impl Session {
    /// What every session established by init satisfies.
    pub open spec fn wf(self) -> bool {
        self.frame_length > 0
    }

    /// A fresh session, as produced by a successful native init: not yet
    /// recording, with the metadata the native layer reported.
    pub fn new(
        frame_length: i32,
        sample_rate: i32,
        selected_device: String,
        version: String,
    ) -> (s: Session)
        requires
            frame_length > 0,
        ensures
            s == (Session {
                frame_length,
                sample_rate,
                selected_device,
                version,
                recording: false,
                debug_logging: false,
            }),
            s.wf(),
    {
        Session {
            frame_length,
            sample_rate,
            selected_device,
            version,
            recording: false,
            debug_logging: false,
        }
    }

    /// The session after the native start call reported `status`: a
    /// success begins capture, a failure leaves the session as it was.
    pub open spec fn start_effect(self, status: PvRecorderStatus) -> Session {
        if status is SUCCESS {
            Session { recording: true, ..self }
        } else {
            self
        }
    }

    /// The session after the native stop call reported `status`: a
    /// success ends capture, a failure leaves the session as it was.
    pub open spec fn stop_effect(self, status: PvRecorderStatus) -> Session {
        if status is SUCCESS {
            Session { recording: false, ..self }
        } else {
            self
        }
    }

    /// Applies the outcome of the native start call.
    pub fn on_start(&mut self, status: PvRecorderStatus)
        ensures
            *final(self) == old(self).start_effect(status),
    {
        if matches!(status, PvRecorderStatus::SUCCESS) {
            self.recording = true;
        }
    }

    /// Applies the outcome of the native stop call.
    pub fn on_stop(&mut self, status: PvRecorderStatus)
        ensures
            *final(self) == old(self).stop_effect(status),
    {
        if matches!(status, PvRecorderStatus::SUCCESS) {
            self.recording = false;
        }
    }

    /// Records that native debug logging was toggled.
    pub fn on_set_debug_logging(&mut self, enabled: bool)
        ensures
            *final(self) == (Session { debug_logging: enabled, ..*old(self) }),
    {
        self.debug_logging = enabled;
    }

    /// Allocates the buffer one read call fills: exactly `frame_length`
    /// samples, zeroed.
    pub fn frame_buffer(&self) -> (frame: Vec<i16>)
        requires
            self.wf(),
        ensures
            frame@.len() == self.frame_length as int,
            forall|i: int| 0 <= i < frame@.len() ==> frame@[i] == 0i16,
    {
        let n: usize = self.frame_length as usize;
        let mut frame: Vec<i16> = Vec::new();
        let mut i: usize = 0;
        while i < n
            invariant
                i <= n,
                frame@.len() == i as int,
                forall|j: int| 0 <= j < frame@.len() ==> frame@[j] == 0i16,
            decreases n - i,
        {
            frame.push(0i16);
            i = i + 1;
        }
        frame
    }
}

/// A failed start or stop leaves the session exactly as it was: there is
/// no implicit retry and no partial transition.
pub proof fn lemma_failed_transition_is_identity(s: Session, status: PvRecorderStatus)
    requires
        !(status is SUCCESS),
    ensures
        s.start_effect(status) == s,
        s.stop_effect(status) == s,
{
}

/// The recording flag over a session's life: false immediately after
/// init, true after a successful start, false again after a successful
/// stop — and a failed start or stop never changes it.
pub proof fn lemma_recording_lifecycle(
    fresh: Session,
    start_status: PvRecorderStatus,
    stop_status: PvRecorderStatus,
)
    requires
        !fresh.recording,
    ensures
        fresh.start_effect(start_status).recording <==> start_status is SUCCESS,
        !fresh.start_effect(start_status).stop_effect(stop_status).recording <==> (stop_status
            is SUCCESS || !(start_status is SUCCESS)),
{
}

/// The shared-ownership ledger of one session: how many handles co-own it
/// and how many native delete calls have been issued for it.
#[derive(Debug)]
pub struct OwnershipLedger {
    /// Handles currently co-owning the session.
    pub owners: u32,
    /// Native delete calls issued for the session.
    pub deletes: u32,
}

impl OwnershipLedger {
    /// Either the session is still owned and has never been deleted, or
    /// the last owner is gone and delete was issued exactly once.
    pub open spec fn wf(self) -> bool {
        (self.owners >= 1 && self.deletes == 0) || (self.owners == 0 && self.deletes == 1)
    }

    /// The ledger of a freshly initialized session: one owner, no delete.
    pub fn new() -> (l: OwnershipLedger)
        ensures
            l == (OwnershipLedger { owners: 1u32, deletes: 0u32 }),
            l.wf(),
    {
        OwnershipLedger { owners: 1, deletes: 0 }
    }

    /// The ledger after one more handle to the session is created.
    pub open spec fn clone_effect(self) -> OwnershipLedger {
        OwnershipLedger { owners: (self.owners + 1) as u32, ..self }
    }

    /// The ledger after one handle is released.  The last release, and
    /// only it, issues the native delete.
    pub open spec fn drop_effect(self) -> OwnershipLedger {
        OwnershipLedger {
            owners: (self.owners - 1) as u32,
            deletes: if self.owners == 1 {
                (self.deletes + 1) as u32
            } else {
                self.deletes
            },
        }
    }

    /// Records that one more handle to the session was created.
    pub fn on_clone(&mut self)
        requires
            old(self).wf(),
            old(self).owners >= 1,
            old(self).owners < u32::MAX,
        ensures
            *final(self) == old(self).clone_effect(),
            final(self).wf(),
    {
        self.owners = self.owners + 1;
    }

    /// Records that one handle was released.  Returns whether this release
    /// was the last one, in which case — and in no other — the runner must
    /// issue the native delete call now.
    pub fn on_drop(&mut self) -> (delete_now: bool)
        requires
            old(self).wf(),
            old(self).owners >= 1,
        ensures
            *final(self) == old(self).drop_effect(),
            delete_now <==> old(self).owners == 1,
            final(self).wf(),
            final(self).deletes <= 1,
    {
        self.owners = self.owners - 1;
        if self.owners == 0 {
            self.deletes = self.deletes + 1;
            true
        } else {
            false
        }
    }
}

/// The ledger a fresh session's ledger becomes after a sequence of handle
/// events, `true` for a clone and `false` for a release, tracked over
/// unbounded counts.
pub open spec fn ledger_run(events: Seq<bool>, owners: int, deletes: int) -> (int, int)
    decreases events.len(),
{
    if events.len() == 0 {
        (owners, deletes)
    } else if events[0] {
        ledger_run(events.drop_first(), owners + 1, deletes)
    } else {
        ledger_run(
            events.drop_first(),
            owners - 1,
            if owners == 1 {
                deletes + 1
            } else {
                deletes
            },
        )
    }
}

/// Whether a sequence of handle events is possible: a handle can only be
/// cloned or released while at least one owner remains.
pub open spec fn events_possible(events: Seq<bool>, owners: int) -> bool
    decreases events.len(),
{
    if events.len() == 0 {
        true
    } else if events[0] {
        owners >= 1 && events_possible(events.drop_first(), owners + 1)
    } else {
        owners >= 1 && events_possible(events.drop_first(), owners - 1)
    }
}

/// Resource symmetry, one step at a time: every possible event sequence
/// keeps the ledger well formed — delete is never issued while a handle
/// remains, and is issued exactly once when the last one goes.
pub proof fn lemma_ledger_invariant(events: Seq<bool>, owners: int, deletes: int)
    requires
        events_possible(events, owners),
        (owners >= 1 && deletes == 0) || (owners == 0 && deletes == 1),
    ensures
        ({
            let (o, d) = ledger_run(events, owners, deletes);
            (o >= 1 && d == 0) || (o == 0 && d == 1)
        }),
    decreases events.len(),
{
    if events.len() > 0 {
        if events[0] {
            lemma_ledger_invariant(events.drop_first(), owners + 1, deletes);
        } else {
            lemma_ledger_invariant(
                events.drop_first(),
                owners - 1,
                if owners == 1 {
                    deletes + 1
                } else {
                    deletes
                },
            );
        }
    }
}

/// Resource symmetry: for every successful init — a ledger starting at
/// one owner and no delete — any possible sequence of handle clones and
/// releases that ends with no owner left has issued the native delete
/// exactly once, however the releases were interleaved.
pub proof fn lemma_delete_exactly_once(events: Seq<bool>)
    requires
        events_possible(events, 1),
        ledger_run(events, 1, 0).0 == 0,
    ensures
        ledger_run(events, 1, 0).1 == 1,
{
    lemma_ledger_invariant(events, 1, 0);
}

} // verus!
