use vstd::prelude::*;
use crate::error::HidError;
use crate::info::HIDDeviceInfo;
use crate::resolve::{ProbeOutcome, SpecProbeOutcome};

verus! {

/// Where an enumerator stands: it has not acquired its OS
/// device-interface set yet, it is actively scanning, or it has ended
/// (and may still hold the set until it is released).
#[derive(Clone, Copy, Debug, PartialEq, Eq, Structural)]
pub enum IterPhase {
    /// No OS enumeration handle acquired yet; acquired lazily on the
    /// first step.
    Unopened,
    /// Handle acquired; the scan advances index by index.
    Ready,
    /// The scan is over. `handle_held` says whether the OS enumeration
    /// handle still needs to be released.
    Ended { handle_held: bool },
}

/// A lazy, forward-only scan over the OS's device interfaces, yielding
/// one result per HID-class device in ascending index order. The cursor
/// only ever moves forward; a fresh enumerator must be constructed to
/// re-scan.
pub struct HIDDeviceInfoIter {
    /// The cursor: the next OS enumeration index to probe. Advances by
    /// exactly one per probed position and never decreases.
    pub index: u32,
    pub phase: IterPhase,
}

/// Constructs an enumerator over all HID-class devices, positioned
/// before the first OS enumeration index and with no OS resources
/// acquired yet.
pub fn hid_enumerate_all() -> (it: HIDDeviceInfoIter)
    ensures
        it.index == 0,
        it.phase == IterPhase::Unopened,
{
    HIDDeviceInfoIter { index: 0, phase: IterPhase::Unopened }
}

impl HIDDeviceInfoIter {
    /// Whether the next step must first acquire the OS enumeration
    /// handle.
    pub fn needs_handle(&self) -> (r: bool)
        ensures
            r == (self.phase == IterPhase::Unopened),
    {
        matches!(self.phase, IterPhase::Unopened)
    }

    /// Records whether acquiring the enumeration handle succeeded.
    /// Failure ends the sequence immediately and silently: the scan is
    /// treated as empty, not as an error, and nothing is ever emitted.
    pub fn on_enumeration_handle(&mut self, acquired: bool)
        requires
            old(self).phase == IterPhase::Unopened,
        ensures
            final(self).index == old(self).index,
            acquired ==> final(self).phase == IterPhase::Ready,
            !acquired ==> final(self).phase == (IterPhase::Ended { handle_held: false }),
    {
        if acquired {
            self.phase = IterPhase::Ready;
        } else {
            self.phase = IterPhase::Ended { handle_held: false };
        }
    }

    /// Whether the scan is active and the next index can be probed.
    pub fn active(&self) -> (r: bool)
        ensures
            r == (self.phase == IterPhase::Ready),
    {
        matches!(self.phase, IterPhase::Ready)
    }

    /// The index the next probe must examine.
    pub fn probe_index(&self) -> (r: u32)
        requires
            self.phase == IterPhase::Ready,
        ensures
            r == self.index,
    {
        self.index
    }

    /// Consumes the outcome of probing the current index and advances
    /// the cursor:
    /// a non-matching device is skipped (cursor moves forward by
    /// exactly one, nothing is emitted); a per-device failure is
    /// emitted as an error while the scan continues past it; a match is
    /// emitted and the cursor lands one past the matched index; and the
    /// end of the interface list ends the scan for good.
    pub fn on_probe(&mut self, outcome: ProbeOutcome) -> (emit: Option<
        Result<HIDDeviceInfo, HidError>,
    >)
        requires
            old(self).phase == IterPhase::Ready,
            old(self).index < u32::MAX,
        ensures
            final(self).index >= old(self).index,
            outcome@ is NoMoreDevices ==> final(self).phase == (IterPhase::Ended {
                handle_held: true,
            }) && final(self).index == old(self).index && emit is None,
            outcome@ is NotMatching ==> final(self).phase == IterPhase::Ready && final(self).index
                == old(self).index + 1 && emit is None,
            outcome@ matches SpecProbeOutcome::Failed { error } ==> ({
                &&& final(self).phase == IterPhase::Ready
                &&& final(self).index == old(self).index + 1
                &&& emit == Some(Err::<HIDDeviceInfo, HidError>(error))
            }),
            outcome@ matches SpecProbeOutcome::Matched { info } ==> ({
                &&& final(self).phase == IterPhase::Ready
                &&& final(self).index == old(self).index + 1
                &&& emit matches Some(Ok(got)) && got@ == info
            }),
    {
        match outcome {
            ProbeOutcome::NoMoreDevices => {
                self.phase = IterPhase::Ended { handle_held: true };
                None
            },
            ProbeOutcome::NotMatching => {
                self.index = self.index + 1;
                None
            },
            ProbeOutcome::Failed { error } => {
                self.index = self.index + 1;
                Some(Err(error))
            },
            ProbeOutcome::Matched { info } => {
                self.index = self.index + 1;
                Some(Ok(info))
            },
        }
    }

    /// Whether the scan has ended; an ended enumerator never yields
    /// anything again.
    pub fn exhausted(&self) -> (r: bool)
        ensures
            r == (self.phase is Ended),
    {
        matches!(self.phase, IterPhase::Ended { .. })
    }

    /// Ends the scan and says whether the OS enumeration handle must
    /// now be released. Every enumerator that acquired its handle must
    /// be released exactly once, whatever state the scan ended in.
    pub fn release(&mut self) -> (must_free: bool)
        ensures
            final(self).index == old(self).index,
            final(self).phase == (IterPhase::Ended { handle_held: false }),
            must_free == (old(self).phase == IterPhase::Ready || old(self).phase
                == (IterPhase::Ended { handle_held: true })),
    {
        let must_free = matches!(
            self.phase,
            IterPhase::Ready | IterPhase::Ended { handle_held: true }
        );
        self.phase = IterPhase::Ended { handle_held: false };
        must_free
    }
}

} // verus!
