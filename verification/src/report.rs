use vstd::prelude::*;
use crate::device::HIDDevice;
use crate::error::HidError;

verus! {

/// Where a feature-report exchange stands: about to issue the control
/// request, blocked on the overlapped completion, or finished.
#[derive(Clone, Copy, Debug, PartialEq, Eq, Structural)]
pub enum FxPhase {
    ReadyToIssue,
    AwaitingCompletion,
    Completed,
}

/// One synchronous-from-the-caller's-view feature-report retrieval over
/// the OS's asynchronous I/O primitive: the control request is issued,
/// and if the OS reports it as pending, the exchange blocks on the
/// completion wait. Either the full transferred byte count comes back
/// or an error does; there is no partial-success state.
#[derive(Clone, Copy, Debug, PartialEq, Eq, Structural)]
pub struct FeatureExchange {
    pub phase: FxPhase,
}

/// What the OS answered when the control request was issued.
#[derive(Clone, Copy, Debug, PartialEq, Eq, Structural)]
pub enum IssueEvent {
    /// The request completed immediately with this many bytes
    /// transferred.
    Succeeded { bytes: u32 },
    /// The request was accepted but is still in flight.
    Pending,
    /// The request failed outright; `code` is the platform's last
    /// error code.
    Failed { code: u32 },
}

/// What the completion wait answered.
#[derive(Clone, Copy, Debug, PartialEq, Eq, Structural)]
pub enum WaitEvent {
    /// The operation completed with this many bytes transferred.
    Succeeded { bytes: u32 },
    /// The wait itself failed; `code` is the platform's last error
    /// code.
    Failed { code: u32 },
}

/// Starts a feature-report retrieval against an open device and a
/// caller-provided buffer of the given length. The buffer must carry
/// the report ID in its first byte, so an empty buffer is rejected
/// outright, before any OS call; so is a handle that is no longer open.
pub fn begin_feature_report(device: &HIDDevice, buffer_len: usize) -> (r: Result<
    FeatureExchange,
    HidError,
>)
    ensures
        !device.handle.is_open ==> r == Err::<FeatureExchange, HidError>(HidError::HandleClosed),
        device.handle.is_open && buffer_len == 0 ==> r == Err::<FeatureExchange, HidError>(
            HidError::EmptyBuffer,
        ),
        device.handle.is_open && buffer_len > 0 ==> r == Ok::<FeatureExchange, HidError>(
            FeatureExchange { phase: FxPhase::ReadyToIssue },
        ),
{
    if !device.handle.is_open {
        Err(HidError::HandleClosed)
    } else if buffer_len == 0 {
        Err(HidError::EmptyBuffer)
    } else {
        Ok(FeatureExchange { phase: FxPhase::ReadyToIssue })
    }
}

impl FeatureExchange {
    /// The wait path is taken exactly when the issue call reported the
    /// request as pending.
    pub fn must_wait(&self) -> (r: bool)
        ensures
            r == (self.phase == FxPhase::AwaitingCompletion),
    {
        matches!(self.phase, FxPhase::AwaitingCompletion)
    }

    /// Consumes the issue call's answer. Immediate completion returns
    /// the OS-reported transferred count as the final result, without
    /// ever invoking the wait path; a pending answer moves the exchange
    /// to the completion wait; a failure surfaces the platform error.
    pub fn on_issue(&mut self, ev: IssueEvent) -> (r: Option<Result<u32, HidError>>)
        requires
            old(self).phase == FxPhase::ReadyToIssue,
        ensures
            ev matches IssueEvent::Succeeded { bytes } ==> final(self).phase == FxPhase::Completed
                && r == Some(Ok::<u32, HidError>(bytes)),
            ev is Pending ==> final(self).phase == FxPhase::AwaitingCompletion && r is None,
            ev matches IssueEvent::Failed { code } ==> final(self).phase == FxPhase::Completed && r
                == Some(Err::<u32, HidError>(HidError::Os { code })),
    {
        match ev {
            IssueEvent::Succeeded { bytes } => {
                self.phase = FxPhase::Completed;
                Some(Ok(bytes))
            },
            IssueEvent::Pending => {
                self.phase = FxPhase::AwaitingCompletion;
                None
            },
            IssueEvent::Failed { code } => {
                self.phase = FxPhase::Completed;
                Some(Err(HidError::Os { code }))
            },
        }
    }

    /// Consumes the completion wait's answer: success yields the final
    /// transferred count, failure the platform error.
    pub fn on_wait(&mut self, ev: WaitEvent) -> (r: Result<u32, HidError>)
        requires
            old(self).phase == FxPhase::AwaitingCompletion,
        ensures
            final(self).phase == FxPhase::Completed,
            ev matches WaitEvent::Succeeded { bytes } ==> r == Ok::<u32, HidError>(bytes),
            ev matches WaitEvent::Failed { code } ==> r == Err::<u32, HidError>(
                HidError::Os { code },
            ),
    {
        self.phase = FxPhase::Completed;
        match ev {
            WaitEvent::Succeeded { bytes } => Ok(bytes),
            WaitEvent::Failed { code } => Err(HidError::Os { code }),
        }
    }
}

} // verus!
