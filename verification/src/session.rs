//! The terminal session: acquires device-specific modes on entry and
//! releases them exactly once on exit.
//!
//! The session owns the output backend and records which process-wide device
//! modes (raw input, alternate screen, enhanced keyboard reporting, mouse
//! capture) were actually enabled.  Restoring reverses exactly the modes
//! that were acquired, is safe to call again (the second call is a no-op),
//! and on abnormal exits every release step is ordered before any diagnostic
//! output, so the message is not corrupted by a still-raw terminal.  The
//! device I/O that applies each step runs outside; these functions decide
//! and record.

use vstd::prelude::*;

use crate::backend::OutputBackend;
use crate::errors::SessionError;

verus! {

/// What probing the device reported before the session was built: whether it
/// can enter raw input and the alternate screen at all, and which optional
/// protocols it supports.
#[derive(Clone, Copy, Debug, PartialEq, Eq, Structural)]
pub struct DeviceCapabilities {
    /// The device is an interactive terminal that can enter raw input mode
    /// and the alternate screen buffer.
    pub interactive: bool,
    /// The device supports enhanced keyboard reporting.
    pub keyboard_enhancement: bool,
    /// The device supports mouse capture.
    pub mouse_capture: bool,
}

/// One device-mode release action, to be applied by the device driver.
#[derive(Clone, Copy, Debug, PartialEq, Eq, Structural)]
pub enum ReleaseStep {
    /// Pop the enhanced keyboard reporting flags.
    PopKeyboardEnhancement,
    /// Stop capturing mouse events.
    DisableMouseCapture,
    /// Leave the alternate screen buffer.
    LeaveAlternateScreen,
    /// Make the cursor visible again.
    ShowCursor,
    /// Switch raw input mode off.
    DisableRawInput,
}

/// The lifecycle wrapper around the output backend: which modes the session
/// holds and whether they were already released.
pub struct TerminalSession {
    /// The exclusively owned output device.
    pub backend: OutputBackend,
    /// Raw input mode was enabled.
    pub raw_input: bool,
    /// The alternate screen buffer was entered.
    pub alternate_screen: bool,
    /// Enhanced keyboard reporting flags were pushed.
    pub keyboard_enhancement: bool,
    /// Mouse capture was enabled.
    pub mouse_capture: bool,
    /// Every acquired mode has already been released.
    pub restored: bool,
}

impl TerminalSession {
    /// A session's backend must be well-formed; once restored, no mode flag
    /// may remain set.
    pub open spec fn wf(self) -> bool {
        &&& self.backend.wf()
        &&& self.restored ==> {
            &&& !self.raw_input
            &&& !self.alternate_screen
            &&& !self.keyboard_enhancement
            &&& !self.mouse_capture
        }
    }

    /// The release steps a restore must apply: exactly one step per mode the
    /// session still holds, optional protocols first, then the alternate
    /// screen (with the cursor reshown), then raw input; nothing at all once
    /// the session was already restored.
    pub open spec fn release_plan(self) -> Seq<ReleaseStep> {
        if self.restored {
            Seq::empty()
        } else {
            (if self.keyboard_enhancement {
                seq![ReleaseStep::PopKeyboardEnhancement]
            } else {
                Seq::empty()
            }) + (if self.mouse_capture {
                seq![ReleaseStep::DisableMouseCapture]
            } else {
                Seq::empty()
            }) + (if self.alternate_screen {
                seq![ReleaseStep::LeaveAlternateScreen, ReleaseStep::ShowCursor]
            } else {
                Seq::empty()
            }) + (if self.raw_input {
                seq![ReleaseStep::DisableRawInput]
            } else {
                Seq::empty()
            })
        }
    }

    /// The session state after a restore: all modes released, marked
    /// restored, the backend untouched.
    pub open spec fn after_restore(self) -> TerminalSession {
        TerminalSession {
            backend: self.backend,
            raw_input: false,
            alternate_screen: false,
            keyboard_enhancement: false,
            mouse_capture: false,
            restored: true,
        }
    }

    /// Builds the session for a probed device.  A native-display backend
    /// needs raw input and the alternate screen, so an uninteractive device
    /// is rejected with `DeviceUnavailable`; the optional protocols are
    /// taken as the probe reported them.  Raster and null backends need no
    /// device mode at all and always succeed.
    pub fn init(backend: OutputBackend, device: DeviceCapabilities) -> (r: Result<
        TerminalSession,
        SessionError,
    >)
        requires
            backend.wf(),
        ensures
            match r {
                Ok(s) => {
                    &&& s.wf()
                    &&& s.backend == backend
                    &&& !s.restored
                    &&& s.raw_input == (backend is Native)
                    &&& s.alternate_screen == (backend is Native)
                    &&& s.keyboard_enhancement == (backend is Native
                        && device.keyboard_enhancement)
                    &&& s.mouse_capture == (backend is Native && device.mouse_capture)
                    &&& (backend is Native ==> device.interactive)
                },
                Err(e) => {
                    &&& e is DeviceUnavailable
                    &&& backend is Native
                    &&& !device.interactive
                },
            },
    {
        let is_native = match &backend {
            OutputBackend::Native => true,
            _ => false,
        };
        if is_native && !device.interactive {
            return Err(SessionError::DeviceUnavailable);
        }
        Ok(
            TerminalSession {
                backend,
                raw_input: is_native,
                alternate_screen: is_native,
                keyboard_enhancement: is_native && device.keyboard_enhancement,
                mouse_capture: is_native && device.mouse_capture,
                restored: false,
            },
        )
    }

    /// Reverses every mode change the session still holds and reports the
    /// release steps for the device driver to apply, in order.  Calling it
    /// on an already-restored session returns no steps and changes nothing:
    /// restore is idempotent and never panics.
    pub fn restore(&mut self) -> (steps: Vec<ReleaseStep>)
        ensures
            *final(self) == old(self).after_restore(),
            steps@ == old(self).release_plan(),
    {
        let mut steps: Vec<ReleaseStep> = Vec::new();
        if !self.restored {
            if self.keyboard_enhancement {
                steps.push(ReleaseStep::PopKeyboardEnhancement);
            }
            if self.mouse_capture {
                steps.push(ReleaseStep::DisableMouseCapture);
            }
            if self.alternate_screen {
                steps.push(ReleaseStep::LeaveAlternateScreen);
                steps.push(ReleaseStep::ShowCursor);
            }
            if self.raw_input {
                steps.push(ReleaseStep::DisableRawInput);
            }
        }
        self.raw_input = false;
        self.alternate_screen = false;
        self.keyboard_enhancement = false;
        self.mouse_capture = false;
        self.restored = true;
        assert(steps@ =~= old(self).release_plan());
        steps
    }

    /// Restoring a restored session is a no-op: the second restore releases
    /// nothing and leaves the state exactly where the first left it.
    pub proof fn lemma_restore_idempotent(s: TerminalSession)
        ensures
            s.after_restore().release_plan() =~= Seq::<ReleaseStep>::empty(),
            s.after_restore().after_restore() == s.after_restore(),
    {
    }
}

/// Enhanced keyboard reporting may only be pushed onto a terminal that
/// reports support for it; on any other terminal the feature is refused as
/// unavailable (callers fall back to plain key events).
pub fn require_keyboard_enhancement(supported: bool) -> (r: Result<(), SessionError>)
    ensures
        r is Ok <==> supported,
        r matches Err(e) ==> e is DeviceUnavailable,
{
    if supported {
        Ok(())
    } else {
        Err(SessionError::DeviceUnavailable)
    }
}

/// One step of an abnormal-exit plan: either release a device mode or write
/// one line of diagnostic output.
pub enum ShutdownStep {
    /// Apply a device-mode release action.
    Release(ReleaseStep),
    /// Write this diagnostic message to the device.
    Print(String),
}

impl TerminalSession {
    /// Plans an abnormal exit (panic hook, error hook, fault interception):
    /// first every release step the session still holds, then — and only
    /// then — the diagnostic message, so the message is printed onto a
    /// restored screen.
    pub fn plan_abnormal_exit(&mut self, message: String) -> (steps: Vec<ShutdownStep>)
        ensures
            *final(self) == old(self).after_restore(),
            steps@.len() == old(self).release_plan().len() + 1,
            forall|i: int|
                0 <= i < old(self).release_plan().len() ==> steps@[i] == ShutdownStep::Release(
                    old(self).release_plan()[i],
                ),
            steps@.last() matches ShutdownStep::Print(m) && m@ == message@,
            // the safety-critical ordering: every release comes before any print
            forall|i: int, j: int|
                0 <= i < steps@.len() && 0 <= j < steps@.len() && (#[trigger] steps@[i]) is Release
                    && (#[trigger] steps@[j]) is Print ==> i < j,
    {
        let releases = self.restore();
        let mut steps: Vec<ShutdownStep> = Vec::new();
        let mut i: usize = 0;
        while i < releases.len()
            invariant
                0 <= i <= releases@.len(),
                steps@.len() == i,
                forall|k: int|
                    0 <= k < i ==> steps@[k] == ShutdownStep::Release(releases@[k]),
            decreases releases@.len() - i,
        {
            steps.push(ShutdownStep::Release(releases[i]));
            i = i + 1;
        }
        steps.push(ShutdownStep::Print(message));
        steps
    }
}

} // verus!
