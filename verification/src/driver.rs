//! The frame loop driver's decisions. The host performs the outside
//! work of each frame — draining the ledgers, invoking the script's
//! frame entry point, yielding — and this module decides, from the
//! script's outcome and the termination flag, whether the loop runs
//! another frame or stops, and what it reports.
use vstd::prelude::*;

verus! {

/// How one invocation of the script's frame entry point ended.
#[derive(Clone, PartialEq, Debug)]
pub enum ScriptOutcome {
    /// The frame ran to completion.
    Completed,
    /// The script raised an error with an attached message.
    Fault(String),
    /// The script engine failed in some other way.
    UnknownFault,
}

/// What the driver does after one frame.
#[derive(Clone, PartialEq, Debug)]
pub enum FrameDirective {
    /// Run the next frame.
    Continue,
    /// Report this message and leave the loop: a script fault is fatal.
    StopFault(String),
    /// Report a generic message and leave the loop.
    StopUnknown,
    /// Leave the loop because the script asked to terminate.
    StopRequested,
}

/// The driver's rule: a script fault of either kind is fatal whatever
/// the flag says; a completed frame stops only when termination was
/// requested, and otherwise the loop continues.
pub open spec fn spec_directive(exit_requested: bool, outcome: ScriptOutcome) -> FrameDirective {
    match outcome {
        ScriptOutcome::Fault(m) => FrameDirective::StopFault(m),
        ScriptOutcome::UnknownFault => FrameDirective::StopUnknown,
        ScriptOutcome::Completed => {
            if exit_requested {
                FrameDirective::StopRequested
            } else {
                FrameDirective::Continue
            }
        },
    }
}

/// The state the frame loop carries between frames.
pub struct Driver {
    exit_requested: bool,
    halted: bool,
    frames_completed: u64,
}

impl Driver {
    /// True once the script has asked the loop to terminate.
    pub closed spec fn exit_requested(self) -> bool {
        self.exit_requested
    }

    /// True once the loop has stopped; no further frame may finish.
    pub closed spec fn halted(self) -> bool {
        self.halted
    }

    /// How many frames ran to completion and were followed by another.
    pub closed spec fn frames_completed(self) -> u64 {
        self.frames_completed
    }

    /// A fresh driver: running, no termination request, no frame done.
    pub fn new() -> (d: Self)
        ensures
            !d.exit_requested(),
            !d.halted(),
            d.frames_completed() == 0,
    {
        Driver { exit_requested: false, halted: false, frames_completed: 0 }
    }

    /// Set the termination flag. A native function exposed to the
    /// script calls this; the flag takes effect at the end of the
    /// frame, never preempting the frame in progress.
    pub fn request_exit(&mut self)
        ensures
            final(self).exit_requested(),
            final(self).halted() == old(self).halted(),
            final(self).frames_completed() == old(self).frames_completed(),
    {
        self.exit_requested = true;
    }

    /// How many frames ran to completion so far.
    pub fn frames_done(&self) -> (n: u64)
        ensures
            n == self.frames_completed(),
    {
        self.frames_completed
    }

    /// True once the loop has stopped.
    pub fn is_halted(&self) -> (r: bool)
        ensures
            r == self.halted(),
    {
        self.halted
    }

    /// Close one frame: decide from the script's outcome and the
    /// termination flag what the loop does next, exactly as
    /// `spec_directive` says. The frame counter moves up only when the
    /// loop continues, and the driver halts exactly when it does not.
    pub fn finish_frame(&mut self, outcome: ScriptOutcome) -> (d: FrameDirective)
        requires
            !old(self).halted(),
            old(self).frames_completed() < u64::MAX,
        ensures
            d == spec_directive(old(self).exit_requested(), outcome),
            final(self).exit_requested() == old(self).exit_requested(),
            final(self).halted() <==> !(d is Continue),
            final(self).frames_completed() == if d is Continue {
                old(self).frames_completed() + 1
            } else {
                old(self).frames_completed() as int
            },
    {
        match outcome {
            ScriptOutcome::Fault(m) => {
                self.halted = true;
                FrameDirective::StopFault(m)
            },
            ScriptOutcome::UnknownFault => {
                self.halted = true;
                FrameDirective::StopUnknown
            },
            ScriptOutcome::Completed => {
                if self.exit_requested {
                    self.halted = true;
                    FrameDirective::StopRequested
                } else {
                    self.frames_completed = self.frames_completed + 1;
                    FrameDirective::Continue
                }
            },
        }
    }
}

} // verus!
