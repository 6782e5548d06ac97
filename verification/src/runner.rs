//! How the run of a helper subprocess is reported.
//!
//! Spawning a process and waiting for it are the caller's to perform. What
//! came of it is handed over as a [`RunOutcome`], which settles the exit code
//! that stands for a run without one.

use crate::capture::{occupied_with, lowest_free, released, CaptureRegistry};
use vstd::prelude::*;

verus! {

/// The process creation flag that keeps a helper from opening a console
/// window of its own, on the platform that has such windows.
pub const CREATE_NO_WINDOW: u32 = 0x0800_0000;

/// The exit code reported for a helper that could not be started.
pub const EXIT_NOT_STARTED: i32 = 2;

/// The exit code reported for a helper that ended without an exit code.
pub const EXIT_WITHOUT_CODE: i32 = 1;

/// What came of running a helper to its end.
#[derive(Clone, Copy, Debug, PartialEq, Eq, Structural)]
pub enum RunOutcome {
    /// The process could not be started.
    NotStarted,
    /// The process ran and exited with this code.
    Exited(i32),
    /// The process ran and ended without an exit code.
    Ended,
}

impl RunOutcome {
    /// The exit code that a run is reported with: its own where it has one,
    /// else the code that stands for its kind of failure.
    pub open spec fn code(self) -> i32 {
        match self {
            RunOutcome::NotStarted => EXIT_NOT_STARTED,
            RunOutcome::Exited(code) => code,
            RunOutcome::Ended => EXIT_WITHOUT_CODE,
        }
    }

    /// Whether the process ran and exited with code zero.
    pub open spec fn success(self) -> bool {
        self == RunOutcome::Exited(0)
    }

    /// The outcome of a process that was started and waited for, from the
    /// exit code that it left, if it left one.
    pub fn from_exit(code: Option<i32>) -> (outcome: RunOutcome)
        ensures
            outcome == match code {
                Some(code) => RunOutcome::Exited(code),
                None => RunOutcome::Ended,
            },
    {
        match code {
            Some(code) => RunOutcome::Exited(code),
            None => RunOutcome::Ended,
        }
    }

    /// The exit code to report for this run.
    pub fn exit_code(&self) -> (code: i32)
        ensures
            code == self.code(),
    {
        match self {
            RunOutcome::NotStarted => EXIT_NOT_STARTED,
            RunOutcome::Exited(code) => *code,
            RunOutcome::Ended => EXIT_WITHOUT_CODE,
        }
    }

    /// Whether the run counts as a success: the process was started and
    /// exited with code zero.
    pub fn succeeded(&self) -> (ok: bool)
        ensures
            ok == self.success(),
    {
        match self {
            RunOutcome::Exited(code) => *code == 0,
            _ => false,
        }
    }
}

/// What the caller of a captured run does once it has tried to start the
/// helper.
#[derive(Clone, Copy, Debug, PartialEq, Eq, Structural)]
pub enum CaptureStep {
    /// The helper runs and its output stream holds this slot: wait for the
    /// helper to end, then finish the capture.
    Wait(usize),
    /// The helper did not start: report this exit code. No slot was taken.
    Report(i32),
}

/// Registers the output stream of a helper that was just started. `spawned`
/// is that stream, or nothing when the helper could not be started; then the
/// table is left alone and the exit code for such a run is reported at once.
pub fn begin_capture<T>(registry: &mut CaptureRegistry<T>, spawned: Option<T>) -> (step:
    CaptureStep)
    ensures
        match spawned {
            Some(stream) => {
                &&& step == CaptureStep::Wait(lowest_free(old(registry)@) as usize)
                &&& final(registry)@ == occupied_with(old(registry)@, stream)
            },
            None => {
                &&& step == CaptureStep::Report(EXIT_NOT_STARTED)
                &&& final(registry)@ == old(registry)@
            },
        },
{
    match spawned {
        Some(stream) => CaptureStep::Wait(registry.acquire(stream)),
        None => CaptureStep::Report(RunOutcome::NotStarted.exit_code()),
    }
}

/// Ends the capture of a helper that has been waited for: empties its slot
/// and gives the exit code to report, from the code that the helper left, if
/// it left one.
pub fn end_capture<T>(registry: &mut CaptureRegistry<T>, slot: usize, code: Option<i32>) -> (exit:
    i32)
    requires
        slot < old(registry)@.len(),
    ensures
        final(registry)@ == released(old(registry)@, slot as int),
        exit == match code {
            Some(code) => code,
            None => EXIT_WITHOUT_CODE,
        },
{
    registry.release(slot);
    RunOutcome::from_exit(code).exit_code()
}

/// The state of a sequence of helper commands, as plain values.
pub struct SequenceView {
    /// How many commands the sequence has.
    pub count: int,
    /// How many of them have been run.
    pub done: int,
    /// The exit code of the command run last, zero when none was run.
    pub exit_code: i32,
}

/// The index of the command to run next: the first one not yet run, as long
/// as none has failed.
pub open spec fn next_command(sequence: SequenceView) -> Option<usize> {
    if sequence.exit_code == 0 && sequence.done < sequence.count {
        Some(sequence.done as usize)
    } else {
        None
    }
}

/// The sequence after the command that was due has ended with `exit_code`.
/// When no command was due nothing changes.
pub open spec fn recorded(sequence: SequenceView, exit_code: i32) -> SequenceView {
    if next_command(sequence) is Some {
        SequenceView { count: sequence.count, done: sequence.done + 1, exit_code }
    } else {
        sequence
    }
}

/// The sequence after each of `exit_codes` has been recorded in turn.
pub open spec fn recorded_all(sequence: SequenceView, exit_codes: Seq<i32>) -> SequenceView
    decreases exit_codes.len(),
{
    if exit_codes.len() == 0 {
        sequence
    } else {
        recorded(recorded_all(sequence, exit_codes.drop_last()), exit_codes.last())
    }
}

/// The first exit code among `exit_codes` that is not zero; zero when all are.
pub open spec fn first_failure(exit_codes: Seq<i32>) -> i32
    decreases exit_codes.len(),
{
    if exit_codes.len() == 0 {
        0
    } else if first_failure(exit_codes.drop_last()) != 0 {
        first_failure(exit_codes.drop_last())
    } else {
        exit_codes.last()
    }
}

/// Helper commands that are run one after another until one of them fails.
pub struct CommandSequence {
    count: usize,
    done: usize,
    exit_code: i32,
}

impl View for CommandSequence {
    type V = SequenceView;

    closed spec fn view(&self) -> SequenceView {
        SequenceView { count: self.count as int, done: self.done as int, exit_code: self.exit_code }
    }
}

impl CommandSequence {
    #[verifier::type_invariant]
    spec fn done_in_range(self) -> bool {
        self.done <= self.count
    }

    /// A sequence of `count` commands, none of them run yet.
    pub fn new(count: usize) -> (sequence: Self)
        ensures
            sequence@ == (SequenceView { count: count as int, done: 0, exit_code: 0 }),
    {
        CommandSequence { count, done: 0, exit_code: 0 }
    }

    /// The index of the command to run now, or nothing when the sequence is
    /// over: every command was run, or the last one run has failed.
    pub fn pending(&self) -> (index: Option<usize>)
        ensures
            index == next_command(self@),
    {
        if self.exit_code == 0 && self.done < self.count {
            Some(self.done)
        } else {
            None
        }
    }

    /// Records that the pending command ended with `exit_code`.
    pub fn record(&mut self, exit_code: i32)
        ensures
            final(self)@ == recorded(old(self)@, exit_code),
    {
        proof {
            use_type_invariant(&*self);
        }
        if self.exit_code == 0 && self.done < self.count {
            self.done = self.done + 1;
            self.exit_code = exit_code;
        }
    }

    /// The exit code of the sequence so far: that of the command run last,
    /// zero when none was run.
    pub fn exit_code(&self) -> (code: i32)
        ensures
            code == self@.exit_code,
    {
        self.exit_code
    }
}

/// A sequence stops at its first failure. When the exit codes of its commands
/// are recorded as they come, the sequence reports the first one that is not
/// zero, or zero when there is none; every command before the one run last
/// has succeeded, and no command is run after one that failed.
pub proof fn law_sequence_stops_at_first_failure(count: int, exit_codes: Seq<i32>)
    requires
        exit_codes.len() <= count,
    ensures
        ({
            let end = recorded_all(SequenceView { count, done: 0, exit_code: 0 }, exit_codes);
            &&& end.count == count
            &&& 0 <= end.done <= exit_codes.len()
            &&& end.exit_code == first_failure(exit_codes)
            &&& end.exit_code == 0 ==> end.done == exit_codes.len()
            &&& end.exit_code != 0 ==> next_command(end) is None && end.done > 0
                && exit_codes[end.done - 1] == end.exit_code
            &&& forall|i: int| 0 <= i < end.done - 1 ==> exit_codes[i] == 0
        }),
    decreases exit_codes.len(),
{
    if exit_codes.len() > 0 {
        let front = exit_codes.drop_last();
        law_sequence_stops_at_first_failure(count, front);
        let before = recorded_all(SequenceView { count, done: 0, exit_code: 0 }, front);
        let end = recorded(before, exit_codes.last());
        assert forall|i: int| 0 <= i < end.done - 1 implies exit_codes[i] == 0 by {
            if i < before.done - 1 {
                assert(front[i] == 0);
            }
        }
    }
}

} // verus!
