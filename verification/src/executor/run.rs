//! The decisions of a run in the background: which command comes next,
//! how each outcome is counted, and when a phase ends. The caller spawns
//! the processes, watches the signals and reports each outcome.
//!
//! A run has two phases: the normal commands, then the deferred commands,
//! which always run, whatever happened before.

use vstd::prelude::*;
use crate::executor::{substitute_spec, substitute_variables_inner, vars_view, ExecutionEvent};
use crate::models::{Command, ExecMode, Variable};

verus! {

/// The phase of a run.
#[derive(Debug, Clone, Copy, PartialEq, Eq, Structural)]
pub enum Phase {
    /// Running the normal commands.
    Normal,
    /// Running the deferred commands.
    Deferred,
    /// Every command has had its turn.
    Done,
}

/// What happened to the command that had its turn.
#[derive(Debug, Clone, Copy, PartialEq, Eq, Structural)]
pub enum Outcome {
    /// It ran to its end, successfully or not.
    Exited { success: bool },
    /// It could not be started.
    SpawnFailed,
    /// The user skipped it, and then let the run go on.
    Skipped,
    /// The user aborted the normal commands.
    Aborted,
}

/// How the watch over a command that had its turn ended.
#[derive(Debug, Clone, Copy, PartialEq, Eq, Structural)]
pub enum Ending {
    /// The command exited, successfully or not, with its exit code if it
    /// had one.
    Exited { success: bool, exit_code: Option<i32> },
    /// It could not be started.
    SpawnFailed,
    /// The abort signal stopped it.
    Killed,
    /// The skip signal stopped it.
    Skipped,
}

/// The finish reported for command `index` after `ending`, `duration_ms`
/// after it started: a command the user stopped is reported failed and
/// skipped, without an exit code.
pub open spec fn finish_spec(index: usize, ending: Ending, duration_ms: u128) -> ExecutionEvent {
    match ending {
        Ending::Exited { success, exit_code } => ExecutionEvent::Finished {
            index,
            success,
            duration_ms,
            exit_code,
            skipped: false,
        },
        Ending::SpawnFailed => ExecutionEvent::Finished {
            index,
            success: false,
            duration_ms,
            exit_code: None,
            skipped: false,
        },
        Ending::Killed | Ending::Skipped => ExecutionEvent::Finished {
            index,
            success: false,
            duration_ms,
            exit_code: None,
            skipped: true,
        },
    }
}

/// What the run records after `ending`: after a skip, the run paused, and
/// `resumed` tells whether the pause ended by going on (else by an abort).
pub open spec fn outcome_spec(ending: Ending, resumed: bool) -> Outcome {
    match ending {
        Ending::Exited { success, .. } => Outcome::Exited { success },
        Ending::SpawnFailed => Outcome::SpawnFailed,
        Ending::Killed => Outcome::Aborted,
        Ending::Skipped => if resumed { Outcome::Skipped } else { Outcome::Aborted },
    }
}

/// The finish to report for command `index` after `ending`.
pub fn finish_event(index: usize, ending: Ending, duration_ms: u128) -> (res: ExecutionEvent)
    ensures
        res == finish_spec(index, ending, duration_ms),
{
    match ending {
        Ending::Exited { success, exit_code } => ExecutionEvent::Finished {
            index,
            success,
            duration_ms,
            exit_code,
            skipped: false,
        },
        Ending::SpawnFailed => ExecutionEvent::Finished {
            index,
            success: false,
            duration_ms,
            exit_code: None,
            skipped: false,
        },
        Ending::Killed | Ending::Skipped => ExecutionEvent::Finished {
            index,
            success: false,
            duration_ms,
            exit_code: None,
            skipped: true,
        },
    }
}

/// The outcome to record after `ending` (and, after a skip, the pause).
pub fn outcome_of(ending: Ending, resumed: bool) -> (res: Outcome)
    ensures
        res == outcome_spec(ending, resumed),
{
    match ending {
        Ending::Exited { success, .. } => Outcome::Exited { success },
        Ending::SpawnFailed => Outcome::SpawnFailed,
        Ending::Killed => Outcome::Aborted,
        Ending::Skipped => if resumed {
            Outcome::Skipped
        } else {
            Outcome::Aborted
        },
    }
}

/// Where a run stands.
#[derive(Debug, Clone, Copy, PartialEq, Eq, Structural)]
pub struct RunState {
    pub phase: Phase,
    /// Position of the current command in its phase's list.
    pub pos: usize,
    pub n_normal: usize,
    pub n_defer: usize,
    /// Whether a failed normal command ends the normal phase.
    pub stop_on_error: bool,
    /// Added to the event index of every command.
    pub index_offset: usize,
    pub succeeded: usize,
    pub failed: usize,
}

/// The state that starts the deferred phase (or ends the run without
/// deferred commands).
pub open spec fn defer_start(s: RunState) -> RunState {
    if s.n_defer > 0 {
        RunState { phase: Phase::Deferred, pos: 0, ..s }
    } else {
        RunState { phase: Phase::Done, pos: 0, ..s }
    }
}

/// The state that moves on to the next command.
pub open spec fn advanced(s: RunState) -> RunState {
    match s.phase {
        Phase::Normal => if s.pos + 1 < s.n_normal {
            RunState { pos: (s.pos + 1) as usize, ..s }
        } else {
            defer_start(s)
        },
        Phase::Deferred => if s.pos + 1 < s.n_defer {
            RunState { pos: (s.pos + 1) as usize, ..s }
        } else {
            RunState { phase: Phase::Done, pos: 0, ..s }
        },
        Phase::Done => s,
    }
}

/// Commands that have had their turn.
pub open spec fn taken(s: RunState) -> int {
    match s.phase {
        Phase::Normal => s.pos as int,
        Phase::Deferred => s.n_normal + s.pos,
        Phase::Done => s.n_normal + s.n_defer,
    }
}

/// Commands still to have their turn (at most).
pub open spec fn remaining(s: RunState) -> int {
    match s.phase {
        Phase::Normal => s.n_normal - s.pos + s.n_defer,
        Phase::Deferred => s.n_defer - s.pos,
        Phase::Done => 0,
    }
}

impl RunState {
    /// The position is a command of the phase, the counts fit what has run,
    /// and every event index fits in `usize`.
    pub open spec fn wf(self) -> bool {
        &&& self.index_offset + self.n_normal + self.n_defer <= usize::MAX
        &&& match self.phase {
            Phase::Normal => self.pos < self.n_normal,
            Phase::Deferred => self.pos < self.n_defer,
            Phase::Done => self.pos == 0,
        }
        &&& self.succeeded + self.failed <= taken(self)
    }

    /// The state after `o`.
    pub open spec fn after(self, o: Outcome) -> RunState {
        match self.phase {
            Phase::Done => self,
            _ => match o {
                Outcome::Exited { success: true } => advanced(RunState { succeeded: (self.succeeded + 1) as usize, ..self }),
                Outcome::Exited { success: false } | Outcome::SpawnFailed => {
                    let counted = RunState { failed: (self.failed + 1) as usize, ..self };
                    if self.phase == Phase::Normal && self.stop_on_error { defer_start(counted) } else { advanced(counted) }
                },
                Outcome::Skipped => advanced(self),
                Outcome::Aborted => if self.phase == Phase::Normal { defer_start(self) } else { advanced(self) },
            },
        }
    }

    /// A run of `n_normal` commands then `n_defer` deferred commands, whose
    /// events are numbered from `index_offset`.
    pub fn new(n_normal: usize, n_defer: usize, mode: ExecMode, index_offset: usize) -> (res: Self)
        requires
            index_offset + n_normal + n_defer <= usize::MAX,
        ensures
            res.wf(),
            res.n_normal == n_normal,
            res.n_defer == n_defer,
            res.index_offset == index_offset,
            res.stop_on_error == (mode == ExecMode::StopOnError),
            res.succeeded == 0,
            res.failed == 0,
            res.pos == 0,
            res.phase == if n_normal > 0 {
                Phase::Normal
            } else if n_defer > 0 {
                Phase::Deferred
            } else {
                Phase::Done
            },
    {
        let phase = if n_normal > 0 {
            Phase::Normal
        } else if n_defer > 0 {
            Phase::Deferred
        } else {
            Phase::Done
        };
        let stop_on_error = match mode {
            ExecMode::StopOnError => true,
            ExecMode::ContinueOnError => false,
        };
        RunState { phase, pos: 0, n_normal, n_defer, stop_on_error, index_offset, succeeded: 0, failed: 0 }
    }

    /// The command whose turn it is: whether it is deferred, its position
    /// in its list, and the index its events carry. `None` once the run is
    /// over.
    pub fn current(&self) -> (res: Option<(bool, usize, usize)>)
        requires
            self.wf(),
        ensures
            match self.phase {
                Phase::Normal => res == Some((false, self.pos, (self.index_offset + self.pos) as usize)),
                Phase::Deferred => res == Some((true, self.pos, (self.index_offset + self.n_normal + self.pos) as usize)),
                Phase::Done => res is None,
            },
    {
        match self.phase {
            Phase::Normal => Some((false, self.pos, self.index_offset + self.pos)),
            Phase::Deferred => Some((true, self.pos, self.index_offset + self.n_normal + self.pos)),
            Phase::Done => None,
        }
    }

    /// Records what happened to the current command and moves on: a success
    /// or failure is counted; a failure (or a failure to start) of a normal
    /// command in stop-on-error mode, or an abort, ends the normal phase;
    /// the deferred phase always runs to its end.
    pub fn record(&mut self, o: Outcome)
        requires
            old(self).wf(),
        ensures
            *final(self) == old(self).after(o),
            final(self).wf(),
            old(self).phase != Phase::Done ==> remaining(*final(self)) < remaining(*old(self)),
    {
        if let Phase::Done = self.phase {
            return;
        }
        match o {
            Outcome::Exited { success: true } => {
                self.succeeded = self.succeeded + 1;
                self.advance();
            },
            Outcome::Exited { success: false } | Outcome::SpawnFailed => {
                self.failed = self.failed + 1;
                if self.phase == Phase::Normal && self.stop_on_error {
                    self.start_deferred();
                } else {
                    self.advance();
                }
            },
            Outcome::Skipped => self.advance(),
            Outcome::Aborted => if self.phase == Phase::Normal {
                self.start_deferred();
            } else {
                self.advance();
            },
        }
    }

    fn start_deferred(&mut self)
        ensures
            *final(self) == defer_start(*old(self)),
    {
        if self.n_defer > 0 {
            self.phase = Phase::Deferred;
        } else {
            self.phase = Phase::Done;
        }
        self.pos = 0;
    }

    fn advance(&mut self)
        requires
            old(self).phase != Phase::Done,
            old(self).pos < usize::MAX,
        ensures
            *final(self) == advanced(*old(self)),
    {
        match self.phase {
            Phase::Normal => if self.pos + 1 < self.n_normal {
                self.pos = self.pos + 1;
            } else {
                self.start_deferred();
            },
            Phase::Deferred => if self.pos + 1 < self.n_defer {
                self.pos = self.pos + 1;
            } else {
                self.phase = Phase::Done;
                self.pos = 0;
            },
            Phase::Done => {},
        }
    }

    /// Whether the command whose turn it is opens the deferred phase: the
    /// abort and skip signals of the normal phase are then cleared, since
    /// the deferred commands always run.
    pub fn opens_deferred(&self) -> (res: bool)
        ensures
            res == (self.phase == Phase::Deferred && self.pos == 0),
    {
        self.phase == Phase::Deferred && self.pos == 0
    }

    /// Whether the command whose turn it is heeds the abort and skip
    /// signals: only the normal commands do.
    pub fn heeds_signals(&self) -> (res: bool)
        ensures
            res == (self.phase == Phase::Normal),
    {
        self.phase == Phase::Normal
    }

    /// Whether every command has had its turn.
    pub fn is_done(&self) -> (res: bool)
        ensures
            res == (self.phase == Phase::Done),
    {
        self.phase == Phase::Done
    }

    /// The event that closes the run: every command counted in the total.
    pub fn completed_event(&self, total_duration_ms: u128) -> (res: ExecutionEvent)
        requires
            self.wf(),
        ensures
            res == (ExecutionEvent::CompletedAll {
                total: (self.n_normal + self.n_defer) as usize,
                succeeded: self.succeeded,
                failed: self.failed,
                total_duration_ms,
            }),
    {
        ExecutionEvent::CompletedAll {
            total: self.n_normal + self.n_defer,
            succeeded: self.succeeded,
            failed: self.failed,
            total_duration_ms,
        }
    }
}

/// The command line run for `cmd`: its text with the variables' default
/// values substituted.
pub fn resolved_command(cmd: &Command, vars: &Vec<Variable>) -> (res: String)
    ensures
        res@ == substitute_spec(cmd.command@, vars_view(vars@)),
{
    substitute_variables_inner(cmd.command.as_str(), vars)
}

/// A run ends: from a well-formed state, each outcome brings it closer to
/// its end, so it is over after at most as many turns as it has commands.
pub proof fn lemma_run_ends(s: RunState, o: Outcome)
    requires
        s.wf(),
        s.phase != Phase::Done,
    ensures
        s.after(o).wf(),
        remaining(s.after(o)) < remaining(s),
        remaining(s) <= s.n_normal + s.n_defer,
{
}

/// The counts never exceed the commands that have had their turn, so a
/// finished run's successes and failures add up to at most its total.
pub proof fn lemma_counts_bounded(s: RunState)
    requires
        s.wf(),
        s.phase == Phase::Done,
    ensures
        s.succeeded + s.failed <= s.n_normal + s.n_defer,
{
}

/// Deferred commands always run, one after the other: whatever happens to
/// one of them, the next one has its turn, and the run ends after the last.
/// An abort of the normal commands goes on with the first deferred one.
pub proof fn lemma_deferred_always_run(s: RunState, o: Outcome)
    requires
        s.wf(),
    ensures
        s.phase == Phase::Deferred && s.pos + 1 < s.n_defer ==> s.after(o).phase == Phase::Deferred
            && s.after(o).pos == s.pos + 1,
        s.phase == Phase::Deferred && s.pos + 1 >= s.n_defer ==> s.after(o).phase == Phase::Done,
        s.phase == Phase::Normal && s.n_defer > 0 ==> s.after(Outcome::Aborted).phase == Phase::Deferred
            && s.after(Outcome::Aborted).pos == 0,
{
}

/// In stop-on-error mode the first failed normal command ends the normal
/// phase: the deferred commands come next, or the run is over.
pub proof fn lemma_stop_on_error(s: RunState)
    requires
        s.wf(),
        s.phase == Phase::Normal,
        s.stop_on_error,
    ensures
        s.after(Outcome::Exited { success: false }).phase == if s.n_defer > 0 { Phase::Deferred } else { Phase::Done },
        s.after(Outcome::Exited { success: false }).failed == s.failed + 1,
{
}

/// In the normal phase a success, a skip (whatever the mode), or a failure
/// in continue-on-error mode moves on to the next normal command, or after
/// the last one to the deferred commands; a skip counts neither a success
/// nor a failure.
pub proof fn lemma_normal_phase_moves_on(s: RunState, o: Outcome)
    requires
        s.wf(),
        s.phase == Phase::Normal,
        !(o is Aborted),
        s.stop_on_error ==> !(o is SpawnFailed) && o != (Outcome::Exited { success: false }),
    ensures
        s.pos + 1 < s.n_normal ==> s.after(o).phase == Phase::Normal && s.after(o).pos == s.pos + 1,
        s.pos + 1 >= s.n_normal ==> s.after(o).pos == 0 && s.after(o).phase == if s.n_defer > 0 {
            Phase::Deferred
        } else {
            Phase::Done
        },
        o is Skipped ==> s.after(o).succeeded == s.succeeded && s.after(o).failed == s.failed,
        s.after(o).stop_on_error == s.stop_on_error,
{
}

/// Only a failure in stop-on-error mode, or an abort, ends the normal
/// phase early: the deferred commands come next, or the run is over.
pub proof fn lemma_normal_phase_ends(s: RunState, o: Outcome)
    requires
        s.wf(),
        s.phase == Phase::Normal,
        o is Aborted || (s.stop_on_error && (o is SpawnFailed || o == (Outcome::Exited { success: false }))),
    ensures
        s.after(o).pos == 0,
        s.after(o).phase == if s.n_defer > 0 { Phase::Deferred } else { Phase::Done },
{
}

} // verus!
