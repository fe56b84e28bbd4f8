//! The sandbox session's run engines, as request/response state machines.
//!
//! Spawning processes, moving them into the limiter's control group, racing
//! them against their deadlines and reading the captured files is outside
//! work. The machines here hold the decision logic of one run: which step
//! comes next, how each observed outcome is folded into the run's state,
//! and how the final observations are classified. The host performs the
//! step the current phase asks for and feeds the observed event back
//! through [`RunMachine::step`] or [`InteractMachine::step`] until the
//! machine is done.
//!
//! The machines guarantee, by invariant, that every process the run spawned
//! has been kill-swept before a verdict is produced, and that a captured
//! stream is only ever read after its size was found within the output
//! limit.

use vstd::prelude::*;

use crate::program::ExeResources;
use crate::quantity::{clone_bytes, MemorySize, ProcessResource, ProcessResourceView, TimeSpan};
use crate::result::{RunToEndResult, RunToEndResultView, RunWithInteractorResult, RunWithInteractorResultView};

verus! {

/// The step a single run is at; each non-`Done` phase names the action the
/// host must perform next.
#[derive(Debug, Clone, Copy, PartialEq, Eq, Structural)]
pub enum RunPhase {
    /// Zero the limiter's peak counter and clear its OOM state.
    ResetLimiter,
    /// Materialize the input bytes to the session's stdin file.
    WriteStdin,
    /// Spawn the execute command under the session's unprivileged uid, with
    /// the standard streams redirected to the session's files.
    Spawn,
    /// Move the spawned process into the limiter's control group.
    Attach,
    /// Race process completion against the time limit.
    Race,
    /// Kill every process still in the limiter's group.
    Kill,
    /// Ask the limiter whether the kernel killed a task for exceeding the
    /// memory ceiling since the reset.
    CheckOom,
    /// Read the limiter's peak-memory counter.
    QueryPeak,
    /// Measure the stdout file's size, without reading it.
    SizeStdout,
    /// Measure the stderr file's size, without reading it.
    SizeStderr,
    /// Read the stdout file.
    ReadStdout,
    /// Read the stderr file.
    ReadStderr,
    /// The run is classified; the result is available.
    Done,
}

/// What the host observed performing the requested step.
#[derive(Debug)]
pub enum RunEvent {
    /// Outcome of a plain action: a reset, a file write, an attach.
    Acted(Result<(), String>),
    /// Outcome of a spawn.
    Spawned(Result<(), String>),
    /// Outcome of the race: whether the deadline won, whether the process
    /// exited cleanly (meaningless when the deadline won), and the measured
    /// wall runtime.
    Raced { timed_out: bool, exit_success: bool, runtime: TimeSpan },
    /// The kill sweep ran (failures are swallowed: the group is abandoned).
    Killed,
    /// Outcome of the OOM query.
    Flagged(Result<bool, String>),
    /// Outcome of the peak-memory query, in bytes.
    Measured(Result<usize, String>),
    /// Outcome of a file-size query, in bytes.
    SizeChecked(Result<u64, String>),
    /// Outcome of a file read.
    ReadBytes(Result<Vec<u8>, String>),
}

/// Mathematical image of a [`RunEvent`].
pub ghost enum RunEventView {
    Acted(Result<(), Seq<char>>),
    Spawned(Result<(), Seq<char>>),
    Raced { timed_out: bool, exit_success: bool, runtime: nat },
    Killed,
    Flagged(Result<bool, Seq<char>>),
    Measured(Result<nat, Seq<char>>),
    SizeChecked(Result<nat, Seq<char>>),
    ReadBytes(Result<Seq<u8>, Seq<char>>),
}

/// Mathematical image of a plain action's outcome.
pub open spec fn unit_outcome_view(r: Result<(), String>) -> Result<(), Seq<char>> {
    match r {
        Ok(()) => Ok(()),
        Err(e) => Err(e@),
    }
}

/// Mathematical image of a flag query's outcome.
pub open spec fn flag_outcome_view(r: Result<bool, String>) -> Result<bool, Seq<char>> {
    match r {
        Ok(b) => Ok(b),
        Err(e) => Err(e@),
    }
}

/// Mathematical image of a memory query's outcome.
pub open spec fn memory_outcome_view(r: Result<usize, String>) -> Result<nat, Seq<char>> {
    match r {
        Ok(m) => Ok(m as nat),
        Err(e) => Err(e@),
    }
}

/// Mathematical image of a size query's outcome.
pub open spec fn size_outcome_view(r: Result<u64, String>) -> Result<nat, Seq<char>> {
    match r {
        Ok(m) => Ok(m as nat),
        Err(e) => Err(e@),
    }
}

/// Mathematical image of a file read's outcome.
pub open spec fn bytes_outcome_view(r: Result<Vec<u8>, String>) -> Result<Seq<u8>, Seq<char>> {
    match r {
        Ok(b) => Ok(b@),
        Err(e) => Err(e@),
    }
}

impl View for RunEvent {
    type V = RunEventView;

    open spec fn view(&self) -> RunEventView {
        match self {
            RunEvent::Acted(res) => RunEventView::Acted(unit_outcome_view(*res)),
            RunEvent::Spawned(res) => RunEventView::Spawned(unit_outcome_view(*res)),
            RunEvent::Raced { timed_out, exit_success, runtime } => RunEventView::Raced {
                timed_out: *timed_out,
                exit_success: *exit_success,
                runtime: runtime@,
            },
            RunEvent::Killed => RunEventView::Killed,
            RunEvent::Flagged(res) => RunEventView::Flagged(flag_outcome_view(*res)),
            RunEvent::Measured(res) => RunEventView::Measured(memory_outcome_view(*res)),
            RunEvent::SizeChecked(res) => RunEventView::SizeChecked(size_outcome_view(*res)),
            RunEvent::ReadBytes(res) => RunEventView::ReadBytes(bytes_outcome_view(*res)),
        }
    }
}

/// One single run in progress.
#[derive(Debug)]
pub struct RunMachine {
    pub phase: RunPhase,
    pub time_limit: TimeSpan,
    pub output_limit: MemorySize,
    pub input: Vec<u8>,
    pub runtime: TimeSpan,
    pub memory: MemorySize,
    pub oom: bool,
    pub timed_out: bool,
    pub exit_success: bool,
    pub stdout_size: u64,
    pub stderr_size: u64,
    pub stdout: Vec<u8>,
    pub stderr: Vec<u8>,
    pub spawned: bool,
    pub killed: bool,
    pub pending: Option<String>,
    pub result: Option<RunToEndResult>,
}

/// Mathematical image of a [`RunMachine`].
pub ghost struct RunMachineView {
    pub phase: RunPhase,
    pub time_limit: nat,
    pub output_limit: nat,
    pub input: Seq<u8>,
    pub runtime: nat,
    pub memory: nat,
    pub oom: bool,
    pub timed_out: bool,
    pub exit_success: bool,
    pub stdout_size: nat,
    pub stderr_size: nat,
    pub stdout: Seq<u8>,
    pub stderr: Seq<u8>,
    pub spawned: bool,
    pub killed: bool,
    pub pending: Option<Seq<char>>,
    pub result: Option<RunToEndResultView>,
}

impl View for RunMachine {
    type V = RunMachineView;

    open spec fn view(&self) -> RunMachineView {
        RunMachineView {
            phase: self.phase,
            time_limit: self.time_limit@,
            output_limit: self.output_limit@,
            input: self.input@,
            runtime: self.runtime@,
            memory: self.memory@,
            oom: self.oom,
            timed_out: self.timed_out,
            exit_success: self.exit_success,
            stdout_size: self.stdout_size as nat,
            stderr_size: self.stderr_size as nat,
            stdout: self.stdout@,
            stderr: self.stderr@,
            spawned: self.spawned,
            killed: self.killed,
            pending: match self.pending {
                Some(ref e) => Some(e@),
                None => None,
            },
            result: match self.result {
                Some(ref r) => Some(r@),
                None => None,
            },
        }
    }
}

impl RunMachineView {
    /// The run's measurements as they stand, with the streams captured so
    /// far.
    pub open spec fn snapshot(self) -> ProcessResourceView {
        ProcessResourceView {
            runtime: self.runtime,
            memory: self.memory,
            stdout: self.stdout,
            stderr: self.stderr,
        }
    }

    /// The state with the run over and the verdict in place.
    pub open spec fn done(self, r: RunToEndResultView) -> RunMachineView {
        RunMachineView { phase: RunPhase::Done, result: Some(r), ..self }
    }
}

/// The final classification of a single run, in the fixed precedence
/// order: the OOM flag first, then the deadline (a lost race or a measured
/// runtime over the limit), then a failed exit, and a clean zero exit last.
pub open spec fn classify_run(
    oom: bool,
    timed_out: bool,
    exit_success: bool,
    runtime: nat,
    time_limit: nat,
    snapshot: ProcessResourceView,
) -> RunToEndResultView {
    if oom {
        RunToEndResultView::MemoryLimitExceeded(snapshot)
    } else if timed_out || runtime > time_limit {
        RunToEndResultView::TimeLimitExceeded(snapshot)
    } else if !exit_success {
        RunToEndResultView::RuntimeError(snapshot)
    } else {
        RunToEndResultView::Success(snapshot)
    }
}

/// Whether an event is of the kind the phase's action reports.
pub open spec fn run_event_fits(phase: RunPhase, ev: RunEventView) -> bool {
    match phase {
        RunPhase::ResetLimiter => ev is Acted,
        RunPhase::WriteStdin => ev is Acted,
        RunPhase::Spawn => ev is Spawned,
        RunPhase::Attach => ev is Acted,
        RunPhase::Race => ev is Raced,
        RunPhase::Kill => ev is Killed,
        RunPhase::CheckOom => ev is Flagged,
        RunPhase::QueryPeak => ev is Measured,
        RunPhase::SizeStdout => ev is SizeChecked,
        RunPhase::SizeStderr => ev is SizeChecked,
        RunPhase::ReadStdout => ev is ReadBytes,
        RunPhase::ReadStderr => ev is ReadBytes,
        RunPhase::Done => false,
    }
}

/// How one observed event advances a single run.
pub open spec fn run_step(s: RunMachineView, ev: RunEventView) -> RunMachineView {
    match (s.phase, ev) {
        (RunPhase::ResetLimiter, RunEventView::Acted(res)) => match res {
            Ok(()) => RunMachineView { phase: RunPhase::WriteStdin, ..s },
            Err(e) => s.done(RunToEndResultView::InternalError(e)),
        },
        (RunPhase::WriteStdin, RunEventView::Acted(res)) => match res {
            Ok(()) => RunMachineView { phase: RunPhase::Spawn, ..s },
            Err(e) => s.done(RunToEndResultView::InternalError(e)),
        },
        (RunPhase::Spawn, RunEventView::Spawned(res)) => match res {
            Ok(()) => RunMachineView { phase: RunPhase::Attach, spawned: true, ..s },
            // A spawn failure is the submission's own: its command would
            // not start, so the run is a runtime error with the
            // never-ran placeholder snapshot.
            Err(_) => s.done(RunToEndResultView::RuntimeError(ProcessResourceView::zero())),
        },
        (RunPhase::Attach, RunEventView::Acted(res)) => match res {
            Ok(()) => RunMachineView { phase: RunPhase::Race, ..s },
            // The process is running unbounded: sweep it away before
            // reporting the infrastructure failure.
            Err(e) => RunMachineView { phase: RunPhase::Kill, pending: Some(e), ..s },
        },
        (RunPhase::Race, RunEventView::Raced { timed_out, exit_success, runtime }) => RunMachineView {
            phase: RunPhase::Kill,
            timed_out,
            exit_success,
            runtime,
            ..s
        },
        (RunPhase::Kill, RunEventView::Killed) => {
            let swept = RunMachineView { killed: true, pending: None, ..s };
            match s.pending {
                Some(e) => swept.done(RunToEndResultView::InternalError(e)),
                None => RunMachineView { phase: RunPhase::CheckOom, ..swept },
            }
        },
        (RunPhase::CheckOom, RunEventView::Flagged(res)) => match res {
            Ok(b) => RunMachineView { phase: RunPhase::QueryPeak, oom: b, ..s },
            Err(e) => s.done(RunToEndResultView::InternalError(e)),
        },
        (RunPhase::QueryPeak, RunEventView::Measured(res)) => match res {
            Ok(m) => RunMachineView { phase: RunPhase::SizeStdout, memory: m, ..s },
            Err(e) => s.done(RunToEndResultView::InternalError(e)),
        },
        (RunPhase::SizeStdout, RunEventView::SizeChecked(res)) => match res {
            Ok(size) => {
                if size > s.output_limit {
                    s.done(
                        RunToEndResultView::OutputLimitExceeded(
                            s.snapshot().withholding_streams(),
                        ),
                    )
                } else {
                    RunMachineView { phase: RunPhase::SizeStderr, stdout_size: size, ..s }
                }
            },
            Err(e) => s.done(RunToEndResultView::InternalError(e)),
        },
        (RunPhase::SizeStderr, RunEventView::SizeChecked(res)) => match res {
            Ok(size) => {
                if size > s.output_limit {
                    s.done(
                        RunToEndResultView::OutputLimitExceeded(
                            s.snapshot().withholding_streams(),
                        ),
                    )
                } else {
                    RunMachineView { phase: RunPhase::ReadStdout, stderr_size: size, ..s }
                }
            },
            Err(e) => s.done(RunToEndResultView::InternalError(e)),
        },
        (RunPhase::ReadStdout, RunEventView::ReadBytes(res)) => match res {
            Ok(bytes) => RunMachineView { phase: RunPhase::ReadStderr, stdout: bytes, ..s },
            Err(e) => s.done(RunToEndResultView::InternalError(e)),
        },
        (RunPhase::ReadStderr, RunEventView::ReadBytes(res)) => match res {
            Ok(bytes) => {
                let filled = RunMachineView { stderr: bytes, ..s };
                filled.done(
                    classify_run(
                        filled.oom,
                        filled.timed_out,
                        filled.exit_success,
                        filled.runtime,
                        filled.time_limit,
                        filled.snapshot(),
                    ),
                )
            },
            Err(e) => s.done(RunToEndResultView::InternalError(e)),
        },
        _ => s,
    }
}

impl ExeResources {
    /// Begins one run of this session's artifact on the given input, under
    /// a wall-time limit and an output-size limit. The returned machine
    /// asks for one outside step at a time; drive it with
    /// [`RunMachine::step`] until it is done.
    pub fn run_to_end(&self, input: Vec<u8>, time_limit: TimeSpan, output_limit: MemorySize) -> (m:
        RunMachine)
        ensures
            m@ == RunMachine::initial(input@, time_limit@, output_limit@),
    {
        RunMachine {
            phase: RunPhase::ResetLimiter,
            time_limit,
            output_limit,
            input,
            runtime: TimeSpan::from_milliseconds(0),
            memory: MemorySize::new(0),
            oom: false,
            timed_out: false,
            exit_success: false,
            stdout_size: 0,
            stderr_size: 0,
            stdout: Vec::new(),
            stderr: Vec::new(),
            spawned: false,
            killed: false,
            pending: None,
            result: None,
        }
    }
}

impl RunMachine {
    /// The state every run starts in.
    pub open spec fn initial(input: Seq<u8>, time_limit: nat, output_limit: nat) -> RunMachineView {
        RunMachineView {
            phase: RunPhase::ResetLimiter,
            time_limit,
            output_limit,
            input,
            runtime: 0,
            memory: 0,
            oom: false,
            timed_out: false,
            exit_success: false,
            stdout_size: 0,
            stderr_size: 0,
            stdout: seq![],
            stderr: seq![],
            spawned: false,
            killed: false,
            pending: None,
            result: None,
        }
    }

    pub fn is_done(&self) -> (r: bool)
        ensures
            r == (self@.phase is Done),
    {
        match self.phase {
            RunPhase::Done => true,
            _ => false,
        }
    }

    /// The verdict of a finished run.
    pub fn into_result(self) -> (r: RunToEndResult)
        requires
            self@.phase is Done,
            self@.result is Some,
        ensures
            self@.result == Some(r@),
    {
        match self.result {
            Some(r) => r,
            None => vstd::pervasive::unreached(),
        }
    }

    /// Folds one observed event into the run.
    pub fn step(&mut self, ev: RunEvent)
        requires
            run_event_fits(old(self)@.phase, ev@),
        ensures
            final(self)@ == run_step(old(self)@, ev@),
    {
        match ev {
            RunEvent::Acted(res) => match self.phase {
                RunPhase::ResetLimiter => match res {
                    Ok(()) => {
                        self.phase = RunPhase::WriteStdin;
                    },
                    Err(e) => {
                        self.finish(RunToEndResult::InternalError(e));
                    },
                },
                RunPhase::WriteStdin => match res {
                    Ok(()) => {
                        self.phase = RunPhase::Spawn;
                    },
                    Err(e) => {
                        self.finish(RunToEndResult::InternalError(e));
                    },
                },
                RunPhase::Attach => match res {
                    Ok(()) => {
                        self.phase = RunPhase::Race;
                    },
                    Err(e) => {
                        self.phase = RunPhase::Kill;
                        self.pending = Some(e);
                    },
                },
                _ => {
                    proof {
                        assert(false);
                    }
                },
            },
            RunEvent::Spawned(res) => match res {
                Ok(()) => {
                    self.phase = RunPhase::Attach;
                    self.spawned = true;
                },
                Err(_) => {
                    self.finish(RunToEndResult::RuntimeError(ProcessResource::default()));
                },
            },
            RunEvent::Raced { timed_out, exit_success, runtime } => {
                self.timed_out = timed_out;
                self.exit_success = exit_success;
                self.runtime = runtime;
                self.phase = RunPhase::Kill;
            },
            RunEvent::Killed => {
                self.killed = true;
                let pending = self.pending.take();
                match pending {
                    Some(e) => {
                        self.finish(RunToEndResult::InternalError(e));
                    },
                    None => {
                        self.phase = RunPhase::CheckOom;
                    },
                }
            },
            RunEvent::Flagged(res) => match res {
                Ok(b) => {
                    self.oom = b;
                    self.phase = RunPhase::QueryPeak;
                },
                Err(e) => {
                    self.finish(RunToEndResult::InternalError(e));
                },
            },
            RunEvent::Measured(res) => match res {
                Ok(m) => {
                    self.memory = MemorySize::new(m);
                    self.phase = RunPhase::SizeStdout;
                },
                Err(e) => {
                    self.finish(RunToEndResult::InternalError(e));
                },
            },
            RunEvent::SizeChecked(res) => match res {
                Ok(size) => {
                    if size > self.output_limit.as_bytes() as u64 {
                        let snapshot = ProcessResource {
                            runtime: self.runtime,
                            memory: self.memory,
                            stdout: Vec::new(),
                            stderr: Vec::new(),
                        };
                        self.finish(RunToEndResult::OutputLimitExceeded(snapshot));
                    } else {
                        match self.phase {
                            RunPhase::SizeStdout => {
                                self.stdout_size = size;
                                self.phase = RunPhase::SizeStderr;
                            },
                            RunPhase::SizeStderr => {
                                self.stderr_size = size;
                                self.phase = RunPhase::ReadStdout;
                            },
                            _ => {
                                proof {
                                    assert(false);
                                }
                            },
                        }
                    }
                },
                Err(e) => {
                    self.finish(RunToEndResult::InternalError(e));
                },
            },
            RunEvent::ReadBytes(res) => match res {
                Ok(bytes) => match self.phase {
                    RunPhase::ReadStdout => {
                        self.stdout = bytes;
                        self.phase = RunPhase::ReadStderr;
                    },
                    RunPhase::ReadStderr => {
                        self.stderr = bytes;
                        let verdict = self.classify();
                        self.finish(verdict);
                    },
                    _ => {
                        proof {
                            assert(false);
                        }
                    },
                },
                Err(e) => {
                    self.finish(RunToEndResult::InternalError(e));
                },
            },
        }
    }

    /// Classifies the finished observations, in the fixed precedence order.
    fn classify(&self) -> (r: RunToEndResult)
        ensures
            r@ == classify_run(
                self@.oom,
                self@.timed_out,
                self@.exit_success,
                self@.runtime,
                self@.time_limit,
                self@.snapshot(),
            ),
    {
        let snapshot = ProcessResource {
            runtime: self.runtime,
            memory: self.memory,
            stdout: clone_bytes(&self.stdout),
            stderr: clone_bytes(&self.stderr),
        };
        if self.oom {
            RunToEndResult::MemoryLimitExceeded(snapshot)
        } else if self.timed_out || self.runtime.as_milliseconds()
            > self.time_limit.as_milliseconds() {
            RunToEndResult::TimeLimitExceeded(snapshot)
        } else if !self.exit_success {
            RunToEndResult::RuntimeError(snapshot)
        } else {
            RunToEndResult::Success(snapshot)
        }
    }

    /// Ends the run with the given verdict.
    fn finish(&mut self, r: RunToEndResult)
        ensures
            final(self)@ == (RunMachineView {
                phase: RunPhase::Done,
                result: Some(r@),
                ..old(self)@
            }),
    {
        self.phase = RunPhase::Done;
        self.result = Some(r);
    }
}

// ---------------------------------------------------------------------------
// Guarantees of the single-run machine
// ---------------------------------------------------------------------------

/// The single-run machine's invariant, which every reachable state
/// satisfies:
/// - once the run is past its kill sweep (and in particular once a verdict
///   is in place), any process it spawned has been swept;
/// - a stream is only up for reading after its measured size was found
///   within the output limit;
/// - an output-limit verdict never carries captured stream bytes.
pub open spec fn run_inv(s: RunMachineView) -> bool {
    &&& match s.phase {
        RunPhase::ResetLimiter | RunPhase::WriteStdin | RunPhase::Spawn => !s.spawned
            && s.pending is None && s.result is None,
        RunPhase::Attach | RunPhase::Race => s.pending is None && s.result is None,
        RunPhase::Kill => s.result is None,
        RunPhase::CheckOom | RunPhase::QueryPeak | RunPhase::SizeStdout | RunPhase::SizeStderr
        | RunPhase::ReadStdout | RunPhase::ReadStderr => (s.spawned ==> s.killed)
            && s.pending is None && s.result is None,
        RunPhase::Done => (s.spawned ==> s.killed) && s.result is Some,
    }
    &&& ((s.phase is SizeStderr || s.phase is ReadStdout || s.phase is ReadStderr)
        ==> s.stdout_size <= s.output_limit)
    &&& ((s.phase is ReadStdout || s.phase is ReadStderr) ==> s.stderr_size <= s.output_limit)
    &&& (s.result matches Some(RunToEndResultView::OutputLimitExceeded(p)) ==> p.stdout.len() == 0
        && p.stderr.len() == 0)
}

/// Every run starts inside the invariant.
pub proof fn lemma_run_initial_inv(input: Seq<u8>, time_limit: nat, output_limit: nat)
    ensures
        run_inv(RunMachine::initial(input, time_limit, output_limit)),
{
}

/// Every step of a run stays inside the invariant.
pub proof fn lemma_run_step_inv(s: RunMachineView, ev: RunEventView)
    requires
        run_inv(s),
        run_event_fits(s.phase, ev),
    ensures
        run_inv(run_step(s, ev)),
{
    match ev {
        RunEventView::Acted(res) => {},
        RunEventView::Spawned(res) => {},
        RunEventView::Raced { .. } => {},
        RunEventView::Killed => {},
        RunEventView::Flagged(res) => {},
        RunEventView::Measured(res) => {},
        RunEventView::SizeChecked(res) => {},
        RunEventView::ReadBytes(res) => {},
    }
}

/// Teardown guarantee, kill side: by the time a run has its verdict, every
/// process it spawned has been kill-swept.
pub proof fn lemma_run_verdict_after_sweep(s: RunMachineView)
    requires
        run_inv(s),
        s.phase is Done,
        s.spawned,
    ensures
        s.killed,
{
}

/// Output guard precedes disclosure, guard side: the machine only asks the
/// host to read a captured stream whose measured size was within the output
/// limit.
pub proof fn lemma_read_only_within_limit(s: RunMachineView)
    requires
        run_inv(s),
    ensures
        s.phase is ReadStdout ==> s.stdout_size <= s.output_limit && s.stderr_size
            <= s.output_limit,
        s.phase is ReadStderr ==> s.stdout_size <= s.output_limit && s.stderr_size
            <= s.output_limit,
{
}

/// Output guard precedes disclosure, verdict side: an output-limit verdict
/// carries empty captured streams, never a partial capture.
pub proof fn lemma_output_limit_withholds_streams(s: RunMachineView)
    requires
        run_inv(s),
        s.result matches Some(RunToEndResultView::OutputLimitExceeded(_)),
    ensures
        s.result matches Some(RunToEndResultView::OutputLimitExceeded(p)) && p.stdout.len() == 0
            && p.stderr.len() == 0,
{
}

/// Limit monotonicity at the machine: when the last read completes a run
/// whose OOM flag is set, the verdict is a memory-limit one; when instead
/// its measured runtime exceeds the limit, the verdict is a time-limit one
/// and the reported runtime is at least the limit.
pub proof fn lemma_run_verdict_limits(s: RunMachineView, bytes: Seq<u8>)
    requires
        s.phase is ReadStderr,
    ensures
        s.oom ==> run_step(s, RunEventView::ReadBytes(Ok(bytes))).result matches Some(
            RunToEndResultView::MemoryLimitExceeded(_),
        ),
        !s.oom && s.runtime > s.time_limit ==> (run_step(
            s,
            RunEventView::ReadBytes(Ok(bytes)),
        ).result matches Some(RunToEndResultView::TimeLimitExceeded(p)) && p.runtime
            >= s.time_limit),
{
}

/// Limit monotonicity, classification side: an OOM-flagged run is always a
/// memory-limit verdict, and a run whose measured runtime exceeds the limit
/// (without an OOM kill) is always a time-limit verdict whose reported
/// runtime is at least the limit.
pub proof fn lemma_limit_monotonicity(
    oom: bool,
    timed_out: bool,
    exit_success: bool,
    runtime: nat,
    time_limit: nat,
    snapshot: ProcessResourceView,
)
    requires
        snapshot.runtime == runtime,
    ensures
        oom ==> classify_run(oom, timed_out, exit_success, runtime, time_limit, snapshot)
            is MemoryLimitExceeded,
        !oom && runtime > time_limit ==> (classify_run(
            oom,
            timed_out,
            exit_success,
            runtime,
            time_limit,
            snapshot,
        ) matches RunToEndResultView::TimeLimitExceeded(p) && p.runtime >= time_limit),
{
}

// ---------------------------------------------------------------------------
// The interactive run: tested program and interactor, cross-wired
// ---------------------------------------------------------------------------

/// The step an interactive run is at; each non-`Done` phase names the
/// action the host must perform next. The interactor is spawned first and
/// raced second: its deadline only starts counting once the tested
/// program's race has resolved, which gives it its extra allowance.
#[derive(Debug, Clone, Copy, PartialEq, Eq, Structural)]
pub enum InteractPhase {
    /// Zero the tested side's limiter.
    ResetTested,
    /// Zero the interactor side's limiter.
    ResetInteractor,
    /// Create the pipe carrying the tested program's stdout to the
    /// interactor's stdin.
    PipeToInteractor,
    /// Create the pipe carrying the interactor's stdout to the tested
    /// program's stdin.
    PipeFromInteractor,
    /// Materialize the interactor's designated input to its side-channel
    /// input file.
    WriteInteractorInput,
    /// Spawn the interactor, wired to the pipes, stdout also persisted to
    /// its side-channel output file.
    SpawnInteractor,
    /// Move the interactor into its limiter's control group.
    AttachInteractor,
    /// Spawn the tested program, wired to the pipes.
    SpawnTested,
    /// Move the tested program into its limiter's control group.
    AttachTested,
    /// Race the tested program against its time limit.
    RaceTested,
    /// Kill every process still in the tested side's group.
    KillTested,
    /// Ask the tested side's limiter for its OOM flag.
    CheckOomTested,
    /// Race the interactor against its extra time allowance.
    RaceInteractor,
    /// Kill every process still in the interactor side's group.
    KillInteractor,
    /// Ask the interactor side's limiter for its OOM flag.
    CheckOomInteractor,
    /// Read the tested side's peak-memory counter.
    PeakTested,
    /// Read the interactor side's peak-memory counter.
    PeakInteractor,
    /// Measure the tested program's stderr file, without reading it.
    SizeTestedStderr,
    /// Read the tested program's stderr file.
    ReadTestedStderr,
    /// Measure the interactor's persisted output file, without reading it.
    SizeInteractorOut,
    /// Read the interactor's persisted output file.
    ReadInteractorOut,
    /// Measure the interactor's stderr file, without reading it.
    SizeInteractorStderr,
    /// Read the interactor's stderr file.
    ReadInteractorStderr,
    /// The run is classified; the result is available.
    Done,
}

/// One interactive run in progress.
#[derive(Debug)]
pub struct InteractMachine {
    pub phase: InteractPhase,
    pub time_limit: TimeSpan,
    pub interactor_extra_time_limit: TimeSpan,
    pub output_limit: MemorySize,
    pub interactor_input: Vec<u8>,
    pub tested_runtime: TimeSpan,
    pub tested_memory: MemorySize,
    pub tested_oom: bool,
    pub tested_timed_out: bool,
    pub tested_exit_success: bool,
    pub tested_stderr_size: u64,
    pub tested_stderr: Vec<u8>,
    pub interactor_runtime: TimeSpan,
    pub interactor_memory: MemorySize,
    pub interactor_oom: bool,
    pub interactor_timed_out: bool,
    pub interactor_exit_success: bool,
    pub interactor_out_size: u64,
    pub interactor_out: Vec<u8>,
    pub interactor_stderr_size: u64,
    pub interactor_stderr: Vec<u8>,
    pub spawned_tested: bool,
    pub killed_tested: bool,
    pub spawned_interactor: bool,
    pub killed_interactor: bool,
    pub pending: Option<String>,
    pub result: Option<RunWithInteractorResult>,
}

/// Mathematical image of an [`InteractMachine`].
pub ghost struct InteractMachineView {
    pub phase: InteractPhase,
    pub time_limit: nat,
    pub interactor_extra_time_limit: nat,
    pub output_limit: nat,
    pub interactor_input: Seq<u8>,
    pub tested_runtime: nat,
    pub tested_memory: nat,
    pub tested_oom: bool,
    pub tested_timed_out: bool,
    pub tested_exit_success: bool,
    pub tested_stderr_size: nat,
    pub tested_stderr: Seq<u8>,
    pub interactor_runtime: nat,
    pub interactor_memory: nat,
    pub interactor_oom: bool,
    pub interactor_timed_out: bool,
    pub interactor_exit_success: bool,
    pub interactor_out_size: nat,
    pub interactor_out: Seq<u8>,
    pub interactor_stderr_size: nat,
    pub interactor_stderr: Seq<u8>,
    pub spawned_tested: bool,
    pub killed_tested: bool,
    pub spawned_interactor: bool,
    pub killed_interactor: bool,
    pub pending: Option<Seq<char>>,
    pub result: Option<RunWithInteractorResultView>,
}

impl View for InteractMachine {
    type V = InteractMachineView;

    open spec fn view(&self) -> InteractMachineView {
        InteractMachineView {
            phase: self.phase,
            time_limit: self.time_limit@,
            interactor_extra_time_limit: self.interactor_extra_time_limit@,
            output_limit: self.output_limit@,
            interactor_input: self.interactor_input@,
            tested_runtime: self.tested_runtime@,
            tested_memory: self.tested_memory@,
            tested_oom: self.tested_oom,
            tested_timed_out: self.tested_timed_out,
            tested_exit_success: self.tested_exit_success,
            tested_stderr_size: self.tested_stderr_size as nat,
            tested_stderr: self.tested_stderr@,
            interactor_runtime: self.interactor_runtime@,
            interactor_memory: self.interactor_memory@,
            interactor_oom: self.interactor_oom,
            interactor_timed_out: self.interactor_timed_out,
            interactor_exit_success: self.interactor_exit_success,
            interactor_out_size: self.interactor_out_size as nat,
            interactor_out: self.interactor_out@,
            interactor_stderr_size: self.interactor_stderr_size as nat,
            interactor_stderr: self.interactor_stderr@,
            spawned_tested: self.spawned_tested,
            killed_tested: self.killed_tested,
            spawned_interactor: self.spawned_interactor,
            killed_interactor: self.killed_interactor,
            pending: match self.pending {
                Some(ref e) => Some(e@),
                None => None,
            },
            result: match self.result {
                Some(ref r) => Some(r@),
                None => None,
            },
        }
    }
}

impl InteractMachineView {
    /// The tested program's measurements as they stand. Its stdout went
    /// down the pipe, so nothing is ever captured for it.
    pub open spec fn tested_snapshot(self) -> ProcessResourceView {
        ProcessResourceView {
            runtime: self.tested_runtime,
            memory: self.tested_memory,
            stdout: seq![],
            stderr: self.tested_stderr,
        }
    }

    /// The interactor's measurements as they stand; its persisted output
    /// channel stands as its stdout.
    pub open spec fn interactor_snapshot(self) -> ProcessResourceView {
        ProcessResourceView {
            runtime: self.interactor_runtime,
            memory: self.interactor_memory,
            stdout: self.interactor_out,
            stderr: self.interactor_stderr,
        }
    }

    /// The state with the run over and the verdict in place.
    pub open spec fn done(self, r: RunWithInteractorResultView) -> InteractMachineView {
        InteractMachineView { phase: InteractPhase::Done, result: Some(r), ..self }
    }

    /// The state ending in an internal error, with both measured snapshots
    /// withheld.
    pub open spec fn fail(self, e: Seq<char>) -> InteractMachineView {
        self.done(RunWithInteractorResultView::InternalError(e))
    }
}

/// The final classification of an interactive run, in the fixed precedence
/// order: the tested program's own failures first (OOM, then deadline, then
/// failed exit), the interactor's after them (OOM, then a lost race), and
/// only then a clean pair. An interactor that outlived its race but exited
/// abnormally is the last case checked.
pub open spec fn classify_interaction(s: InteractMachineView) -> RunWithInteractorResultView {
    let tested = s.tested_snapshot();
    let interactor = s.interactor_snapshot();
    if s.tested_oom {
        RunWithInteractorResultView::MemoryLimitExceeded(tested, interactor)
    } else if s.tested_timed_out || s.tested_runtime > s.time_limit {
        RunWithInteractorResultView::TimeLimitExceeded(tested, interactor)
    } else if !s.tested_exit_success {
        RunWithInteractorResultView::RuntimeError(tested, interactor)
    } else if s.interactor_oom {
        RunWithInteractorResultView::InteractorMemoryLimitExceeded(tested, interactor)
    } else if s.interactor_timed_out {
        RunWithInteractorResultView::InteractorTimeLimitExceeded(tested, interactor)
    } else if s.interactor_exit_success {
        RunWithInteractorResultView::Success(tested, interactor)
    } else {
        RunWithInteractorResultView::InteractorRuntimeError(tested, interactor)
    }
}

/// Whether an event is of the kind the phase's action reports.
pub open spec fn interact_event_fits(phase: InteractPhase, ev: RunEventView) -> bool {
    match phase {
        InteractPhase::ResetTested => ev is Acted,
        InteractPhase::ResetInteractor => ev is Acted,
        InteractPhase::PipeToInteractor => ev is Acted,
        InteractPhase::PipeFromInteractor => ev is Acted,
        InteractPhase::WriteInteractorInput => ev is Acted,
        InteractPhase::SpawnInteractor => ev is Spawned,
        InteractPhase::AttachInteractor => ev is Acted,
        InteractPhase::SpawnTested => ev is Spawned,
        InteractPhase::AttachTested => ev is Acted,
        InteractPhase::RaceTested => ev is Raced,
        InteractPhase::KillTested => ev is Killed,
        InteractPhase::CheckOomTested => ev is Flagged,
        InteractPhase::RaceInteractor => ev is Raced,
        InteractPhase::KillInteractor => ev is Killed,
        InteractPhase::CheckOomInteractor => ev is Flagged,
        InteractPhase::PeakTested => ev is Measured,
        InteractPhase::PeakInteractor => ev is Measured,
        InteractPhase::SizeTestedStderr => ev is SizeChecked,
        InteractPhase::ReadTestedStderr => ev is ReadBytes,
        InteractPhase::SizeInteractorOut => ev is SizeChecked,
        InteractPhase::ReadInteractorOut => ev is ReadBytes,
        InteractPhase::SizeInteractorStderr => ev is SizeChecked,
        InteractPhase::ReadInteractorStderr => ev is ReadBytes,
        InteractPhase::Done => false,
    }
}

/// How one observed event advances an interactive run.
pub open spec fn interact_step(s: InteractMachineView, ev: RunEventView) -> InteractMachineView {
    match (s.phase, ev) {
        (InteractPhase::ResetTested, RunEventView::Acted(res)) => match res {
            Ok(()) => InteractMachineView { phase: InteractPhase::ResetInteractor, ..s },
            Err(e) => s.fail(e),
        },
        (InteractPhase::ResetInteractor, RunEventView::Acted(res)) => match res {
            Ok(()) => InteractMachineView { phase: InteractPhase::PipeToInteractor, ..s },
            Err(e) => s.fail(e),
        },
        (InteractPhase::PipeToInteractor, RunEventView::Acted(res)) => match res {
            Ok(()) => InteractMachineView { phase: InteractPhase::PipeFromInteractor, ..s },
            Err(e) => s.fail(e),
        },
        (InteractPhase::PipeFromInteractor, RunEventView::Acted(res)) => match res {
            Ok(()) => InteractMachineView { phase: InteractPhase::WriteInteractorInput, ..s },
            Err(e) => s.fail(e),
        },
        (InteractPhase::WriteInteractorInput, RunEventView::Acted(res)) => match res {
            Ok(()) => InteractMachineView { phase: InteractPhase::SpawnInteractor, ..s },
            Err(e) => s.fail(e),
        },
        (InteractPhase::SpawnInteractor, RunEventView::Spawned(res)) => match res {
            Ok(()) => InteractMachineView {
                phase: InteractPhase::AttachInteractor,
                spawned_interactor: true,
                ..s
            },
            Err(e) => s.fail(e),
        },
        (InteractPhase::AttachInteractor, RunEventView::Acted(res)) => match res {
            Ok(()) => InteractMachineView { phase: InteractPhase::SpawnTested, ..s },
            // The interactor is running unbounded: sweep it before
            // reporting the infrastructure failure.
            Err(e) => InteractMachineView {
                phase: InteractPhase::KillInteractor,
                pending: Some(e),
                ..s
            },
        },
        (InteractPhase::SpawnTested, RunEventView::Spawned(res)) => match res {
            Ok(()) => InteractMachineView {
                phase: InteractPhase::AttachTested,
                spawned_tested: true,
                ..s
            },
            // The interactor is already live; sweep it before failing.
            Err(e) => InteractMachineView {
                phase: InteractPhase::KillInteractor,
                pending: Some(e),
                ..s
            },
        },
        (InteractPhase::AttachTested, RunEventView::Acted(res)) => match res {
            Ok(()) => InteractMachineView { phase: InteractPhase::RaceTested, ..s },
            // Both processes are live; sweep both, tested side first.
            Err(e) => InteractMachineView { phase: InteractPhase::KillTested, pending: Some(e), ..s },
        },
        (InteractPhase::RaceTested, RunEventView::Raced { timed_out, exit_success, runtime }) => InteractMachineView {
            phase: InteractPhase::KillTested,
            tested_timed_out: timed_out,
            tested_exit_success: exit_success,
            tested_runtime: runtime,
            ..s
        },
        (InteractPhase::KillTested, RunEventView::Killed) => {
            let swept = InteractMachineView { killed_tested: true, ..s };
            match s.pending {
                Some(_) => InteractMachineView { phase: InteractPhase::KillInteractor, ..swept },
                None => InteractMachineView { phase: InteractPhase::CheckOomTested, ..swept },
            }
        },
        (InteractPhase::CheckOomTested, RunEventView::Flagged(res)) => match res {
            Ok(b) => InteractMachineView {
                phase: InteractPhase::RaceInteractor,
                tested_oom: b,
                ..s
            },
            // The interactor may still be live; sweep it before failing.
            Err(e) => InteractMachineView {
                phase: InteractPhase::KillInteractor,
                pending: Some(e),
                ..s
            },
        },
        (InteractPhase::RaceInteractor, RunEventView::Raced { timed_out, exit_success, runtime }) => InteractMachineView {
            phase: InteractPhase::KillInteractor,
            interactor_timed_out: timed_out,
            interactor_exit_success: exit_success,
            interactor_runtime: runtime,
            ..s
        },
        (InteractPhase::KillInteractor, RunEventView::Killed) => {
            let swept = InteractMachineView { killed_interactor: true, pending: None, ..s };
            match s.pending {
                Some(e) => swept.fail(e),
                None => InteractMachineView { phase: InteractPhase::CheckOomInteractor, ..swept },
            }
        },
        (InteractPhase::CheckOomInteractor, RunEventView::Flagged(res)) => match res {
            Ok(b) => InteractMachineView {
                phase: InteractPhase::PeakTested,
                interactor_oom: b,
                ..s
            },
            Err(e) => s.fail(e),
        },
        (InteractPhase::PeakTested, RunEventView::Measured(res)) => match res {
            Ok(m) => InteractMachineView { phase: InteractPhase::PeakInteractor, tested_memory: m, ..s },
            Err(e) => s.fail(e),
        },
        (InteractPhase::PeakInteractor, RunEventView::Measured(res)) => match res {
            Ok(m) => InteractMachineView {
                phase: InteractPhase::SizeTestedStderr,
                interactor_memory: m,
                ..s
            },
            Err(e) => s.fail(e),
        },
        (InteractPhase::SizeTestedStderr, RunEventView::SizeChecked(res)) => match res {
            Ok(size) => {
                if size > s.output_limit {
                    s.done(
                        RunWithInteractorResultView::OutputLimitExceeded(
                            s.tested_snapshot().withholding_streams(),
                            s.interactor_snapshot().withholding_streams(),
                        ),
                    )
                } else {
                    InteractMachineView {
                        phase: InteractPhase::ReadTestedStderr,
                        tested_stderr_size: size,
                        ..s
                    }
                }
            },
            Err(e) => s.fail(e),
        },
        (InteractPhase::ReadTestedStderr, RunEventView::ReadBytes(res)) => match res {
            Ok(bytes) => InteractMachineView {
                phase: InteractPhase::SizeInteractorOut,
                tested_stderr: bytes,
                ..s
            },
            Err(e) => s.fail(e),
        },
        (InteractPhase::SizeInteractorOut, RunEventView::SizeChecked(res)) => match res {
            Ok(size) => {
                if size > s.output_limit {
                    s.done(
                        RunWithInteractorResultView::InteractorOutputLimitExceeded(
                            s.tested_snapshot().withholding_streams(),
                            s.interactor_snapshot().withholding_streams(),
                        ),
                    )
                } else {
                    InteractMachineView {
                        phase: InteractPhase::ReadInteractorOut,
                        interactor_out_size: size,
                        ..s
                    }
                }
            },
            Err(e) => s.fail(e),
        },
        (InteractPhase::ReadInteractorOut, RunEventView::ReadBytes(res)) => match res {
            Ok(bytes) => InteractMachineView {
                phase: InteractPhase::SizeInteractorStderr,
                interactor_out: bytes,
                ..s
            },
            Err(e) => s.fail(e),
        },
        (InteractPhase::SizeInteractorStderr, RunEventView::SizeChecked(res)) => match res {
            Ok(size) => {
                if size > s.output_limit {
                    s.done(
                        RunWithInteractorResultView::InteractorOutputLimitExceeded(
                            s.tested_snapshot().withholding_streams(),
                            s.interactor_snapshot().withholding_streams(),
                        ),
                    )
                } else {
                    InteractMachineView {
                        phase: InteractPhase::ReadInteractorStderr,
                        interactor_stderr_size: size,
                        ..s
                    }
                }
            },
            Err(e) => s.fail(e),
        },
        (InteractPhase::ReadInteractorStderr, RunEventView::ReadBytes(res)) => match res {
            Ok(bytes) => {
                let filled = InteractMachineView { interactor_stderr: bytes, ..s };
                filled.done(classify_interaction(filled))
            },
            Err(e) => s.fail(e),
        },
        _ => s,
    }
}

impl ExeResources {
    /// Begins one interactive run: this session's artifact as the tested
    /// program, the other session's as the interactor, cross-wired over two
    /// pipes. The interactor's designated input goes to its side-channel
    /// input file; its live output is also persisted to its side-channel
    /// output file for post-mortem reading. Drive the returned machine with
    /// [`InteractMachine::step`] until it is done.
    pub fn run_with_interactor(
        &self,
        time_limit: TimeSpan,
        interactor: &ExeResources,
        interactor_extra_time_limit: TimeSpan,
        interactor_input: Vec<u8>,
        output_limit: MemorySize,
    ) -> (m: InteractMachine)
        ensures
            m@ == InteractMachine::initial(
                interactor_input@,
                time_limit@,
                interactor_extra_time_limit@,
                output_limit@,
            ),
    {
        InteractMachine {
            phase: InteractPhase::ResetTested,
            time_limit,
            interactor_extra_time_limit,
            output_limit,
            interactor_input,
            tested_runtime: TimeSpan::from_milliseconds(0),
            tested_memory: MemorySize::new(0),
            tested_oom: false,
            tested_timed_out: false,
            tested_exit_success: false,
            tested_stderr_size: 0,
            tested_stderr: Vec::new(),
            interactor_runtime: TimeSpan::from_milliseconds(0),
            interactor_memory: MemorySize::new(0),
            interactor_oom: false,
            interactor_timed_out: false,
            interactor_exit_success: false,
            interactor_out_size: 0,
            interactor_out: Vec::new(),
            interactor_stderr_size: 0,
            interactor_stderr: Vec::new(),
            spawned_tested: false,
            killed_tested: false,
            spawned_interactor: false,
            killed_interactor: false,
            pending: None,
            result: None,
        }
    }
}

impl InteractMachine {
    /// The state every interactive run starts in.
    pub open spec fn initial(
        interactor_input: Seq<u8>,
        time_limit: nat,
        interactor_extra_time_limit: nat,
        output_limit: nat,
    ) -> InteractMachineView {
        InteractMachineView {
            phase: InteractPhase::ResetTested,
            time_limit,
            interactor_extra_time_limit,
            output_limit,
            interactor_input,
            tested_runtime: 0,
            tested_memory: 0,
            tested_oom: false,
            tested_timed_out: false,
            tested_exit_success: false,
            tested_stderr_size: 0,
            tested_stderr: seq![],
            interactor_runtime: 0,
            interactor_memory: 0,
            interactor_oom: false,
            interactor_timed_out: false,
            interactor_exit_success: false,
            interactor_out_size: 0,
            interactor_out: seq![],
            interactor_stderr_size: 0,
            interactor_stderr: seq![],
            spawned_tested: false,
            killed_tested: false,
            spawned_interactor: false,
            killed_interactor: false,
            pending: None,
            result: None,
        }
    }

    pub fn is_done(&self) -> (r: bool)
        ensures
            r == (self@.phase is Done),
    {
        match self.phase {
            InteractPhase::Done => true,
            _ => false,
        }
    }

    /// The verdict of a finished interactive run.
    pub fn into_result(self) -> (r: RunWithInteractorResult)
        requires
            self@.phase is Done,
            self@.result is Some,
        ensures
            self@.result == Some(r@),
    {
        match self.result {
            Some(r) => r,
            None => vstd::pervasive::unreached(),
        }
    }

    /// The tested program's measurements as they stand.
    fn tested_snapshot(&self) -> (r: ProcessResource)
        ensures
            r@ == self@.tested_snapshot(),
    {
        ProcessResource {
            runtime: self.tested_runtime,
            memory: self.tested_memory,
            stdout: Vec::new(),
            stderr: clone_bytes(&self.tested_stderr),
        }
    }

    /// The interactor's measurements as they stand.
    fn interactor_snapshot(&self) -> (r: ProcessResource)
        ensures
            r@ == self@.interactor_snapshot(),
    {
        ProcessResource {
            runtime: self.interactor_runtime,
            memory: self.interactor_memory,
            stdout: clone_bytes(&self.interactor_out),
            stderr: clone_bytes(&self.interactor_stderr),
        }
    }

    /// Both snapshots with their streams withheld.
    fn withheld_snapshots(&self) -> (r: (ProcessResource, ProcessResource))
        ensures
            r.0@ == self@.tested_snapshot().withholding_streams(),
            r.1@ == self@.interactor_snapshot().withholding_streams(),
    {
        (
            ProcessResource {
                runtime: self.tested_runtime,
                memory: self.tested_memory,
                stdout: Vec::new(),
                stderr: Vec::new(),
            },
            ProcessResource {
                runtime: self.interactor_runtime,
                memory: self.interactor_memory,
                stdout: Vec::new(),
                stderr: Vec::new(),
            },
        )
    }

    /// Ends the run with the given verdict.
    fn finish(&mut self, r: RunWithInteractorResult)
        ensures
            final(self)@ == (InteractMachineView {
                phase: InteractPhase::Done,
                result: Some(r@),
                ..old(self)@
            }),
    {
        self.phase = InteractPhase::Done;
        self.result = Some(r);
    }

    /// Ends the run with an internal error.
    fn fail(&mut self, e: String)
        ensures
            final(self)@ == old(self)@.fail(e@),
    {
        self.finish(RunWithInteractorResult::InternalError(e));
    }

    /// Classifies the finished observations, in the fixed precedence order.
    fn classify(&self) -> (r: RunWithInteractorResult)
        ensures
            r@ == classify_interaction(self@),
    {
        let tested = self.tested_snapshot();
        let interactor = self.interactor_snapshot();
        if self.tested_oom {
            RunWithInteractorResult::MemoryLimitExceeded(tested, interactor)
        } else if self.tested_timed_out || self.tested_runtime.as_milliseconds()
            > self.time_limit.as_milliseconds() {
            RunWithInteractorResult::TimeLimitExceeded(tested, interactor)
        } else if !self.tested_exit_success {
            RunWithInteractorResult::RuntimeError(tested, interactor)
        } else if self.interactor_oom {
            RunWithInteractorResult::InteractorMemoryLimitExceeded(tested, interactor)
        } else if self.interactor_timed_out {
            RunWithInteractorResult::InteractorTimeLimitExceeded(tested, interactor)
        } else if self.interactor_exit_success {
            RunWithInteractorResult::Success(tested, interactor)
        } else {
            RunWithInteractorResult::InteractorRuntimeError(tested, interactor)
        }
    }

    /// Folds one observed event into the run.
    pub fn step(&mut self, ev: RunEvent)
        requires
            interact_event_fits(old(self)@.phase, ev@),
        ensures
            final(self)@ == interact_step(old(self)@, ev@),
    {
        match ev {
            RunEvent::Acted(res) => self.step_acted(res),
            RunEvent::Spawned(res) => self.step_spawned(res),
            RunEvent::Raced { timed_out, exit_success, runtime } => self.step_raced(
                timed_out,
                exit_success,
                runtime,
            ),
            RunEvent::Killed => self.step_killed(),
            RunEvent::Flagged(res) => self.step_flagged(res),
            RunEvent::Measured(res) => self.step_measured(res),
            RunEvent::SizeChecked(res) => self.step_size_checked(res),
            RunEvent::ReadBytes(res) => self.step_read_bytes(res),
        }
    }

    fn step_acted(&mut self, res: Result<(), String>)
        requires
            interact_event_fits(old(self)@.phase, RunEventView::Acted(unit_outcome_view(res))),
        ensures
            final(self)@ == interact_step(
                old(self)@,
                RunEventView::Acted(unit_outcome_view(res)),
            ),
    {
        match res {
            Ok(()) => match self.phase {
                InteractPhase::ResetTested => {
                    self.phase = InteractPhase::ResetInteractor;
                },
                InteractPhase::ResetInteractor => {
                    self.phase = InteractPhase::PipeToInteractor;
                },
                InteractPhase::PipeToInteractor => {
                    self.phase = InteractPhase::PipeFromInteractor;
                },
                InteractPhase::PipeFromInteractor => {
                    self.phase = InteractPhase::WriteInteractorInput;
                },
                InteractPhase::WriteInteractorInput => {
                    self.phase = InteractPhase::SpawnInteractor;
                },
                InteractPhase::AttachInteractor => {
                    self.phase = InteractPhase::SpawnTested;
                },
                InteractPhase::AttachTested => {
                    self.phase = InteractPhase::RaceTested;
                },
                _ => {
                    proof {
                        assert(false);
                    }
                },
            },
            Err(e) => match self.phase {
                InteractPhase::ResetTested
                | InteractPhase::ResetInteractor
                | InteractPhase::PipeToInteractor
                | InteractPhase::PipeFromInteractor
                | InteractPhase::WriteInteractorInput => {
                    self.fail(e);
                },
                InteractPhase::AttachInteractor => {
                    self.phase = InteractPhase::KillInteractor;
                    self.pending = Some(e);
                },
                InteractPhase::AttachTested => {
                    self.phase = InteractPhase::KillTested;
                    self.pending = Some(e);
                },
                _ => {
                    proof {
                        assert(false);
                    }
                },
            },
        }
    }

    fn step_spawned(&mut self, res: Result<(), String>)
        requires
            interact_event_fits(old(self)@.phase, RunEventView::Spawned(unit_outcome_view(res))),
        ensures
            final(self)@ == interact_step(
                old(self)@,
                RunEventView::Spawned(unit_outcome_view(res)),
            ),
    {
        match res {
            Ok(()) => match self.phase {
                InteractPhase::SpawnInteractor => {
                    self.phase = InteractPhase::AttachInteractor;
                    self.spawned_interactor = true;
                },
                InteractPhase::SpawnTested => {
                    self.phase = InteractPhase::AttachTested;
                    self.spawned_tested = true;
                },
                _ => {
                    proof {
                        assert(false);
                    }
                },
            },
            Err(e) => match self.phase {
                InteractPhase::SpawnInteractor => {
                    self.fail(e);
                },
                InteractPhase::SpawnTested => {
                    self.phase = InteractPhase::KillInteractor;
                    self.pending = Some(e);
                },
                _ => {
                    proof {
                        assert(false);
                    }
                },
            },
        }
    }

    fn step_raced(&mut self, timed_out: bool, exit_success: bool, runtime: TimeSpan)
        requires
            interact_event_fits(
                old(self)@.phase,
                RunEventView::Raced { timed_out, exit_success, runtime: runtime@ },
            ),
        ensures
            final(self)@ == interact_step(
                old(self)@,
                RunEventView::Raced { timed_out, exit_success, runtime: runtime@ },
            ),
    {
        match self.phase {
            InteractPhase::RaceTested => {
                self.tested_timed_out = timed_out;
                self.tested_exit_success = exit_success;
                self.tested_runtime = runtime;
                self.phase = InteractPhase::KillTested;
            },
            InteractPhase::RaceInteractor => {
                self.interactor_timed_out = timed_out;
                self.interactor_exit_success = exit_success;
                self.interactor_runtime = runtime;
                self.phase = InteractPhase::KillInteractor;
            },
            _ => {
                proof {
                    assert(false);
                }
            },
        }
    }

    fn step_killed(&mut self)
        requires
            interact_event_fits(old(self)@.phase, RunEventView::Killed),
        ensures
            final(self)@ == interact_step(old(self)@, RunEventView::Killed),
    {
        match self.phase {
            InteractPhase::KillTested => {
                self.killed_tested = true;
                if self.pending.is_some() {
                    self.phase = InteractPhase::KillInteractor;
                } else {
                    self.phase = InteractPhase::CheckOomTested;
                }
            },
            InteractPhase::KillInteractor => {
                self.killed_interactor = true;
                let pending = self.pending.take();
                match pending {
                    Some(e) => {
                        self.fail(e);
                    },
                    None => {
                        self.phase = InteractPhase::CheckOomInteractor;
                    },
                }
            },
            _ => {
                proof {
                    assert(false);
                }
            },
        }
    }

    fn step_flagged(&mut self, res: Result<bool, String>)
        requires
            interact_event_fits(old(self)@.phase, RunEventView::Flagged(flag_outcome_view(res))),
        ensures
            final(self)@ == interact_step(
                old(self)@,
                RunEventView::Flagged(flag_outcome_view(res)),
            ),
    {
        match res {
            Ok(b) => match self.phase {
                InteractPhase::CheckOomTested => {
                    self.tested_oom = b;
                    self.phase = InteractPhase::RaceInteractor;
                },
                InteractPhase::CheckOomInteractor => {
                    self.interactor_oom = b;
                    self.phase = InteractPhase::PeakTested;
                },
                _ => {
                    proof {
                        assert(false);
                    }
                },
            },
            Err(e) => match self.phase {
                InteractPhase::CheckOomTested => {
                    self.phase = InteractPhase::KillInteractor;
                    self.pending = Some(e);
                },
                InteractPhase::CheckOomInteractor => {
                    self.fail(e);
                },
                _ => {
                    proof {
                        assert(false);
                    }
                },
            },
        }
    }

    fn step_measured(&mut self, res: Result<usize, String>)
        requires
            interact_event_fits(
                old(self)@.phase,
                RunEventView::Measured(memory_outcome_view(res)),
            ),
        ensures
            final(self)@ == interact_step(
                old(self)@,
                RunEventView::Measured(memory_outcome_view(res)),
            ),
    {
        match res {
            Ok(m) => match self.phase {
                InteractPhase::PeakTested => {
                    self.tested_memory = MemorySize::new(m);
                    self.phase = InteractPhase::PeakInteractor;
                },
                InteractPhase::PeakInteractor => {
                    self.interactor_memory = MemorySize::new(m);
                    self.phase = InteractPhase::SizeTestedStderr;
                },
                _ => {
                    proof {
                        assert(false);
                    }
                },
            },
            Err(e) => {
                self.fail(e);
            },
        }
    }

    fn step_size_checked(&mut self, res: Result<u64, String>)
        requires
            interact_event_fits(
                old(self)@.phase,
                RunEventView::SizeChecked(size_outcome_view(res)),
            ),
        ensures
            final(self)@ == interact_step(
                old(self)@,
                RunEventView::SizeChecked(size_outcome_view(res)),
            ),
    {
        match res {
            Ok(size) => {
                if size > self.output_limit.as_bytes() as u64 {
                    let (tested, interactor) = self.withheld_snapshots();
                    match self.phase {
                        InteractPhase::SizeTestedStderr => {
                            self.finish(
                                RunWithInteractorResult::OutputLimitExceeded(tested, interactor),
                            );
                        },
                        InteractPhase::SizeInteractorOut | InteractPhase::SizeInteractorStderr => {
                            self.finish(
                                RunWithInteractorResult::InteractorOutputLimitExceeded(
                                    tested,
                                    interactor,
                                ),
                            );
                        },
                        _ => {
                            proof {
                                assert(false);
                            }
                        },
                    }
                } else {
                    match self.phase {
                        InteractPhase::SizeTestedStderr => {
                            self.tested_stderr_size = size;
                            self.phase = InteractPhase::ReadTestedStderr;
                        },
                        InteractPhase::SizeInteractorOut => {
                            self.interactor_out_size = size;
                            self.phase = InteractPhase::ReadInteractorOut;
                        },
                        InteractPhase::SizeInteractorStderr => {
                            self.interactor_stderr_size = size;
                            self.phase = InteractPhase::ReadInteractorStderr;
                        },
                        _ => {
                            proof {
                                assert(false);
                            }
                        },
                    }
                }
            },
            Err(e) => {
                self.fail(e);
            },
        }
    }

    fn step_read_bytes(&mut self, res: Result<Vec<u8>, String>)
        requires
            interact_event_fits(old(self)@.phase, RunEventView::ReadBytes(bytes_outcome_view(res))),
        ensures
            final(self)@ == interact_step(
                old(self)@,
                RunEventView::ReadBytes(bytes_outcome_view(res)),
            ),
    {
        match res {
            Ok(bytes) => match self.phase {
                InteractPhase::ReadTestedStderr => {
                    self.tested_stderr = bytes;
                    self.phase = InteractPhase::SizeInteractorOut;
                },
                InteractPhase::ReadInteractorOut => {
                    self.interactor_out = bytes;
                    self.phase = InteractPhase::SizeInteractorStderr;
                },
                InteractPhase::ReadInteractorStderr => {
                    self.interactor_stderr = bytes;
                    let verdict = self.classify();
                    self.finish(verdict);
                },
                _ => {
                    proof {
                        assert(false);
                    }
                },
            },
            Err(e) => {
                self.fail(e);
            },
        }
    }
}


// ---------------------------------------------------------------------------
// Guarantees of the interactive machine
// ---------------------------------------------------------------------------

/// The interactive machine's invariant, which every reachable state
/// satisfies:
/// - the tested side's kill sweep precedes its OOM query, and the
///   interactor side's precedes everything after its race; once a verdict
///   is in place, every process either side spawned has been swept;
/// - each captured file is only up for reading after its measured size was
///   found within the output limit;
/// - an output-limit verdict, on either side, never carries captured
///   stream bytes.
pub open spec fn interact_inv(s: InteractMachineView) -> bool {
    &&& match s.phase {
        InteractPhase::ResetTested | InteractPhase::ResetInteractor
        | InteractPhase::PipeToInteractor | InteractPhase::PipeFromInteractor
        | InteractPhase::WriteInteractorInput | InteractPhase::SpawnInteractor => {
            &&& !s.spawned_interactor
            &&& !s.spawned_tested
            &&& s.pending is None
            &&& s.result is None
        },
        InteractPhase::AttachInteractor | InteractPhase::SpawnTested => {
            &&& !s.spawned_tested
            &&& s.pending is None
            &&& s.result is None
        },
        InteractPhase::AttachTested | InteractPhase::RaceTested => {
            &&& s.pending is None
            &&& s.result is None
        },
        InteractPhase::KillTested => s.result is None,
        InteractPhase::CheckOomTested | InteractPhase::RaceInteractor => {
            &&& (s.spawned_tested ==> s.killed_tested)
            &&& s.pending is None
            &&& s.result is None
        },
        InteractPhase::KillInteractor => {
            &&& (s.spawned_tested ==> s.killed_tested)
            &&& s.result is None
        },
        InteractPhase::CheckOomInteractor | InteractPhase::PeakTested
        | InteractPhase::PeakInteractor | InteractPhase::SizeTestedStderr
        | InteractPhase::ReadTestedStderr | InteractPhase::SizeInteractorOut
        | InteractPhase::ReadInteractorOut | InteractPhase::SizeInteractorStderr
        | InteractPhase::ReadInteractorStderr => {
            &&& (s.spawned_tested ==> s.killed_tested)
            &&& (s.spawned_interactor ==> s.killed_interactor)
            &&& s.pending is None
            &&& s.result is None
        },
        InteractPhase::Done => {
            &&& (s.spawned_tested ==> s.killed_tested)
            &&& (s.spawned_interactor ==> s.killed_interactor)
            &&& s.result is Some
        },
    }
    &&& ((s.phase is ReadTestedStderr || s.phase is SizeInteractorOut
        || s.phase is ReadInteractorOut || s.phase is SizeInteractorStderr
        || s.phase is ReadInteractorStderr) ==> s.tested_stderr_size <= s.output_limit)
    &&& ((s.phase is ReadInteractorOut || s.phase is SizeInteractorStderr
        || s.phase is ReadInteractorStderr) ==> s.interactor_out_size <= s.output_limit)
    &&& (s.phase is ReadInteractorStderr ==> s.interactor_stderr_size <= s.output_limit)
    &&& (s.result matches Some(RunWithInteractorResultView::OutputLimitExceeded(p, q)) ==> (
    p.stdout.len() == 0 && p.stderr.len() == 0 && q.stdout.len() == 0 && q.stderr.len() == 0))
    &&& (s.result matches Some(RunWithInteractorResultView::InteractorOutputLimitExceeded(p, q))
        ==> (p.stdout.len() == 0 && p.stderr.len() == 0 && q.stdout.len() == 0 && q.stderr.len()
        == 0))
}

/// Every interactive run starts inside the invariant.
pub proof fn lemma_interact_initial_inv(
    interactor_input: Seq<u8>,
    time_limit: nat,
    interactor_extra_time_limit: nat,
    output_limit: nat,
)
    ensures
        interact_inv(
            InteractMachine::initial(
                interactor_input,
                time_limit,
                interactor_extra_time_limit,
                output_limit,
            ),
        ),
{
}

/// Every step of an interactive run stays inside the invariant.
pub proof fn lemma_interact_step_inv(s: InteractMachineView, ev: RunEventView)
    requires
        interact_inv(s),
        interact_event_fits(s.phase, ev),
    ensures
        interact_inv(interact_step(s, ev)),
{
    match ev {
        RunEventView::Acted(res) => {},
        RunEventView::Spawned(res) => {},
        RunEventView::Raced { .. } => {},
        RunEventView::Killed => {},
        RunEventView::Flagged(res) => {},
        RunEventView::Measured(res) => {},
        RunEventView::SizeChecked(res) => {},
        RunEventView::ReadBytes(res) => {},
    }
}

/// Teardown guarantee, kill side: by the time an interactive run has its
/// verdict, every process either side spawned has been kill-swept.
pub proof fn lemma_interact_verdict_after_sweep(s: InteractMachineView)
    requires
        interact_inv(s),
        s.phase is Done,
    ensures
        s.spawned_tested ==> s.killed_tested,
        s.spawned_interactor ==> s.killed_interactor,
{
}

/// Output guard precedes disclosure, interactive case: the machine only
/// asks the host to read a captured file whose measured size was within
/// the output limit, and an output-limit verdict on either side carries
/// empty streams for both processes.
pub proof fn lemma_interact_output_guard(s: InteractMachineView)
    requires
        interact_inv(s),
    ensures
        s.phase is ReadTestedStderr ==> s.tested_stderr_size <= s.output_limit,
        s.phase is ReadInteractorOut ==> s.interactor_out_size <= s.output_limit,
        s.phase is ReadInteractorStderr ==> s.interactor_stderr_size <= s.output_limit,
        s.result matches Some(RunWithInteractorResultView::OutputLimitExceeded(p, q)) ==> (
        p.stdout.len() == 0 && p.stderr.len() == 0 && q.stdout.len() == 0 && q.stderr.len() == 0),
        s.result matches Some(RunWithInteractorResultView::InteractorOutputLimitExceeded(p, q))
            ==> (p.stdout.len() == 0 && p.stderr.len() == 0 && q.stdout.len() == 0
            && q.stderr.len() == 0),
{
}

/// Classification precedence, interactive case: the tested program's own
/// failures fully mask the interactor's. An OOM kill on the tested side is
/// always a memory-limit verdict; without one, a tested runtime over the
/// limit is always a time-limit verdict with the reported runtime at least
/// the limit; only when the tested side is clean does the interactor's
/// state decide.
pub proof fn lemma_interaction_precedence(s: InteractMachineView)
    ensures
        s.tested_oom ==> classify_interaction(s) is MemoryLimitExceeded,
        !s.tested_oom && s.tested_runtime > s.time_limit ==> (classify_interaction(s)
            matches RunWithInteractorResultView::TimeLimitExceeded(p, _) && p.runtime
            >= s.time_limit),
        !s.tested_oom && !s.tested_timed_out && s.tested_runtime <= s.time_limit
            && s.tested_exit_success && s.interactor_oom ==> classify_interaction(s)
            is InteractorMemoryLimitExceeded,
{
}

} // verus!
