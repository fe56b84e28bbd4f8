//! The layered result taxonomy.
//!
//! Each stage of a judging pipeline has its own closed tagged union:
//! compilation, session initialization, a single run, an interactive run,
//! and the four scenario-facing outcomes. A later stage's error variants
//! are either passed through unchanged or *promoted* — relabeled to say
//! which of the two programs of a two-program scenario the failure belongs
//! to. Promotion is a pure, total mapping over the non-`Success` variants;
//! promoting a `Success` is a programming error, so the promotion functions
//! require their argument not to be `Success`.

use vstd::prelude::*;

use crate::program::{ExeCode, ExeCodeView, ExeResources, ExeResourcesView};
use crate::quantity::{ProcessResource, ProcessResourceView};

verus! {

// ---------------------------------------------------------------------------
// Compilation outcome
// ---------------------------------------------------------------------------

/// Outcome of building a submission.
#[derive(Debug)]
pub enum CompileResult {
    /// The language template is misconfigured; not the submitter's fault.
    SettingError,
    /// Judge-infrastructure failure unrelated to the submission.
    InternalError(String),
    /// The submission failed to build; carries the compiler's stderr.
    CompileError(String),
    /// The compiled artifact.
    Success(ExeCode),
}

/// Mathematical image of a [`CompileResult`].
pub ghost enum CompileResultView {
    SettingError,
    InternalError(Seq<char>),
    CompileError(Seq<char>),
    Success(ExeCodeView),
}

impl View for CompileResult {
    type V = CompileResultView;

    open spec fn view(&self) -> CompileResultView {
        match self {
            CompileResult::SettingError => CompileResultView::SettingError,
            CompileResult::InternalError(s) => CompileResultView::InternalError(s@),
            CompileResult::CompileError(s) => CompileResultView::CompileError(s@),
            CompileResult::Success(code) => CompileResultView::Success(code@),
        }
    }
}

impl CompileResult {
    pub fn is_ok(&self) -> (r: bool)
        ensures
            r == (self@ is Success),
    {
        match self {
            CompileResult::Success(_) => true,
            _ => false,
        }
    }

    pub fn unwrap(self) -> (r: ExeCode)
        requires
            self@ is Success,
        ensures
            self@ == CompileResultView::Success(r@),
    {
        match self {
            CompileResult::Success(i) => i,
            _ => vstd::pervasive::unreached(),
        }
    }
}

// ---------------------------------------------------------------------------
// Session-initialization outcome
// ---------------------------------------------------------------------------

/// Outcome of setting one execution sandbox up.
#[derive(Debug)]
pub enum InitExeResourceResult {
    /// The privilege-drop precondition is unmet.
    PermissionDenied,
    /// Judge-infrastructure failure unrelated to the submission.
    InternalError(String),
    /// The initialized sandbox identity.
    Success(ExeResources),
}

/// Mathematical image of an [`InitExeResourceResult`].
pub ghost enum InitExeResourceResultView {
    PermissionDenied,
    InternalError(Seq<char>),
    Success(ExeResourcesView),
}

impl View for InitExeResourceResult {
    type V = InitExeResourceResultView;

    open spec fn view(&self) -> InitExeResourceResultView {
        match self {
            InitExeResourceResult::PermissionDenied => InitExeResourceResultView::PermissionDenied,
            InitExeResourceResult::InternalError(s) => InitExeResourceResultView::InternalError(s@),
            InitExeResourceResult::Success(res) => InitExeResourceResultView::Success(res@),
        }
    }
}

impl InitExeResourceResult {
    pub fn is_ok(&self) -> (r: bool)
        ensures
            r == (self@ is Success),
    {
        match self {
            InitExeResourceResult::Success(_) => true,
            _ => false,
        }
    }

    pub fn unwrap(self) -> (r: ExeResources)
        requires
            self@ is Success,
        ensures
            self@ == InitExeResourceResultView::Success(r@),
    {
        match self {
            InitExeResourceResult::Success(i) => i,
            _ => vstd::pervasive::unreached(),
        }
    }
}

// ---------------------------------------------------------------------------
// Single-run outcome
// ---------------------------------------------------------------------------

/// Outcome of one sandboxed run of one process.
#[derive(Debug)]
pub enum RunToEndResult {
    InternalError(String),
    RuntimeError(ProcessResource),
    MemoryLimitExceeded(ProcessResource),
    TimeLimitExceeded(ProcessResource),
    OutputLimitExceeded(ProcessResource),
    Success(ProcessResource),
}

/// Mathematical image of a [`RunToEndResult`].
pub ghost enum RunToEndResultView {
    InternalError(Seq<char>),
    RuntimeError(ProcessResourceView),
    MemoryLimitExceeded(ProcessResourceView),
    TimeLimitExceeded(ProcessResourceView),
    OutputLimitExceeded(ProcessResourceView),
    Success(ProcessResourceView),
}

impl View for RunToEndResult {
    type V = RunToEndResultView;

    open spec fn view(&self) -> RunToEndResultView {
        match self {
            RunToEndResult::InternalError(s) => RunToEndResultView::InternalError(s@),
            RunToEndResult::RuntimeError(p) => RunToEndResultView::RuntimeError(p@),
            RunToEndResult::MemoryLimitExceeded(p) => RunToEndResultView::MemoryLimitExceeded(p@),
            RunToEndResult::TimeLimitExceeded(p) => RunToEndResultView::TimeLimitExceeded(p@),
            RunToEndResult::OutputLimitExceeded(p) => RunToEndResultView::OutputLimitExceeded(p@),
            RunToEndResult::Success(p) => RunToEndResultView::Success(p@),
        }
    }
}

impl RunToEndResult {
    pub fn is_ok(&self) -> (r: bool)
        ensures
            r == (self@ is Success),
    {
        match self {
            RunToEndResult::Success(_) => true,
            _ => false,
        }
    }

    pub fn unwrap(self) -> (r: ProcessResource)
        requires
            self@ is Success,
        ensures
            self@ == RunToEndResultView::Success(r@),
    {
        match self {
            RunToEndResult::Success(i) => i,
            _ => vstd::pervasive::unreached(),
        }
    }
}

// ---------------------------------------------------------------------------
// Interactive-run outcome
// ---------------------------------------------------------------------------

/// Outcome of one interactive run: a tested program and an interactor wired
/// to each other over pipes. Both processes' resource snapshots are always
/// carried, tested side first.
#[derive(Debug)]
pub enum RunWithInteractorResult {
    InternalError(String),
    RuntimeError(ProcessResource, ProcessResource),
    MemoryLimitExceeded(ProcessResource, ProcessResource),
    TimeLimitExceeded(ProcessResource, ProcessResource),
    OutputLimitExceeded(ProcessResource, ProcessResource),
    InteractorRuntimeError(ProcessResource, ProcessResource),
    InteractorMemoryLimitExceeded(ProcessResource, ProcessResource),
    InteractorTimeLimitExceeded(ProcessResource, ProcessResource),
    InteractorOutputLimitExceeded(ProcessResource, ProcessResource),
    Success(ProcessResource, ProcessResource),
}

/// Mathematical image of a [`RunWithInteractorResult`].
pub ghost enum RunWithInteractorResultView {
    InternalError(Seq<char>),
    RuntimeError(ProcessResourceView, ProcessResourceView),
    MemoryLimitExceeded(ProcessResourceView, ProcessResourceView),
    TimeLimitExceeded(ProcessResourceView, ProcessResourceView),
    OutputLimitExceeded(ProcessResourceView, ProcessResourceView),
    InteractorRuntimeError(ProcessResourceView, ProcessResourceView),
    InteractorMemoryLimitExceeded(ProcessResourceView, ProcessResourceView),
    InteractorTimeLimitExceeded(ProcessResourceView, ProcessResourceView),
    InteractorOutputLimitExceeded(ProcessResourceView, ProcessResourceView),
    Success(ProcessResourceView, ProcessResourceView),
}

impl View for RunWithInteractorResult {
    type V = RunWithInteractorResultView;

    open spec fn view(&self) -> RunWithInteractorResultView {
        match self {
            RunWithInteractorResult::InternalError(s) => RunWithInteractorResultView::InternalError(
                s@,
            ),
            RunWithInteractorResult::RuntimeError(p, q) => RunWithInteractorResultView::RuntimeError(
                p@,
                q@,
            ),
            RunWithInteractorResult::MemoryLimitExceeded(
                p,
                q,
            ) => RunWithInteractorResultView::MemoryLimitExceeded(p@, q@),
            RunWithInteractorResult::TimeLimitExceeded(
                p,
                q,
            ) => RunWithInteractorResultView::TimeLimitExceeded(p@, q@),
            RunWithInteractorResult::OutputLimitExceeded(
                p,
                q,
            ) => RunWithInteractorResultView::OutputLimitExceeded(p@, q@),
            RunWithInteractorResult::InteractorRuntimeError(
                p,
                q,
            ) => RunWithInteractorResultView::InteractorRuntimeError(p@, q@),
            RunWithInteractorResult::InteractorMemoryLimitExceeded(
                p,
                q,
            ) => RunWithInteractorResultView::InteractorMemoryLimitExceeded(p@, q@),
            RunWithInteractorResult::InteractorTimeLimitExceeded(
                p,
                q,
            ) => RunWithInteractorResultView::InteractorTimeLimitExceeded(p@, q@),
            RunWithInteractorResult::InteractorOutputLimitExceeded(
                p,
                q,
            ) => RunWithInteractorResultView::InteractorOutputLimitExceeded(p@, q@),
            RunWithInteractorResult::Success(p, q) => RunWithInteractorResultView::Success(p@, q@),
        }
    }
}

impl RunWithInteractorResult {
    pub fn is_ok(&self) -> (r: bool)
        ensures
            r == (self@ is Success),
    {
        match self {
            RunWithInteractorResult::Success(_, _) => true,
            _ => false,
        }
    }

    pub fn unwrap(self) -> (r: (ProcessResource, ProcessResource))
        requires
            self@ is Success,
        ensures
            self@ == RunWithInteractorResultView::Success(r.0@, r.1@),
    {
        match self {
            RunWithInteractorResult::Success(i, j) => (i, j),
            _ => vstd::pervasive::unreached(),
        }
    }
}

// ---------------------------------------------------------------------------
// Only-run scenario outcome
// ---------------------------------------------------------------------------

/// Outcome of the only-run scenario: compile one program, run it on one
/// input.
#[derive(Debug)]
pub enum OnlyRunResult {
    PermissionDenied,
    SettingError,
    CompileError(String),
    InternalError(String),
    RuntimeError(ProcessResource),
    MemoryLimitExceeded(ProcessResource),
    TimeLimitExceeded(ProcessResource),
    OutputLimitExceeded(ProcessResource),
    Success(ProcessResource),
}

/// Mathematical image of an [`OnlyRunResult`].
pub ghost enum OnlyRunResultView {
    PermissionDenied,
    SettingError,
    CompileError(Seq<char>),
    InternalError(Seq<char>),
    RuntimeError(ProcessResourceView),
    MemoryLimitExceeded(ProcessResourceView),
    TimeLimitExceeded(ProcessResourceView),
    OutputLimitExceeded(ProcessResourceView),
    Success(ProcessResourceView),
}

impl View for OnlyRunResult {
    type V = OnlyRunResultView;

    open spec fn view(&self) -> OnlyRunResultView {
        match self {
            OnlyRunResult::PermissionDenied => OnlyRunResultView::PermissionDenied,
            OnlyRunResult::SettingError => OnlyRunResultView::SettingError,
            OnlyRunResult::CompileError(s) => OnlyRunResultView::CompileError(s@),
            OnlyRunResult::InternalError(s) => OnlyRunResultView::InternalError(s@),
            OnlyRunResult::RuntimeError(p) => OnlyRunResultView::RuntimeError(p@),
            OnlyRunResult::MemoryLimitExceeded(p) => OnlyRunResultView::MemoryLimitExceeded(p@),
            OnlyRunResult::TimeLimitExceeded(p) => OnlyRunResultView::TimeLimitExceeded(p@),
            OnlyRunResult::OutputLimitExceeded(p) => OnlyRunResultView::OutputLimitExceeded(p@),
            OnlyRunResult::Success(p) => OnlyRunResultView::Success(p@),
        }
    }
}

impl DeepView for OnlyRunResult {
    type V = OnlyRunResultView;

    open spec fn deep_view(&self) -> OnlyRunResultView {
        self.view()
    }
}

/// What a compile-stage failure becomes at the only-run scenario level.
/// A `Success` never reaches promotion; that arm is arbitrary.
pub open spec fn only_run_of_compile(c: CompileResultView) -> OnlyRunResultView
    recommends
        !(c is Success),
{
    match c {
        CompileResultView::SettingError => OnlyRunResultView::SettingError,
        CompileResultView::InternalError(s) => OnlyRunResultView::InternalError(s),
        CompileResultView::CompileError(s) => OnlyRunResultView::CompileError(s),
        CompileResultView::Success(_) => OnlyRunResultView::SettingError,
    }
}

/// What a session-initialization failure becomes at the only-run scenario
/// level. A `Success` never reaches promotion; that arm is arbitrary.
pub open spec fn only_run_of_init(c: InitExeResourceResultView) -> OnlyRunResultView
    recommends
        !(c is Success),
{
    match c {
        InitExeResourceResultView::PermissionDenied => OnlyRunResultView::PermissionDenied,
        InitExeResourceResultView::InternalError(s) => OnlyRunResultView::InternalError(s),
        InitExeResourceResultView::Success(_) => OnlyRunResultView::PermissionDenied,
    }
}

/// What a run outcome becomes at the only-run scenario level.
pub open spec fn only_run_of_run(c: RunToEndResultView) -> OnlyRunResultView {
    match c {
        RunToEndResultView::InternalError(s) => OnlyRunResultView::InternalError(s),
        RunToEndResultView::RuntimeError(p) => OnlyRunResultView::RuntimeError(p),
        RunToEndResultView::MemoryLimitExceeded(p) => OnlyRunResultView::MemoryLimitExceeded(p),
        RunToEndResultView::TimeLimitExceeded(p) => OnlyRunResultView::TimeLimitExceeded(p),
        RunToEndResultView::OutputLimitExceeded(p) => OnlyRunResultView::OutputLimitExceeded(p),
        RunToEndResultView::Success(p) => OnlyRunResultView::Success(p),
    }
}

impl Clone for OnlyRunResult {
    fn clone(&self) -> (r: Self)
        ensures
            r@ == self@,
    {
        match self {
            OnlyRunResult::PermissionDenied => OnlyRunResult::PermissionDenied,
            OnlyRunResult::SettingError => OnlyRunResult::SettingError,
            OnlyRunResult::CompileError(s) => OnlyRunResult::CompileError(s.clone()),
            OnlyRunResult::InternalError(s) => OnlyRunResult::InternalError(s.clone()),
            OnlyRunResult::RuntimeError(p) => OnlyRunResult::RuntimeError(p.clone()),
            OnlyRunResult::MemoryLimitExceeded(p) => OnlyRunResult::MemoryLimitExceeded(p.clone()),
            OnlyRunResult::TimeLimitExceeded(p) => OnlyRunResult::TimeLimitExceeded(p.clone()),
            OnlyRunResult::OutputLimitExceeded(p) => OnlyRunResult::OutputLimitExceeded(p.clone()),
            OnlyRunResult::Success(p) => OnlyRunResult::Success(p.clone()),
        }
    }
}

impl OnlyRunResult {
    pub fn is_ok(&self) -> (r: bool)
        ensures
            r == (self@ is Success),
    {
        match self {
            OnlyRunResult::Success(_) => true,
            _ => false,
        }
    }

    pub fn unwrap(self) -> (r: ProcessResource)
        requires
            self@ is Success,
        ensures
            self@ == OnlyRunResultView::Success(r@),
    {
        match self {
            OnlyRunResult::Success(i) => i,
            _ => vstd::pervasive::unreached(),
        }
    }

    /// Lifts a compile-stage failure into this scenario's outcome.
    pub fn from_compile(i: CompileResult) -> (r: Self)
        requires
            !(i@ is Success),
        ensures
            r@ == only_run_of_compile(i@),
    {
        match i {
            CompileResult::SettingError => OnlyRunResult::SettingError,
            CompileResult::InternalError(s) => OnlyRunResult::InternalError(s),
            CompileResult::CompileError(s) => OnlyRunResult::CompileError(s),
            CompileResult::Success(_) => vstd::pervasive::unreached(),
        }
    }

    /// Lifts a session-initialization failure into this scenario's outcome.
    pub fn from_init(i: InitExeResourceResult) -> (r: Self)
        requires
            !(i@ is Success),
        ensures
            r@ == only_run_of_init(i@),
    {
        match i {
            InitExeResourceResult::PermissionDenied => OnlyRunResult::PermissionDenied,
            InitExeResourceResult::InternalError(s) => OnlyRunResult::InternalError(s),
            InitExeResourceResult::Success(_) => vstd::pervasive::unreached(),
        }
    }

    /// Lifts a run outcome into this scenario's outcome.
    pub fn from_run(i: RunToEndResult) -> (r: Self)
        ensures
            r@ == only_run_of_run(i@),
    {
        match i {
            RunToEndResult::InternalError(s) => OnlyRunResult::InternalError(s),
            RunToEndResult::RuntimeError(p) => OnlyRunResult::RuntimeError(p),
            RunToEndResult::MemoryLimitExceeded(p) => OnlyRunResult::MemoryLimitExceeded(p),
            RunToEndResult::TimeLimitExceeded(p) => OnlyRunResult::TimeLimitExceeded(p),
            RunToEndResult::OutputLimitExceeded(p) => OnlyRunResult::OutputLimitExceeded(p),
            RunToEndResult::Success(p) => OnlyRunResult::Success(p),
        }
    }
}

// ---------------------------------------------------------------------------
// Run-and-evaluate scenario outcome
// ---------------------------------------------------------------------------

/// Outcome of the run-and-evaluate scenario: run the tested program, then
/// feed a checker the input, the tested program's output, and the reference
/// output. Two-resource variants carry the tested side first, the checker
/// side second.
#[derive(Debug)]
pub enum RunAndEvalResult {
    SettingError,
    PermissionDenied,
    InternalError(String),
    CompileError(String),
    RuntimeError(ProcessResource, ProcessResource),
    MemoryLimitExceeded(ProcessResource, ProcessResource),
    TimeLimitExceeded(ProcessResource, ProcessResource),
    OutputLimitExceeded(ProcessResource, ProcessResource),
    EvalCompileError(String),
    EvalRuntimeError(ProcessResource, ProcessResource),
    EvalMemoryLimitExceeded(ProcessResource, ProcessResource),
    EvalTimeLimitExceeded(ProcessResource, ProcessResource),
    EvalOutputLimitExceeded(ProcessResource, ProcessResource),
    Success(ProcessResource, ProcessResource),
}

/// Mathematical image of a [`RunAndEvalResult`].
pub ghost enum RunAndEvalResultView {
    SettingError,
    PermissionDenied,
    InternalError(Seq<char>),
    CompileError(Seq<char>),
    RuntimeError(ProcessResourceView, ProcessResourceView),
    MemoryLimitExceeded(ProcessResourceView, ProcessResourceView),
    TimeLimitExceeded(ProcessResourceView, ProcessResourceView),
    OutputLimitExceeded(ProcessResourceView, ProcessResourceView),
    EvalCompileError(Seq<char>),
    EvalRuntimeError(ProcessResourceView, ProcessResourceView),
    EvalMemoryLimitExceeded(ProcessResourceView, ProcessResourceView),
    EvalTimeLimitExceeded(ProcessResourceView, ProcessResourceView),
    EvalOutputLimitExceeded(ProcessResourceView, ProcessResourceView),
    Success(ProcessResourceView, ProcessResourceView),
}

impl View for RunAndEvalResult {
    type V = RunAndEvalResultView;

    open spec fn view(&self) -> RunAndEvalResultView {
        match self {
            RunAndEvalResult::SettingError => RunAndEvalResultView::SettingError,
            RunAndEvalResult::PermissionDenied => RunAndEvalResultView::PermissionDenied,
            RunAndEvalResult::InternalError(s) => RunAndEvalResultView::InternalError(s@),
            RunAndEvalResult::CompileError(s) => RunAndEvalResultView::CompileError(s@),
            RunAndEvalResult::RuntimeError(p, q) => RunAndEvalResultView::RuntimeError(p@, q@),
            RunAndEvalResult::MemoryLimitExceeded(p, q) => RunAndEvalResultView::MemoryLimitExceeded(
                p@,
                q@,
            ),
            RunAndEvalResult::TimeLimitExceeded(p, q) => RunAndEvalResultView::TimeLimitExceeded(
                p@,
                q@,
            ),
            RunAndEvalResult::OutputLimitExceeded(p, q) => RunAndEvalResultView::OutputLimitExceeded(
                p@,
                q@,
            ),
            RunAndEvalResult::EvalCompileError(s) => RunAndEvalResultView::EvalCompileError(s@),
            RunAndEvalResult::EvalRuntimeError(p, q) => RunAndEvalResultView::EvalRuntimeError(
                p@,
                q@,
            ),
            RunAndEvalResult::EvalMemoryLimitExceeded(
                p,
                q,
            ) => RunAndEvalResultView::EvalMemoryLimitExceeded(p@, q@),
            RunAndEvalResult::EvalTimeLimitExceeded(
                p,
                q,
            ) => RunAndEvalResultView::EvalTimeLimitExceeded(p@, q@),
            RunAndEvalResult::EvalOutputLimitExceeded(
                p,
                q,
            ) => RunAndEvalResultView::EvalOutputLimitExceeded(p@, q@),
            RunAndEvalResult::Success(p, q) => RunAndEvalResultView::Success(p@, q@),
        }
    }
}

impl DeepView for RunAndEvalResult {
    type V = RunAndEvalResultView;

    open spec fn deep_view(&self) -> RunAndEvalResultView {
        self.view()
    }
}

/// What a compile-stage failure of the tested program becomes at this
/// scenario level. A `Success` never reaches promotion; that arm is
/// arbitrary.
pub open spec fn run_and_eval_of_compile(c: CompileResultView) -> RunAndEvalResultView
    recommends
        !(c is Success),
{
    match c {
        CompileResultView::SettingError => RunAndEvalResultView::SettingError,
        CompileResultView::InternalError(s) => RunAndEvalResultView::InternalError(s),
        CompileResultView::CompileError(s) => RunAndEvalResultView::CompileError(s),
        CompileResultView::Success(_) => RunAndEvalResultView::SettingError,
    }
}

/// What a session-initialization failure of the tested program becomes at
/// this scenario level. A `Success` never reaches promotion; that arm is
/// arbitrary.
pub open spec fn run_and_eval_of_init(c: InitExeResourceResultView) -> RunAndEvalResultView
    recommends
        !(c is Success),
{
    match c {
        InitExeResourceResultView::PermissionDenied => RunAndEvalResultView::PermissionDenied,
        InitExeResourceResultView::InternalError(s) => RunAndEvalResultView::InternalError(s),
        InitExeResourceResultView::Success(_) => RunAndEvalResultView::PermissionDenied,
    }
}

/// What a failed run of the tested program becomes at this scenario level:
/// the checker never ran, so its snapshot is the zero placeholder.
/// A `Success` continues the pipeline instead; that arm is arbitrary.
pub open spec fn run_and_eval_of_tested_run(c: RunToEndResultView) -> RunAndEvalResultView
    recommends
        !(c is Success),
{
    match c {
        RunToEndResultView::InternalError(s) => RunAndEvalResultView::InternalError(s),
        RunToEndResultView::RuntimeError(p) => RunAndEvalResultView::RuntimeError(
            p,
            ProcessResourceView::zero(),
        ),
        RunToEndResultView::MemoryLimitExceeded(p) => RunAndEvalResultView::MemoryLimitExceeded(
            p,
            ProcessResourceView::zero(),
        ),
        RunToEndResultView::TimeLimitExceeded(p) => RunAndEvalResultView::TimeLimitExceeded(
            p,
            ProcessResourceView::zero(),
        ),
        RunToEndResultView::OutputLimitExceeded(p) => RunAndEvalResultView::OutputLimitExceeded(
            p,
            ProcessResourceView::zero(),
        ),
        RunToEndResultView::Success(_) => RunAndEvalResultView::SettingError,
    }
}

/// What the checker's own run outcome becomes at this scenario level, given
/// the tested program's snapshot.
pub open spec fn run_and_eval_of_eval_run(
    tested: ProcessResourceView,
    c: RunToEndResultView,
) -> RunAndEvalResultView {
    match c {
        RunToEndResultView::InternalError(s) => RunAndEvalResultView::InternalError(s),
        RunToEndResultView::RuntimeError(p) => RunAndEvalResultView::EvalRuntimeError(tested, p),
        RunToEndResultView::MemoryLimitExceeded(p) => RunAndEvalResultView::EvalMemoryLimitExceeded(
            tested,
            p,
        ),
        RunToEndResultView::TimeLimitExceeded(p) => RunAndEvalResultView::EvalTimeLimitExceeded(
            tested,
            p,
        ),
        RunToEndResultView::OutputLimitExceeded(p) => RunAndEvalResultView::EvalOutputLimitExceeded(
            tested,
            p,
        ),
        RunToEndResultView::Success(p) => RunAndEvalResultView::Success(tested, p),
    }
}

/// Whether an outcome is one the eval-side promotion applies to: a failure
/// not yet attributed to the checker.
pub open spec fn eval_promotable(v: RunAndEvalResultView) -> bool {
    match v {
        RunAndEvalResultView::SettingError => true,
        RunAndEvalResultView::PermissionDenied => true,
        RunAndEvalResultView::InternalError(_) => true,
        RunAndEvalResultView::CompileError(_) => true,
        RunAndEvalResultView::RuntimeError(_, _) => true,
        RunAndEvalResultView::MemoryLimitExceeded(_, _) => true,
        RunAndEvalResultView::TimeLimitExceeded(_, _) => true,
        RunAndEvalResultView::OutputLimitExceeded(_, _) => true,
        _ => false,
    }
}

/// Relabels a failure as the checker's. Infrastructure failures stay as
/// they are; submission-stage labels gain their `Eval` prefix.
/// A non-promotable value never reaches this; those arms are arbitrary.
pub open spec fn eval_promotion(v: RunAndEvalResultView) -> RunAndEvalResultView
    recommends
        eval_promotable(v),
{
    match v {
        RunAndEvalResultView::SettingError => RunAndEvalResultView::SettingError,
        RunAndEvalResultView::PermissionDenied => RunAndEvalResultView::PermissionDenied,
        RunAndEvalResultView::InternalError(s) => RunAndEvalResultView::InternalError(s),
        RunAndEvalResultView::CompileError(s) => RunAndEvalResultView::EvalCompileError(s),
        RunAndEvalResultView::RuntimeError(p, q) => RunAndEvalResultView::EvalRuntimeError(p, q),
        RunAndEvalResultView::MemoryLimitExceeded(
            p,
            q,
        ) => RunAndEvalResultView::EvalMemoryLimitExceeded(p, q),
        RunAndEvalResultView::TimeLimitExceeded(p, q) => RunAndEvalResultView::EvalTimeLimitExceeded(
            p,
            q,
        ),
        RunAndEvalResultView::OutputLimitExceeded(
            p,
            q,
        ) => RunAndEvalResultView::EvalOutputLimitExceeded(p, q),
        _ => v,
    }
}

impl Clone for RunAndEvalResult {
    fn clone(&self) -> (r: Self)
        ensures
            r@ == self@,
    {
        match self {
            RunAndEvalResult::SettingError => RunAndEvalResult::SettingError,
            RunAndEvalResult::PermissionDenied => RunAndEvalResult::PermissionDenied,
            RunAndEvalResult::InternalError(s) => RunAndEvalResult::InternalError(s.clone()),
            RunAndEvalResult::CompileError(s) => RunAndEvalResult::CompileError(s.clone()),
            RunAndEvalResult::RuntimeError(p, q) => RunAndEvalResult::RuntimeError(
                p.clone(),
                q.clone(),
            ),
            RunAndEvalResult::MemoryLimitExceeded(p, q) => RunAndEvalResult::MemoryLimitExceeded(
                p.clone(),
                q.clone(),
            ),
            RunAndEvalResult::TimeLimitExceeded(p, q) => RunAndEvalResult::TimeLimitExceeded(
                p.clone(),
                q.clone(),
            ),
            RunAndEvalResult::OutputLimitExceeded(p, q) => RunAndEvalResult::OutputLimitExceeded(
                p.clone(),
                q.clone(),
            ),
            RunAndEvalResult::EvalCompileError(s) => RunAndEvalResult::EvalCompileError(s.clone()),
            RunAndEvalResult::EvalRuntimeError(p, q) => RunAndEvalResult::EvalRuntimeError(
                p.clone(),
                q.clone(),
            ),
            RunAndEvalResult::EvalMemoryLimitExceeded(
                p,
                q,
            ) => RunAndEvalResult::EvalMemoryLimitExceeded(p.clone(), q.clone()),
            RunAndEvalResult::EvalTimeLimitExceeded(
                p,
                q,
            ) => RunAndEvalResult::EvalTimeLimitExceeded(p.clone(), q.clone()),
            RunAndEvalResult::EvalOutputLimitExceeded(
                p,
                q,
            ) => RunAndEvalResult::EvalOutputLimitExceeded(p.clone(), q.clone()),
            RunAndEvalResult::Success(p, q) => RunAndEvalResult::Success(p.clone(), q.clone()),
        }
    }
}

impl RunAndEvalResult {
    pub fn is_ok(&self) -> (r: bool)
        ensures
            r == (self@ is Success),
    {
        match self {
            RunAndEvalResult::Success(_, _) => true,
            _ => false,
        }
    }

    pub fn unwrap(self) -> (r: (ProcessResource, ProcessResource))
        requires
            self@ is Success,
        ensures
            self@ == RunAndEvalResultView::Success(r.0@, r.1@),
    {
        match self {
            RunAndEvalResult::Success(i, j) => (i, j),
            _ => vstd::pervasive::unreached(),
        }
    }

    /// Lifts a compile-stage failure of the tested program into this
    /// scenario's outcome.
    pub fn from_compile(i: CompileResult) -> (r: Self)
        requires
            !(i@ is Success),
        ensures
            r@ == run_and_eval_of_compile(i@),
    {
        match i {
            CompileResult::SettingError => RunAndEvalResult::SettingError,
            CompileResult::InternalError(s) => RunAndEvalResult::InternalError(s),
            CompileResult::CompileError(s) => RunAndEvalResult::CompileError(s),
            CompileResult::Success(_) => vstd::pervasive::unreached(),
        }
    }

    /// Lifts a session-initialization failure of the tested program into
    /// this scenario's outcome.
    pub fn from_init(i: InitExeResourceResult) -> (r: Self)
        requires
            !(i@ is Success),
        ensures
            r@ == run_and_eval_of_init(i@),
    {
        match i {
            InitExeResourceResult::PermissionDenied => RunAndEvalResult::PermissionDenied,
            InitExeResourceResult::InternalError(s) => RunAndEvalResult::InternalError(s),
            InitExeResourceResult::Success(_) => vstd::pervasive::unreached(),
        }
    }

    /// Lifts a failed run of the tested program into this scenario's
    /// outcome, with the zero placeholder standing for the checker that
    /// never ran.
    pub fn from_tested_run(i: RunToEndResult) -> (r: Self)
        requires
            !(i@ is Success),
        ensures
            r@ == run_and_eval_of_tested_run(i@),
    {
        match i {
            RunToEndResult::InternalError(s) => RunAndEvalResult::InternalError(s),
            RunToEndResult::RuntimeError(p) => RunAndEvalResult::RuntimeError(
                p,
                ProcessResource::default(),
            ),
            RunToEndResult::MemoryLimitExceeded(p) => RunAndEvalResult::MemoryLimitExceeded(
                p,
                ProcessResource::default(),
            ),
            RunToEndResult::TimeLimitExceeded(p) => RunAndEvalResult::TimeLimitExceeded(
                p,
                ProcessResource::default(),
            ),
            RunToEndResult::OutputLimitExceeded(p) => RunAndEvalResult::OutputLimitExceeded(
                p,
                ProcessResource::default(),
            ),
            RunToEndResult::Success(_) => vstd::pervasive::unreached(),
        }
    }

    /// Lifts the checker's own run outcome into this scenario's outcome,
    /// paired with the tested program's snapshot.
    pub fn from_eval_run(tested: ProcessResource, i: RunToEndResult) -> (r: Self)
        ensures
            r@ == run_and_eval_of_eval_run(tested@, i@),
    {
        match i {
            RunToEndResult::InternalError(s) => RunAndEvalResult::InternalError(s),
            RunToEndResult::RuntimeError(p) => RunAndEvalResult::EvalRuntimeError(tested, p),
            RunToEndResult::MemoryLimitExceeded(p) => RunAndEvalResult::EvalMemoryLimitExceeded(
                tested,
                p,
            ),
            RunToEndResult::TimeLimitExceeded(p) => RunAndEvalResult::EvalTimeLimitExceeded(
                tested,
                p,
            ),
            RunToEndResult::OutputLimitExceeded(p) => RunAndEvalResult::EvalOutputLimitExceeded(
                tested,
                p,
            ),
            RunToEndResult::Success(p) => RunAndEvalResult::Success(tested, p),
        }
    }

    /// Relabels a not-yet-attributed failure as the checker's: the checker,
    /// not the tested program, is the one that failed to compile or
    /// initialize.
    pub fn to_eval(&self) -> (r: Self)
        requires
            eval_promotable(self@),
        ensures
            r@ == eval_promotion(self@),
    {
        match self {
            RunAndEvalResult::SettingError => RunAndEvalResult::SettingError,
            RunAndEvalResult::PermissionDenied => RunAndEvalResult::PermissionDenied,
            RunAndEvalResult::InternalError(s) => RunAndEvalResult::InternalError(s.clone()),
            RunAndEvalResult::CompileError(s) => RunAndEvalResult::EvalCompileError(s.clone()),
            RunAndEvalResult::RuntimeError(p, q) => RunAndEvalResult::EvalRuntimeError(
                p.clone(),
                q.clone(),
            ),
            RunAndEvalResult::MemoryLimitExceeded(
                p,
                q,
            ) => RunAndEvalResult::EvalMemoryLimitExceeded(p.clone(), q.clone()),
            RunAndEvalResult::TimeLimitExceeded(p, q) => RunAndEvalResult::EvalTimeLimitExceeded(
                p.clone(),
                q.clone(),
            ),
            RunAndEvalResult::OutputLimitExceeded(
                p,
                q,
            ) => RunAndEvalResult::EvalOutputLimitExceeded(p.clone(), q.clone()),
            _ => vstd::pervasive::unreached(),
        }
    }
}

// ---------------------------------------------------------------------------
// Answer-and-evaluate scenario outcome
// ---------------------------------------------------------------------------

/// Outcome of the answer-and-evaluate scenario: only a checker runs,
/// judging a finished answer against a reference answer, so every
/// program-stage failure is the checker's.
#[derive(Debug)]
pub enum AnsAndEvalResult {
    PermissionDenied,
    SettingError,
    InternalError(String),
    EvalCompileError(String),
    EvalRuntimeError(ProcessResource),
    EvalMemoryLimitExceeded(ProcessResource),
    EvalTimeLimitExceeded(ProcessResource),
    EvalOutputLimitExceeded(ProcessResource),
    Success(ProcessResource),
}

/// Mathematical image of an [`AnsAndEvalResult`].
pub ghost enum AnsAndEvalResultView {
    PermissionDenied,
    SettingError,
    InternalError(Seq<char>),
    EvalCompileError(Seq<char>),
    EvalRuntimeError(ProcessResourceView),
    EvalMemoryLimitExceeded(ProcessResourceView),
    EvalTimeLimitExceeded(ProcessResourceView),
    EvalOutputLimitExceeded(ProcessResourceView),
    Success(ProcessResourceView),
}

impl View for AnsAndEvalResult {
    type V = AnsAndEvalResultView;

    open spec fn view(&self) -> AnsAndEvalResultView {
        match self {
            AnsAndEvalResult::PermissionDenied => AnsAndEvalResultView::PermissionDenied,
            AnsAndEvalResult::SettingError => AnsAndEvalResultView::SettingError,
            AnsAndEvalResult::InternalError(s) => AnsAndEvalResultView::InternalError(s@),
            AnsAndEvalResult::EvalCompileError(s) => AnsAndEvalResultView::EvalCompileError(s@),
            AnsAndEvalResult::EvalRuntimeError(p) => AnsAndEvalResultView::EvalRuntimeError(p@),
            AnsAndEvalResult::EvalMemoryLimitExceeded(
                p,
            ) => AnsAndEvalResultView::EvalMemoryLimitExceeded(p@),
            AnsAndEvalResult::EvalTimeLimitExceeded(p) => AnsAndEvalResultView::EvalTimeLimitExceeded(
                p@,
            ),
            AnsAndEvalResult::EvalOutputLimitExceeded(
                p,
            ) => AnsAndEvalResultView::EvalOutputLimitExceeded(p@),
            AnsAndEvalResult::Success(p) => AnsAndEvalResultView::Success(p@),
        }
    }
}

impl DeepView for AnsAndEvalResult {
    type V = AnsAndEvalResultView;

    open spec fn deep_view(&self) -> AnsAndEvalResultView {
        self.view()
    }
}

/// What a compile-stage failure becomes at this scenario level: the only
/// program is the checker, so a compile error is the checker's.
/// A `Success` never reaches promotion; that arm is arbitrary.
pub open spec fn ans_and_eval_of_compile(c: CompileResultView) -> AnsAndEvalResultView
    recommends
        !(c is Success),
{
    match c {
        CompileResultView::SettingError => AnsAndEvalResultView::SettingError,
        CompileResultView::InternalError(s) => AnsAndEvalResultView::InternalError(s),
        CompileResultView::CompileError(s) => AnsAndEvalResultView::EvalCompileError(s),
        CompileResultView::Success(_) => AnsAndEvalResultView::SettingError,
    }
}

/// What a session-initialization failure becomes at this scenario level.
/// A `Success` never reaches promotion; that arm is arbitrary.
pub open spec fn ans_and_eval_of_init(c: InitExeResourceResultView) -> AnsAndEvalResultView
    recommends
        !(c is Success),
{
    match c {
        InitExeResourceResultView::PermissionDenied => AnsAndEvalResultView::PermissionDenied,
        InitExeResourceResultView::InternalError(s) => AnsAndEvalResultView::InternalError(s),
        InitExeResourceResultView::Success(_) => AnsAndEvalResultView::PermissionDenied,
    }
}

/// What the checker's run outcome becomes at this scenario level.
pub open spec fn ans_and_eval_of_run(c: RunToEndResultView) -> AnsAndEvalResultView {
    match c {
        RunToEndResultView::InternalError(s) => AnsAndEvalResultView::InternalError(s),
        RunToEndResultView::RuntimeError(p) => AnsAndEvalResultView::EvalRuntimeError(p),
        RunToEndResultView::MemoryLimitExceeded(p) => AnsAndEvalResultView::EvalMemoryLimitExceeded(
            p,
        ),
        RunToEndResultView::TimeLimitExceeded(p) => AnsAndEvalResultView::EvalTimeLimitExceeded(p),
        RunToEndResultView::OutputLimitExceeded(p) => AnsAndEvalResultView::EvalOutputLimitExceeded(
            p,
        ),
        RunToEndResultView::Success(p) => AnsAndEvalResultView::Success(p),
    }
}

impl Clone for AnsAndEvalResult {
    fn clone(&self) -> (r: Self)
        ensures
            r@ == self@,
    {
        match self {
            AnsAndEvalResult::PermissionDenied => AnsAndEvalResult::PermissionDenied,
            AnsAndEvalResult::SettingError => AnsAndEvalResult::SettingError,
            AnsAndEvalResult::InternalError(s) => AnsAndEvalResult::InternalError(s.clone()),
            AnsAndEvalResult::EvalCompileError(s) => AnsAndEvalResult::EvalCompileError(s.clone()),
            AnsAndEvalResult::EvalRuntimeError(p) => AnsAndEvalResult::EvalRuntimeError(p.clone()),
            AnsAndEvalResult::EvalMemoryLimitExceeded(
                p,
            ) => AnsAndEvalResult::EvalMemoryLimitExceeded(p.clone()),
            AnsAndEvalResult::EvalTimeLimitExceeded(p) => AnsAndEvalResult::EvalTimeLimitExceeded(
                p.clone(),
            ),
            AnsAndEvalResult::EvalOutputLimitExceeded(
                p,
            ) => AnsAndEvalResult::EvalOutputLimitExceeded(p.clone()),
            AnsAndEvalResult::Success(p) => AnsAndEvalResult::Success(p.clone()),
        }
    }
}

impl AnsAndEvalResult {
    pub fn is_ok(&self) -> (r: bool)
        ensures
            r == (self@ is Success),
    {
        match self {
            AnsAndEvalResult::Success(_) => true,
            _ => false,
        }
    }

    pub fn unwrap(self) -> (r: ProcessResource)
        requires
            self@ is Success,
        ensures
            self@ == AnsAndEvalResultView::Success(r@),
    {
        match self {
            AnsAndEvalResult::Success(i) => i,
            _ => vstd::pervasive::unreached(),
        }
    }

    /// Lifts a compile-stage failure of the checker into this scenario's
    /// outcome.
    pub fn from_compile(i: CompileResult) -> (r: Self)
        requires
            !(i@ is Success),
        ensures
            r@ == ans_and_eval_of_compile(i@),
    {
        match i {
            CompileResult::SettingError => AnsAndEvalResult::SettingError,
            CompileResult::InternalError(s) => AnsAndEvalResult::InternalError(s),
            CompileResult::CompileError(s) => AnsAndEvalResult::EvalCompileError(s),
            CompileResult::Success(_) => vstd::pervasive::unreached(),
        }
    }

    /// Lifts a session-initialization failure of the checker into this
    /// scenario's outcome.
    pub fn from_init(i: InitExeResourceResult) -> (r: Self)
        requires
            !(i@ is Success),
        ensures
            r@ == ans_and_eval_of_init(i@),
    {
        match i {
            InitExeResourceResult::PermissionDenied => AnsAndEvalResult::PermissionDenied,
            InitExeResourceResult::InternalError(s) => AnsAndEvalResult::InternalError(s),
            InitExeResourceResult::Success(_) => vstd::pervasive::unreached(),
        }
    }

    /// Lifts the checker's run outcome into this scenario's outcome.
    pub fn from_run(i: RunToEndResult) -> (r: Self)
        ensures
            r@ == ans_and_eval_of_run(i@),
    {
        match i {
            RunToEndResult::InternalError(s) => AnsAndEvalResult::InternalError(s),
            RunToEndResult::RuntimeError(p) => AnsAndEvalResult::EvalRuntimeError(p),
            RunToEndResult::MemoryLimitExceeded(p) => AnsAndEvalResult::EvalMemoryLimitExceeded(p),
            RunToEndResult::TimeLimitExceeded(p) => AnsAndEvalResult::EvalTimeLimitExceeded(p),
            RunToEndResult::OutputLimitExceeded(p) => AnsAndEvalResult::EvalOutputLimitExceeded(p),
            RunToEndResult::Success(p) => AnsAndEvalResult::Success(p),
        }
    }
}

// ---------------------------------------------------------------------------
// Run-and-interact scenario outcome
// ---------------------------------------------------------------------------

/// Outcome of the run-and-interact scenario: the tested program and an
/// interactor exchange messages live over pipes. Two-resource variants
/// carry the tested side first, the interactor side second.
#[derive(Debug)]
pub enum RunAndInteractResult {
    PermissionDenied,
    SettingError,
    InternalError(String),
    CompileError(String),
    RuntimeError(ProcessResource, ProcessResource),
    MemoryLimitExceeded(ProcessResource, ProcessResource),
    TimeLimitExceeded(ProcessResource, ProcessResource),
    OutputLimitExceeded(ProcessResource, ProcessResource),
    InteractorCompileError(String),
    InteractorRuntimeError(ProcessResource, ProcessResource),
    InteractorMemoryLimitExceeded(ProcessResource, ProcessResource),
    InteractorTimeLimitExceeded(ProcessResource, ProcessResource),
    InteractorOutputLimitExceeded(ProcessResource, ProcessResource),
    Success(ProcessResource, ProcessResource),
}

/// Mathematical image of a [`RunAndInteractResult`].
pub ghost enum RunAndInteractResultView {
    PermissionDenied,
    SettingError,
    InternalError(Seq<char>),
    CompileError(Seq<char>),
    RuntimeError(ProcessResourceView, ProcessResourceView),
    MemoryLimitExceeded(ProcessResourceView, ProcessResourceView),
    TimeLimitExceeded(ProcessResourceView, ProcessResourceView),
    OutputLimitExceeded(ProcessResourceView, ProcessResourceView),
    InteractorCompileError(Seq<char>),
    InteractorRuntimeError(ProcessResourceView, ProcessResourceView),
    InteractorMemoryLimitExceeded(ProcessResourceView, ProcessResourceView),
    InteractorTimeLimitExceeded(ProcessResourceView, ProcessResourceView),
    InteractorOutputLimitExceeded(ProcessResourceView, ProcessResourceView),
    Success(ProcessResourceView, ProcessResourceView),
}

impl View for RunAndInteractResult {
    type V = RunAndInteractResultView;

    open spec fn view(&self) -> RunAndInteractResultView {
        match self {
            RunAndInteractResult::PermissionDenied => RunAndInteractResultView::PermissionDenied,
            RunAndInteractResult::SettingError => RunAndInteractResultView::SettingError,
            RunAndInteractResult::InternalError(s) => RunAndInteractResultView::InternalError(s@),
            RunAndInteractResult::CompileError(s) => RunAndInteractResultView::CompileError(s@),
            RunAndInteractResult::RuntimeError(p, q) => RunAndInteractResultView::RuntimeError(
                p@,
                q@,
            ),
            RunAndInteractResult::MemoryLimitExceeded(
                p,
                q,
            ) => RunAndInteractResultView::MemoryLimitExceeded(p@, q@),
            RunAndInteractResult::TimeLimitExceeded(
                p,
                q,
            ) => RunAndInteractResultView::TimeLimitExceeded(p@, q@),
            RunAndInteractResult::OutputLimitExceeded(
                p,
                q,
            ) => RunAndInteractResultView::OutputLimitExceeded(p@, q@),
            RunAndInteractResult::InteractorCompileError(
                s,
            ) => RunAndInteractResultView::InteractorCompileError(s@),
            RunAndInteractResult::InteractorRuntimeError(
                p,
                q,
            ) => RunAndInteractResultView::InteractorRuntimeError(p@, q@),
            RunAndInteractResult::InteractorMemoryLimitExceeded(
                p,
                q,
            ) => RunAndInteractResultView::InteractorMemoryLimitExceeded(p@, q@),
            RunAndInteractResult::InteractorTimeLimitExceeded(
                p,
                q,
            ) => RunAndInteractResultView::InteractorTimeLimitExceeded(p@, q@),
            RunAndInteractResult::InteractorOutputLimitExceeded(
                p,
                q,
            ) => RunAndInteractResultView::InteractorOutputLimitExceeded(p@, q@),
            RunAndInteractResult::Success(p, q) => RunAndInteractResultView::Success(p@, q@),
        }
    }
}

impl DeepView for RunAndInteractResult {
    type V = RunAndInteractResultView;

    open spec fn deep_view(&self) -> RunAndInteractResultView {
        self.view()
    }
}

/// What a compile-stage failure of the tested program becomes at this
/// scenario level. A `Success` never reaches promotion; that arm is
/// arbitrary.
pub open spec fn run_and_interact_of_compile(c: CompileResultView) -> RunAndInteractResultView
    recommends
        !(c is Success),
{
    match c {
        CompileResultView::SettingError => RunAndInteractResultView::SettingError,
        CompileResultView::InternalError(s) => RunAndInteractResultView::InternalError(s),
        CompileResultView::CompileError(s) => RunAndInteractResultView::CompileError(s),
        CompileResultView::Success(_) => RunAndInteractResultView::SettingError,
    }
}

/// What a session-initialization failure of the tested program becomes at
/// this scenario level. A `Success` never reaches promotion; that arm is
/// arbitrary.
pub open spec fn run_and_interact_of_init(c: InitExeResourceResultView) -> RunAndInteractResultView
    recommends
        !(c is Success),
{
    match c {
        InitExeResourceResultView::PermissionDenied => RunAndInteractResultView::PermissionDenied,
        InitExeResourceResultView::InternalError(s) => RunAndInteractResultView::InternalError(s),
        InitExeResourceResultView::Success(_) => RunAndInteractResultView::PermissionDenied,
    }
}

/// What an interactive-run outcome becomes at this scenario level: a
/// one-to-one relabeling.
pub open spec fn run_and_interact_of_run(c: RunWithInteractorResultView) -> RunAndInteractResultView {
    match c {
        RunWithInteractorResultView::InternalError(s) => RunAndInteractResultView::InternalError(s),
        RunWithInteractorResultView::RuntimeError(p, q) => RunAndInteractResultView::RuntimeError(
            p,
            q,
        ),
        RunWithInteractorResultView::MemoryLimitExceeded(
            p,
            q,
        ) => RunAndInteractResultView::MemoryLimitExceeded(p, q),
        RunWithInteractorResultView::TimeLimitExceeded(
            p,
            q,
        ) => RunAndInteractResultView::TimeLimitExceeded(p, q),
        RunWithInteractorResultView::OutputLimitExceeded(
            p,
            q,
        ) => RunAndInteractResultView::OutputLimitExceeded(p, q),
        RunWithInteractorResultView::InteractorRuntimeError(
            p,
            q,
        ) => RunAndInteractResultView::InteractorRuntimeError(p, q),
        RunWithInteractorResultView::InteractorMemoryLimitExceeded(
            p,
            q,
        ) => RunAndInteractResultView::InteractorMemoryLimitExceeded(p, q),
        RunWithInteractorResultView::InteractorTimeLimitExceeded(
            p,
            q,
        ) => RunAndInteractResultView::InteractorTimeLimitExceeded(p, q),
        RunWithInteractorResultView::InteractorOutputLimitExceeded(
            p,
            q,
        ) => RunAndInteractResultView::InteractorOutputLimitExceeded(p, q),
        RunWithInteractorResultView::Success(p, q) => RunAndInteractResultView::Success(p, q),
    }
}

/// Whether an outcome is one the interactor-side promotion applies to: a
/// failure not yet attributed to the interactor.
pub open spec fn interactor_promotable(v: RunAndInteractResultView) -> bool {
    match v {
        RunAndInteractResultView::PermissionDenied => true,
        RunAndInteractResultView::SettingError => true,
        RunAndInteractResultView::InternalError(_) => true,
        RunAndInteractResultView::CompileError(_) => true,
        RunAndInteractResultView::RuntimeError(_, _) => true,
        RunAndInteractResultView::MemoryLimitExceeded(_, _) => true,
        RunAndInteractResultView::TimeLimitExceeded(_, _) => true,
        RunAndInteractResultView::OutputLimitExceeded(_, _) => true,
        _ => false,
    }
}

/// Relabels a failure as the interactor's. Infrastructure failures stay as
/// they are; submission-stage labels gain their `Interactor` prefix.
/// A non-promotable value never reaches this; those arms are arbitrary.
pub open spec fn interactor_promotion(v: RunAndInteractResultView) -> RunAndInteractResultView
    recommends
        interactor_promotable(v),
{
    match v {
        RunAndInteractResultView::PermissionDenied => RunAndInteractResultView::PermissionDenied,
        RunAndInteractResultView::SettingError => RunAndInteractResultView::SettingError,
        RunAndInteractResultView::InternalError(s) => RunAndInteractResultView::InternalError(s),
        RunAndInteractResultView::CompileError(s) => RunAndInteractResultView::InteractorCompileError(
            s,
        ),
        RunAndInteractResultView::RuntimeError(
            p,
            q,
        ) => RunAndInteractResultView::InteractorRuntimeError(p, q),
        RunAndInteractResultView::MemoryLimitExceeded(
            p,
            q,
        ) => RunAndInteractResultView::InteractorMemoryLimitExceeded(p, q),
        RunAndInteractResultView::TimeLimitExceeded(
            p,
            q,
        ) => RunAndInteractResultView::InteractorTimeLimitExceeded(p, q),
        RunAndInteractResultView::OutputLimitExceeded(
            p,
            q,
        ) => RunAndInteractResultView::InteractorOutputLimitExceeded(p, q),
        _ => v,
    }
}

impl Clone for RunAndInteractResult {
    fn clone(&self) -> (r: Self)
        ensures
            r@ == self@,
    {
        match self {
            RunAndInteractResult::PermissionDenied => RunAndInteractResult::PermissionDenied,
            RunAndInteractResult::SettingError => RunAndInteractResult::SettingError,
            RunAndInteractResult::InternalError(s) => RunAndInteractResult::InternalError(s.clone()),
            RunAndInteractResult::CompileError(s) => RunAndInteractResult::CompileError(s.clone()),
            RunAndInteractResult::RuntimeError(p, q) => RunAndInteractResult::RuntimeError(
                p.clone(),
                q.clone(),
            ),
            RunAndInteractResult::MemoryLimitExceeded(
                p,
                q,
            ) => RunAndInteractResult::MemoryLimitExceeded(p.clone(), q.clone()),
            RunAndInteractResult::TimeLimitExceeded(p, q) => RunAndInteractResult::TimeLimitExceeded(
                p.clone(),
                q.clone(),
            ),
            RunAndInteractResult::OutputLimitExceeded(
                p,
                q,
            ) => RunAndInteractResult::OutputLimitExceeded(p.clone(), q.clone()),
            RunAndInteractResult::InteractorCompileError(
                s,
            ) => RunAndInteractResult::InteractorCompileError(s.clone()),
            RunAndInteractResult::InteractorRuntimeError(
                p,
                q,
            ) => RunAndInteractResult::InteractorRuntimeError(p.clone(), q.clone()),
            RunAndInteractResult::InteractorMemoryLimitExceeded(
                p,
                q,
            ) => RunAndInteractResult::InteractorMemoryLimitExceeded(p.clone(), q.clone()),
            RunAndInteractResult::InteractorTimeLimitExceeded(
                p,
                q,
            ) => RunAndInteractResult::InteractorTimeLimitExceeded(p.clone(), q.clone()),
            RunAndInteractResult::InteractorOutputLimitExceeded(
                p,
                q,
            ) => RunAndInteractResult::InteractorOutputLimitExceeded(p.clone(), q.clone()),
            RunAndInteractResult::Success(p, q) => RunAndInteractResult::Success(
                p.clone(),
                q.clone(),
            ),
        }
    }
}

impl RunAndInteractResult {
    pub fn is_ok(&self) -> (r: bool)
        ensures
            r == (self@ is Success),
    {
        match self {
            RunAndInteractResult::Success(_, _) => true,
            _ => false,
        }
    }

    pub fn unwrap(self) -> (r: (ProcessResource, ProcessResource))
        requires
            self@ is Success,
        ensures
            self@ == RunAndInteractResultView::Success(r.0@, r.1@),
    {
        match self {
            RunAndInteractResult::Success(i, j) => (i, j),
            _ => vstd::pervasive::unreached(),
        }
    }

    /// Lifts a compile-stage failure of the tested program into this
    /// scenario's outcome.
    pub fn from_compile(i: CompileResult) -> (r: Self)
        requires
            !(i@ is Success),
        ensures
            r@ == run_and_interact_of_compile(i@),
    {
        match i {
            CompileResult::SettingError => RunAndInteractResult::SettingError,
            CompileResult::InternalError(s) => RunAndInteractResult::InternalError(s),
            CompileResult::CompileError(s) => RunAndInteractResult::CompileError(s),
            CompileResult::Success(_) => vstd::pervasive::unreached(),
        }
    }

    /// Lifts a session-initialization failure of the tested program into
    /// this scenario's outcome.
    pub fn from_init(i: InitExeResourceResult) -> (r: Self)
        requires
            !(i@ is Success),
        ensures
            r@ == run_and_interact_of_init(i@),
    {
        match i {
            InitExeResourceResult::PermissionDenied => RunAndInteractResult::PermissionDenied,
            InitExeResourceResult::InternalError(s) => RunAndInteractResult::InternalError(s),
            InitExeResourceResult::Success(_) => vstd::pervasive::unreached(),
        }
    }

    /// Lifts an interactive-run outcome into this scenario's outcome.
    pub fn from_interactor_run(i: RunWithInteractorResult) -> (r: Self)
        ensures
            r@ == run_and_interact_of_run(i@),
    {
        match i {
            RunWithInteractorResult::InternalError(s) => RunAndInteractResult::InternalError(s),
            RunWithInteractorResult::RuntimeError(p, q) => RunAndInteractResult::RuntimeError(p, q),
            RunWithInteractorResult::MemoryLimitExceeded(
                p,
                q,
            ) => RunAndInteractResult::MemoryLimitExceeded(p, q),
            RunWithInteractorResult::TimeLimitExceeded(
                p,
                q,
            ) => RunAndInteractResult::TimeLimitExceeded(p, q),
            RunWithInteractorResult::OutputLimitExceeded(
                p,
                q,
            ) => RunAndInteractResult::OutputLimitExceeded(p, q),
            RunWithInteractorResult::InteractorRuntimeError(
                p,
                q,
            ) => RunAndInteractResult::InteractorRuntimeError(p, q),
            RunWithInteractorResult::InteractorMemoryLimitExceeded(
                p,
                q,
            ) => RunAndInteractResult::InteractorMemoryLimitExceeded(p, q),
            RunWithInteractorResult::InteractorTimeLimitExceeded(
                p,
                q,
            ) => RunAndInteractResult::InteractorTimeLimitExceeded(p, q),
            RunWithInteractorResult::InteractorOutputLimitExceeded(
                p,
                q,
            ) => RunAndInteractResult::InteractorOutputLimitExceeded(p, q),
            RunWithInteractorResult::Success(p, q) => RunAndInteractResult::Success(p, q),
        }
    }

    /// Relabels a not-yet-attributed failure as the interactor's: the
    /// interactor, not the tested program, is the one that failed to
    /// compile or initialize.
    pub fn to_interactor(&self) -> (r: Self)
        requires
            interactor_promotable(self@),
        ensures
            r@ == interactor_promotion(self@),
    {
        match self {
            RunAndInteractResult::PermissionDenied => RunAndInteractResult::PermissionDenied,
            RunAndInteractResult::SettingError => RunAndInteractResult::SettingError,
            RunAndInteractResult::InternalError(s) => RunAndInteractResult::InternalError(s.clone()),
            RunAndInteractResult::CompileError(s) => RunAndInteractResult::InteractorCompileError(
                s.clone(),
            ),
            RunAndInteractResult::RuntimeError(
                p,
                q,
            ) => RunAndInteractResult::InteractorRuntimeError(p.clone(), q.clone()),
            RunAndInteractResult::MemoryLimitExceeded(
                p,
                q,
            ) => RunAndInteractResult::InteractorMemoryLimitExceeded(p.clone(), q.clone()),
            RunAndInteractResult::TimeLimitExceeded(
                p,
                q,
            ) => RunAndInteractResult::InteractorTimeLimitExceeded(p.clone(), q.clone()),
            RunAndInteractResult::OutputLimitExceeded(
                p,
                q,
            ) => RunAndInteractResult::InteractorOutputLimitExceeded(p.clone(), q.clone()),
            _ => vstd::pervasive::unreached(),
        }
    }
}

} // verus!
