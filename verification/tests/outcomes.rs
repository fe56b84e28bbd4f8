use emjudge_judgecore::framing::{eval_input_for_ans, eval_input_for_run};
use emjudge_judgecore::quantity::{MemorySize, ProcessResource, TimeSpan};
use emjudge_judgecore::result::{
    AnsAndEvalResult, CompileResult, InitExeResourceResult, OnlyRunResult, RunAndEvalResult,
    RunAndInteractResult, RunToEndResult, RunWithInteractorResult,
};

fn resource(ms: u64, bytes: usize) -> ProcessResource {
    ProcessResource {
        runtime: TimeSpan::from_milliseconds(ms),
        memory: MemorySize::new(bytes),
        stdout: vec![],
        stderr: vec![],
    }
}

#[test]
fn checker_framing_is_length_prefixed_little_endian() {
    // The A+B checker material: input "3 4", tested stdout "7",
    // reference "7".
    let framed = eval_input_for_run(&b"3 4".to_vec(), &b"7".to_vec(), &b"7".to_vec());
    let expected = [
        &3u64.to_le_bytes()[..],
        b"3 4",
        &1u64.to_le_bytes()[..],
        b"7",
        &1u64.to_le_bytes()[..],
        b"7",
    ]
    .concat();
    assert_eq!(framed, expected);
}

#[test]
fn answer_framing_holds_two_fields() {
    let framed = eval_input_for_ans(&b"55\n".to_vec(), &b"55\n".to_vec());
    let expected = [
        &3u64.to_le_bytes()[..],
        b"55\n",
        &3u64.to_le_bytes()[..],
        b"55\n",
    ]
    .concat();
    assert_eq!(framed, expected);
    // Empty fields still carry their zero length prefix.
    let framed = eval_input_for_ans(&vec![], &vec![]);
    assert_eq!(framed, [0u64.to_le_bytes(), 0u64.to_le_bytes()].concat());
}

#[test]
fn is_ok_singles_out_success() {
    assert!(!CompileResult::SettingError.is_ok());
    assert!(!CompileResult::CompileError("e".to_string()).is_ok());
    assert!(!InitExeResourceResult::PermissionDenied.is_ok());
    assert!(RunToEndResult::Success(resource(1, 1)).is_ok());
    assert!(!RunToEndResult::TimeLimitExceeded(resource(1, 1)).is_ok());
    assert!(!RunWithInteractorResult::InternalError("e".to_string()).is_ok());
    assert!(RunWithInteractorResult::Success(resource(1, 1), resource(2, 2)).is_ok());
    assert!(OnlyRunResult::Success(resource(1, 1)).is_ok());
    assert!(!OnlyRunResult::OutputLimitExceeded(resource(1, 1)).is_ok());
    assert!(!RunAndEvalResult::EvalCompileError("e".to_string()).is_ok());
    assert!(RunAndEvalResult::Success(resource(1, 1), resource(2, 2)).is_ok());
    assert!(!AnsAndEvalResult::SettingError.is_ok());
    assert!(AnsAndEvalResult::Success(resource(1, 1)).is_ok());
    assert!(!RunAndInteractResult::InteractorCompileError("e".to_string()).is_ok());
    assert!(RunAndInteractResult::Success(resource(1, 1), resource(2, 2)).is_ok());
}

#[test]
fn unwrap_hands_the_success_payload_out() {
    let p = RunToEndResult::Success(resource(7, 9)).unwrap();
    assert_eq!(p.runtime.as_milliseconds(), 7);
    assert_eq!(p.memory.as_bytes(), 9);
    let (a, b) = RunWithInteractorResult::Success(resource(1, 2), resource(3, 4)).unwrap();
    assert_eq!(a.runtime.as_milliseconds(), 1);
    assert_eq!(b.memory.as_bytes(), 4);
    let p = OnlyRunResult::Success(resource(5, 6)).unwrap();
    assert_eq!(p.memory.as_bytes(), 6);
    let (a, b) = RunAndEvalResult::Success(resource(1, 2), resource(3, 4)).unwrap();
    assert_eq!(a.memory.as_bytes(), 2);
    assert_eq!(b.runtime.as_milliseconds(), 3);
    let p = AnsAndEvalResult::Success(resource(5, 6)).unwrap();
    assert_eq!(p.runtime.as_milliseconds(), 5);
    let (_, b) = RunAndInteractResult::Success(resource(1, 2), resource(3, 4)).unwrap();
    assert_eq!(b.memory.as_bytes(), 4);
}

#[test]
fn compile_failures_lift_to_the_tested_side() {
    // The tested program's own compile error keeps the plain label.
    let r = OnlyRunResult::from_compile(CompileResult::CompileError("boom".to_string()));
    assert!(matches!(r, OnlyRunResult::CompileError(ref e) if e == "boom"));
    let r = RunAndEvalResult::from_compile(CompileResult::CompileError("boom".to_string()));
    assert!(matches!(r, RunAndEvalResult::CompileError(ref e) if e == "boom"));
    let r = RunAndInteractResult::from_compile(CompileResult::CompileError("boom".to_string()));
    assert!(matches!(r, RunAndInteractResult::CompileError(ref e) if e == "boom"));
    // Infrastructure labels pass through unchanged.
    let r = OnlyRunResult::from_compile(CompileResult::SettingError);
    assert!(matches!(r, OnlyRunResult::SettingError));
    let r = OnlyRunResult::from_compile(CompileResult::InternalError("io".to_string()));
    assert!(matches!(r, OnlyRunResult::InternalError(ref e) if e == "io"));
}

#[test]
fn companion_failures_gain_their_prefix() {
    // The checker's compile error is relabeled, never reported as the
    // tested program's.
    let r = RunAndEvalResult::from_compile(CompileResult::CompileError("boom".to_string()))
        .to_eval();
    assert!(matches!(r, RunAndEvalResult::EvalCompileError(ref e) if e == "boom"));
    let r = RunAndInteractResult::from_compile(CompileResult::CompileError("boom".to_string()))
        .to_interactor();
    assert!(matches!(r, RunAndInteractResult::InteractorCompileError(ref e) if e == "boom"));
    // The answer-judging scenario has only the checker, so its compile
    // error is the checker's directly.
    let r = AnsAndEvalResult::from_compile(CompileResult::CompileError("boom".to_string()));
    assert!(matches!(r, AnsAndEvalResult::EvalCompileError(ref e) if e == "boom"));
    // Infrastructure labels stay unprefixed under promotion.
    let r = RunAndEvalResult::from_compile(CompileResult::InternalError("io".to_string()))
        .to_eval();
    assert!(matches!(r, RunAndEvalResult::InternalError(ref e) if e == "io"));
    let r = RunAndInteractResult::from_init(InitExeResourceResult::PermissionDenied)
        .to_interactor();
    assert!(matches!(r, RunAndInteractResult::PermissionDenied));
}

#[test]
fn run_outcomes_lift_variant_for_variant() {
    let r = OnlyRunResult::from_run(RunToEndResult::MemoryLimitExceeded(resource(1, 2)));
    assert!(matches!(r, OnlyRunResult::MemoryLimitExceeded(_)));
    let r = OnlyRunResult::from_run(RunToEndResult::OutputLimitExceeded(resource(1, 2)));
    assert!(matches!(r, OnlyRunResult::OutputLimitExceeded(_)));
    let r = AnsAndEvalResult::from_run(RunToEndResult::TimeLimitExceeded(resource(1, 2)));
    assert!(matches!(r, AnsAndEvalResult::EvalTimeLimitExceeded(_)));
    let r = AnsAndEvalResult::from_run(RunToEndResult::Success(resource(1, 2)));
    assert!(matches!(r, AnsAndEvalResult::Success(_)));
    let r = RunAndEvalResult::from_tested_run(RunToEndResult::RuntimeError(resource(1, 2)));
    match r {
        RunAndEvalResult::RuntimeError(p, q) => {
            assert_eq!(p.runtime.as_milliseconds(), 1);
            // The checker never ran: its snapshot is the zero placeholder.
            assert_eq!(q.runtime.as_milliseconds(), 0);
            assert_eq!(q.memory.as_bytes(), 0);
        }
        other => panic!("unexpected scenario outcome: {:?}", other),
    }
    let r = RunAndEvalResult::from_eval_run(
        resource(1, 2),
        RunToEndResult::MemoryLimitExceeded(resource(3, 4)),
    );
    assert!(matches!(r, RunAndEvalResult::EvalMemoryLimitExceeded(_, _)));
    let r = RunAndInteractResult::from_interactor_run(
        RunWithInteractorResult::InteractorTimeLimitExceeded(resource(1, 2), resource(3, 4)),
    );
    assert!(matches!(r, RunAndInteractResult::InteractorTimeLimitExceeded(_, _)));
    let r = RunAndInteractResult::from_interactor_run(RunWithInteractorResult::Success(
        resource(1, 2),
        resource(3, 4),
    ));
    assert!(matches!(r, RunAndInteractResult::Success(_, _)));
}
