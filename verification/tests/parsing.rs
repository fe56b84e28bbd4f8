use emjudge_judgecore::cgroup::{oom_count_from_report, OomTracker};
use emjudge_judgecore::program::{
    assemble_artifacts, turn_command_into_command_and_args, ArtifactRead, RawCode,
};
use emjudge_judgecore::result::CompileResult;
use emjudge_judgecore::settings::{CompileAndExeSetting, CompileAndExeSettings};
use emjudge_judgecore::text::parse_u64;

fn cpp_setting() -> CompileAndExeSetting {
    CompileAndExeSetting {
        raw_code: "main.cpp".to_string(),
        compile_command: "g++ -O2 main.cpp -o main".to_string(),
        exe_command: "./main".to_string(),
        exe_files: vec!["main".to_string()],
        language_info_command: "g++ --version".to_string(),
    }
}

fn python_setting() -> CompileAndExeSetting {
    CompileAndExeSetting {
        raw_code: "main.py".to_string(),
        compile_command: String::new(),
        exe_command: "python3 main.py".to_string(),
        exe_files: vec!["main.py".to_string()],
        language_info_command: "python3 --version".to_string(),
    }
}

#[test]
fn command_split_into_command_and_args() {
    let (cmd, args) = turn_command_into_command_and_args("g++ -O2  main.cpp -o main");
    assert_eq!(cmd, "g++");
    assert_eq!(args, vec!["-O2", "main.cpp", "-o", "main"]);

    let (cmd, args) = turn_command_into_command_and_args("  ./main  ");
    assert_eq!(cmd, "./main");
    assert!(args.is_empty());
}

#[test]
fn parse_u64_accepts_digits_only() {
    assert_eq!(parse_u64("0"), Some(0));
    assert_eq!(parse_u64("123"), Some(123));
    assert_eq!(parse_u64("18446744073709551615"), Some(u64::MAX));
    assert_eq!(parse_u64(""), None);
    assert_eq!(parse_u64("12a"), None);
    assert_eq!(parse_u64("-3"), None);
    // One past the largest representable value.
    assert_eq!(parse_u64("18446744073709551616"), None);
}

#[test]
fn oom_report_yields_kill_counter() {
    let v1 = "oom_kill_disable 0\nunder_oom 0\noom_kill 3\n";
    assert_eq!(oom_count_from_report(v1, false), Some(3));
    let v2 = "low 0\nhigh 12\nmax 4\noom 2\noom_kill 2\noom_group_kill 0\n";
    assert_eq!(oom_count_from_report(v2, true), Some(2));
    // The key without a following counter yields nothing.
    assert_eq!(oom_count_from_report("under_oom 0\noom_kill", false), None);
    // A missing key yields nothing.
    assert_eq!(oom_count_from_report("low 0\nhigh 12\n", true), None);
    // A malformed counter yields nothing.
    assert_eq!(oom_count_from_report("oom_kill x7", false), None);
}

#[test]
fn oom_tracker_flags_counter_movement() {
    let mut t = OomTracker::new(2);
    assert!(!t.record(2));
    assert!(t.record(3));
    assert!(!t.record(3));
    assert_eq!(t.count, 3);
}

#[test]
fn language_lookup_finds_first_match() {
    let table = CompileAndExeSettings {
        languages: vec![
            ("C++".to_string(), cpp_setting()),
            ("Python".to_string(), python_setting()),
        ],
    };
    assert!(table.get_language("C++").is_some());
    assert_eq!(table.get_language("C++").unwrap().exe_command, "./main");
    assert_eq!(table.get_language("Python").unwrap().raw_code, "main.py");
    assert!(table.get_language("Rust").is_none());
    assert!(CompileAndExeSettings::default().get_language("C++").is_none());
}

#[test]
fn self_check_reports_first_invalid_entry() {
    let good = CompileAndExeSettings {
        languages: vec![("C++".to_string(), cpp_setting())],
    };
    assert_eq!(good.self_check(), Ok(()));

    let mut broken = cpp_setting();
    broken.exe_command = String::new();
    let bad = CompileAndExeSettings {
        languages: vec![
            ("C++".to_string(), cpp_setting()),
            ("Broken".to_string(), broken),
        ],
    };
    assert_eq!(bad.self_check(), Err(1));

    let nameless = CompileAndExeSettings {
        languages: vec![(String::new(), cpp_setting())],
    };
    assert_eq!(nameless.self_check(), Err(0));
}

#[test]
fn default_setting_is_all_empty() {
    let d = CompileAndExeSetting::default();
    assert!(d.raw_code.is_empty());
    assert!(d.compile_command.is_empty());
    assert!(d.exe_command.is_empty());
    assert!(d.exe_files.is_empty());
    assert!(d.language_info_command.is_empty());
    assert!(CompileAndExeSettings::default().languages.is_empty());
}

#[test]
fn direct_artifact_serves_interpreted_languages() {
    let code = RawCode::new(&b"print(1)".to_vec(), &python_setting());
    assert!(!code.needs_compile_step());
    match code.direct_artifact() {
        CompileResult::Success(exe) => {
            assert_eq!(exe.exe_files.len(), 1);
            assert_eq!(exe.exe_files[0].0, "main.py");
            assert_eq!(exe.exe_files[0].1, b"print(1)".to_vec());
        }
        other => panic!("unexpected compile outcome: {:?}", other),
    }
}

#[test]
fn direct_artifact_rejects_ambiguous_templates() {
    let mut two_files = python_setting();
    two_files.exe_files.push("extra".to_string());
    let code = RawCode::new(&b"print(1)".to_vec(), &two_files);
    assert!(matches!(code.direct_artifact(), CompileResult::SettingError));

    let mut no_files = python_setting();
    no_files.exe_files.clear();
    let code = RawCode::new(&b"print(1)".to_vec(), &no_files);
    assert!(matches!(code.direct_artifact(), CompileResult::SettingError));
}

#[test]
fn assemble_artifacts_collects_found_files() {
    let setting = cpp_setting();
    let reads = vec![ArtifactRead::Found(vec![1, 2, 3])];
    match assemble_artifacts(&setting, reads, "warnings".to_string()) {
        CompileResult::Success(exe) => {
            assert_eq!(exe.exe_files.len(), 1);
            assert_eq!(exe.exe_files[0].0, "main");
            assert_eq!(exe.exe_files[0].1, vec![1, 2, 3]);
        }
        other => panic!("unexpected compile outcome: {:?}", other),
    }
}

#[test]
fn assemble_artifacts_missing_file_is_a_compile_error() {
    let setting = cpp_setting();
    let reads = vec![ArtifactRead::Missing];
    match assemble_artifacts(&setting, reads, "main.cpp:1: error".to_string()) {
        CompileResult::CompileError(stderr) => assert_eq!(stderr, "main.cpp:1: error"),
        other => panic!("unexpected compile outcome: {:?}", other),
    }
}

#[test]
fn assemble_artifacts_read_failure_is_internal() {
    let setting = cpp_setting();
    let reads = vec![ArtifactRead::Failed("disk gone".to_string())];
    match assemble_artifacts(&setting, reads, String::new()) {
        CompileResult::InternalError(msg) => assert_eq!(msg, "disk gone"),
        other => panic!("unexpected compile outcome: {:?}", other),
    }
}

#[test]
fn assemble_artifacts_with_no_declared_files_is_a_setting_error() {
    let mut setting = cpp_setting();
    setting.exe_files.clear();
    let reads: Vec<ArtifactRead> = vec![];
    assert!(matches!(
        assemble_artifacts(&setting, reads, String::new()),
        CompileResult::SettingError
    ));
}
