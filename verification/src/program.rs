//! Programs on their way through the judge: raw submitted source, the
//! compiled artifact, and the per-session execution resources.
//!
//! Compilation itself is outside work (a compiler collaborator run by the
//! host); what stands here is the decision logic around it: the
//! interpreted-language fast path, the collection of declared artifacts
//! after a compile run, and the splitting of an execute command line into
//! command and arguments.

use vstd::prelude::*;

use crate::result::CompileResult;
use crate::quantity::clone_bytes;
use crate::settings::{CompileAndExeSetting, SettingView};
use crate::text::{split_tokens, tokens};

verus! {

/// Splits an execute command line into the command itself and its
/// arguments, on whitespace. The line must hold at least one token.
pub fn turn_command_into_command_and_args(command: &str) -> (r: (String, Vec<String>))
    requires
        tokens(command@).len() > 0,
    ensures
        r.0@ == tokens(command@)[0],
        r.1.deep_view() == tokens(command@).skip(1),
{
    let mut toks = split_tokens(command);
    let cmd = toks.remove(0);
    proof {
        assert(cmd@ == tokens(command@)[0]);
        assert(toks.deep_view() =~~= tokens(command@).skip(1));
    }
    (cmd, toks)
}

/// Submitted source code together with the language template it is to be
/// compiled and executed under.
#[derive(Debug)]
pub struct RawCode {
    pub code: Vec<u8>,
    pub compile_and_exe_setting: CompileAndExeSetting,
}

/// Mathematical image of a [`RawCode`].
pub ghost struct RawCodeView {
    pub code: Seq<u8>,
    pub setting: SettingView,
}

impl View for RawCode {
    type V = RawCodeView;

    open spec fn view(&self) -> RawCodeView {
        RawCodeView { code: self.code@, setting: self.compile_and_exe_setting@ }
    }
}

impl Clone for RawCode {
    fn clone(&self) -> (r: Self)
        ensures
            r@ == self@,
    {
        RawCode {
            code: clone_bytes(&self.code),
            compile_and_exe_setting: self.compile_and_exe_setting.clone(),
        }
    }
}

impl RawCode {
    pub fn new(code: &Vec<u8>, compile_and_exe_setting: &CompileAndExeSetting) -> (r: Self)
        ensures
            r@.code == code@,
            r@.setting == compile_and_exe_setting@,
    {
        Self {
            code: clone_bytes(code),
            compile_and_exe_setting: compile_and_exe_setting.clone(),
        }
    }

    /// Whether this code must go through an external compile step before it
    /// can run.
    pub fn needs_compile_step(&self) -> (r: bool)
        ensures
            r == (self@.setting.compile_command.len() > 0),
    {
        !self.compile_and_exe_setting.compile_command.as_str().is_empty()
    }

    /// The artifact of a language with no compile step: the raw source
    /// itself, under the single declared artifact name. A template that
    /// declares no compile step must declare exactly one artifact;
    /// otherwise the template is at fault, not the submission.
    pub fn direct_artifact(&self) -> (r: CompileResult)
        requires
            self@.setting.compile_command.len() == 0,
        ensures
            self@.setting.exe_files.len() == 1 ==> (r@ matches crate::result::CompileResultView::Success(
                code,
            ) && code.exe_files == seq![(self@.setting.exe_files[0], self@.code)]
                && code.setting == self@.setting),
            self@.setting.exe_files.len() != 1 ==> r@
                is SettingError,
    {
        if self.compile_and_exe_setting.exe_files.len() != 1 {
            return CompileResult::SettingError;
        }
        let name = self.compile_and_exe_setting.exe_files[0].clone();
        let mut exe_files: Vec<(String, Vec<u8>)> = Vec::new();
        exe_files.push((name, clone_bytes(&self.code)));
        let code = ExeCode {
            exe_files,
            compile_and_exe_setting: self.compile_and_exe_setting.clone(),
        };
        proof {
            assert(code@.exe_files =~~= seq![(self@.setting.exe_files[0], self@.code)]);
        }
        CompileResult::Success(code)
    }
}

/// The outcome of the host's attempt to read one declared artifact file
/// after the compile run.
#[derive(Debug)]
pub enum ArtifactRead {
    /// The file existed; these are its bytes.
    Found(Vec<u8>),
    /// The file did not exist: the compiler produced nothing, so the
    /// submission failed to build.
    Missing,
    /// Reading failed for an unrelated reason; the payload is the error's
    /// text.
    Failed(String),
}

/// Mathematical image of an [`ArtifactRead`].
pub ghost enum ArtifactReadView {
    Found(Seq<u8>),
    Missing,
    Failed(Seq<char>),
}

impl View for ArtifactRead {
    type V = ArtifactReadView;

    open spec fn view(&self) -> ArtifactReadView {
        match self {
            ArtifactRead::Found(bytes) => ArtifactReadView::Found(bytes@),
            ArtifactRead::Missing => ArtifactReadView::Missing,
            ArtifactRead::Failed(msg) => ArtifactReadView::Failed(msg@),
        }
    }
}

impl DeepView for ArtifactRead {
    type V = ArtifactReadView;

    open spec fn deep_view(&self) -> ArtifactReadView {
        self.view()
    }
}

/// A compiled artifact: a map from artifact file name to its bytes, plus
/// the template it was built under. Immutable once produced; one artifact
/// may back many sessions.
#[derive(Debug)]
pub struct ExeCode {
    pub exe_files: Vec<(String, Vec<u8>)>,
    pub compile_and_exe_setting: CompileAndExeSetting,
}

/// Mathematical image of an [`ExeCode`].
pub ghost struct ExeCodeView {
    pub exe_files: Seq<(Seq<char>, Seq<u8>)>,
    pub setting: SettingView,
}

/// The artifact map a vector of name/bytes pairs denotes.
pub open spec fn exe_files_view(v: Seq<(String, Vec<u8>)>) -> Seq<(Seq<char>, Seq<u8>)> {
    Seq::new(v.len(), |i: int| (v[i].0@, v[i].1@))
}

impl View for ExeCode {
    type V = ExeCodeView;

    open spec fn view(&self) -> ExeCodeView {
        ExeCodeView {
            exe_files: exe_files_view(self.exe_files@),
            setting: self.compile_and_exe_setting@,
        }
    }
}

/// What the artifact map must hold after a compile run whose per-file read
/// outcomes were `reads`, paired positionally with the declared artifact
/// names.
pub open spec fn collected_artifacts(
    names: Seq<Seq<char>>,
    reads: Seq<ArtifactReadView>,
) -> Seq<(Seq<char>, Seq<u8>)> {
    Seq::new(
        names.len(),
        |i: int|
            (
                names[i],
                match reads[i] {
                    ArtifactReadView::Found(bytes) => bytes,
                    _ => seq![],
                },
            ),
    )
}

/// The first read outcome at or after `i` that is not `Found`, if any.
pub open spec fn first_failed_read_from(reads: Seq<ArtifactReadView>, i: int) -> Option<int>
    decreases reads.len() - i,
{
    if i < 0 || i >= reads.len() {
        None
    } else if !(reads[i] is Found) {
        Some(i)
    } else {
        first_failed_read_from(reads, i + 1)
    }
}

/// The first read outcome that is not `Found`, if any.
pub open spec fn first_failed_read(reads: Seq<ArtifactReadView>) -> Option<int> {
    first_failed_read_from(reads, 0)
}

/// Collects the declared artifacts after an external compile run.
///
/// `reads` holds, for each declared artifact name in order, the host's
/// attempt to read that file. Walking them in order: the first missing file
/// means the compiler produced nothing for the submission, so the compiler's
/// stderr transcript is the submission's compile error; the first unrelated
/// read failure is an internal error; if every file was found but the
/// template declared none at all, the template is at fault. Otherwise the
/// artifact map pairs each declared name with its bytes.
pub fn assemble_artifacts(
    setting: &CompileAndExeSetting,
    reads: Vec<ArtifactRead>,
    compiler_stderr: String,
) -> (r: CompileResult)
    requires
        reads@.len() == setting@.exe_files.len(),
    ensures
        match first_failed_read(reads.deep_view()) {
            Some(k) => {
                &&& reads.deep_view()[k] matches ArtifactReadView::Missing ==> (r@
                    matches crate::result::CompileResultView::CompileError(msg) && msg
                    == compiler_stderr@)
                &&& reads.deep_view()[k] matches ArtifactReadView::Failed(e) ==> (r@
                    matches crate::result::CompileResultView::InternalError(msg) && msg == e)
            },
            None => {
                if setting@.exe_files.len() == 0 {
                    r@ is SettingError
                } else {
                    r@ matches crate::result::CompileResultView::Success(code) && code.exe_files
                        == collected_artifacts(setting@.exe_files, reads.deep_view())
                        && code.setting == setting@
                }
            },
        },
{
    let ghost reads_v = reads.deep_view();
    let n = reads.len();
    let mut exe_files: Vec<(String, Vec<u8>)> = Vec::new();
    let mut i: usize = 0;
    while i < n
        invariant
            n == reads@.len(),
            reads.deep_view() == reads_v,
            n == setting@.exe_files.len(),
            i <= n,
            first_failed_read(reads_v) == first_failed_read_from(reads_v, i as int),
            exe_files@.len() == i,
            exe_files_view(exe_files@) =~~= collected_artifacts(
                setting@.exe_files,
                reads_v,
            ).subrange(0, i as int),
        decreases n - i,
    {
        let name = setting.exe_files[i].clone();
        proof {
            assert(setting@.exe_files[i as int] == setting.exe_files@[i as int]@);
            assert(reads_v[i as int] == reads@[i as int]@);
        }
        match &reads[i] {
            ArtifactRead::Found(bytes) => {
                let bytes = clone_bytes(bytes);
                let ghost gname = name@;
                let ghost gbytes = bytes@;
                let ghost old_files = exe_files@;
                exe_files.push((name, bytes));
                proof {
                    assert(exe_files@.len() == i + 1);
                    assert(exe_files@[i as int].0@ == gname);
                    assert(exe_files@[i as int].1@ == gbytes);
                    assert(collected_artifacts(setting@.exe_files, reads_v)[i as int]
                        == (setting@.exe_files[i as int], gbytes));
                    assert(exe_files_view(exe_files@)[i as int] == (gname, gbytes));
                    assert(reads_v[i as int] is Found);
                    assert(first_failed_read_from(reads_v, i as int) == first_failed_read_from(
                        reads_v,
                        i + 1,
                    ));
                    assert(exe_files_view(exe_files@) =~~= collected_artifacts(
                        setting@.exe_files,
                        reads_v,
                    ).subrange(0, (i + 1) as int));
                }
            },
            ArtifactRead::Missing => {
                proof {
                    assert(first_failed_read_from(reads_v, i as int) == Some(i as int));
                }
                return CompileResult::CompileError(compiler_stderr);
            },
            ArtifactRead::Failed(msg) => {
                proof {
                    assert(first_failed_read_from(reads_v, i as int) == Some(i as int));
                }
                return CompileResult::InternalError(msg.clone());
            },
        }
        i = i + 1;
    }
    assert(first_failed_read_from(reads_v, n as int) is None);
    assert(first_failed_read(reads_v) is None);
    if exe_files.len() == 0 {
        return CompileResult::SettingError;
    }
    let code = ExeCode {
        exe_files,
        compile_and_exe_setting: setting.clone(),
    };
    proof {
        assert(code@.exe_files =~~= collected_artifacts(setting@.exe_files, reads_v));
    }
    CompileResult::Success(code)
}

/// One execution sandbox's identity: the unprivileged user id it runs as,
/// its private working directory, the command that starts the artifact, and
/// the files its standard streams and interactive channels are bound to.
/// The directory and files themselves are OS resources owned by the host;
/// this value carries what the decision logic reads of them.
#[derive(Debug)]
pub struct ExeResources {
    pub uid: u32,
    pub exe_dir_path: String,
    pub exe_command: String,
    pub stdin_path: String,
    pub stdout_path: String,
    pub stderr_path: String,
    pub interactorin_path: String,
    pub interactorout_path: String,
}

/// Mathematical image of an [`ExeResources`].
pub ghost struct ExeResourcesView {
    pub uid: nat,
    pub exe_dir_path: Seq<char>,
    pub exe_command: Seq<char>,
    pub stdin_path: Seq<char>,
    pub stdout_path: Seq<char>,
    pub stderr_path: Seq<char>,
    pub interactorin_path: Seq<char>,
    pub interactorout_path: Seq<char>,
}

impl View for ExeResources {
    type V = ExeResourcesView;

    open spec fn view(&self) -> ExeResourcesView {
        ExeResourcesView {
            uid: self.uid as nat,
            exe_dir_path: self.exe_dir_path@,
            exe_command: self.exe_command@,
            stdin_path: self.stdin_path@,
            stdout_path: self.stdout_path@,
            stderr_path: self.stderr_path@,
            interactorin_path: self.interactorin_path@,
            interactorout_path: self.interactorout_path@,
        }
    }
}

} // verus!
