//! Per-language compile/execute templates.
//!
//! A template says where the raw source is placed, how it is compiled, how
//! the produced artifact is executed, and which artifact files the compile
//! step is expected to leave behind. A table of templates, keyed by language
//! name, is validated structurally here; probing each language's
//! `language_info_command` is outside work and is done by the host.

use vstd::prelude::*;

verus! {

/// Copies a vector of strings.
pub fn clone_strings(v: &Vec<String>) -> (r: Vec<String>)
    ensures
        r@ == v@,
{
    let mut out: Vec<String> = Vec::new();
    let n = v.len();
    for i in 0..n
        invariant
            n == v.len(),
            out@ =~= v@.subrange(0, i as int),
    {
        out.push(v[i].clone());
        assert(out@ =~= v@.subrange(0, (i + 1) as int));
    }
    assert(out@ =~= v@);
    out
}

/// One language's compile/execute template.
#[derive(Debug)]
pub struct CompileAndExeSetting {
    pub raw_code: String,
    pub compile_command: String,
    pub exe_command: String,
    pub exe_files: Vec<String>,
    pub language_info_command: String,
}

/// Mathematical image of a [`CompileAndExeSetting`].
pub ghost struct SettingView {
    pub raw_code: Seq<char>,
    pub compile_command: Seq<char>,
    pub exe_command: Seq<char>,
    pub exe_files: Seq<Seq<char>>,
    pub language_info_command: Seq<char>,
}

impl View for CompileAndExeSetting {
    type V = SettingView;

    open spec fn view(&self) -> SettingView {
        SettingView {
            raw_code: self.raw_code@,
            compile_command: self.compile_command@,
            exe_command: self.exe_command@,
            exe_files: self.exe_files.deep_view(),
            language_info_command: self.language_info_command@,
        }
    }
}

impl SettingView {
    /// The all-empty template.
    pub open spec fn empty() -> SettingView {
        SettingView {
            raw_code: seq![],
            compile_command: seq![],
            exe_command: seq![],
            exe_files: seq![],
            language_info_command: seq![],
        }
    }

    /// A template is structurally valid when every part a run needs is
    /// present.
    pub open spec fn is_valid(self) -> bool {
        &&& self.exe_command.len() > 0
        &&& self.exe_files.len() > 0
        &&& self.language_info_command.len() > 0
    }
}

impl Clone for CompileAndExeSetting {
    fn clone(&self) -> (r: Self)
        ensures
            r@ == self@,
    {
        CompileAndExeSetting {
            raw_code: self.raw_code.clone(),
            compile_command: self.compile_command.clone(),
            exe_command: self.exe_command.clone(),
            exe_files: clone_strings(&self.exe_files),
            language_info_command: self.language_info_command.clone(),
        }
    }
}

impl CompileAndExeSetting {
    pub fn default() -> (r: Self)
        ensures
            r@ == SettingView::empty(),
    {
        CompileAndExeSetting {
            raw_code: Self::raw_code_default(),
            compile_command: Self::compile_command_default(),
            exe_command: Self::exe_command_default(),
            exe_files: Self::exe_files_default(),
            language_info_command: Self::language_info_command_default(),
        }
    }

    pub fn raw_code_default() -> (r: String)
        ensures
            r@ == Seq::<char>::empty(),
    {
        String::new()
    }

    pub fn compile_command_default() -> (r: String)
        ensures
            r@ == Seq::<char>::empty(),
    {
        String::new()
    }

    pub fn exe_command_default() -> (r: String)
        ensures
            r@ == Seq::<char>::empty(),
    {
        String::new()
    }

    pub fn exe_files_default() -> (r: Vec<String>)
        ensures
            r.deep_view() == Seq::<Seq<char>>::empty(),
    {
        Vec::new()
    }

    pub fn language_info_command_default() -> (r: String)
        ensures
            r@ == Seq::<char>::empty(),
    {
        String::new()
    }
}

/// The table of language templates, keyed by language name.
#[derive(Debug)]
pub struct CompileAndExeSettings {
    pub languages: Vec<(String, CompileAndExeSetting)>,
}

/// The table a vector of name/template pairs denotes.
pub open spec fn table_view(v: Seq<(String, CompileAndExeSetting)>) -> Seq<
    (Seq<char>, SettingView),
> {
    Seq::new(v.len(), |i: int| (v[i].0@, v[i].1@))
}

impl View for CompileAndExeSettings {
    type V = Seq<(Seq<char>, SettingView)>;

    open spec fn view(&self) -> Seq<(Seq<char>, SettingView)> {
        table_view(self.languages@)
    }
}

/// Whether the table holds a language of the given name.
pub open spec fn has_language(table: Seq<(Seq<char>, SettingView)>, name: Seq<char>) -> bool {
    exists|i: int| 0 <= i < table.len() && table[i].0 == name
}

/// One table entry is acceptable when its name is nonempty and its template
/// is structurally valid.
pub open spec fn entry_ok(entry: (Seq<char>, SettingView)) -> bool {
    entry.0.len() > 0 && entry.1.is_valid()
}

impl CompileAndExeSettings {
    pub fn languages_default() -> (r: Vec<(String, CompileAndExeSetting)>)
        ensures
            r@.len() == 0,
    {
        Vec::new()
    }

    pub fn default() -> (r: Self)
        ensures
            r@.len() == 0,
    {
        CompileAndExeSettings { languages: Self::languages_default() }
    }

    /// Looks a language up by name; the first entry of that name answers.
    pub fn get_language(&self, language: &str) -> (r: Option<&CompileAndExeSetting>)
        ensures
            match r {
                Some(setting) => {
                    &&& has_language(self@, language@)
                    &&& exists|i: int|
                        {
                            &&& 0 <= i < self@.len()
                            &&& self@[i].0 == language@
                            &&& setting@ == self@[i].1
                            &&& forall|j: int| 0 <= j < i ==> self@[j].0 != language@
                        }
                },
                None => !has_language(self@, language@),
            },
    {
        let wanted: String = language.to_owned();
        let n = self.languages.len();
        for i in 0..n
            invariant
                n == self.languages.len(),
                wanted@ == language@,
                forall|j: int| 0 <= j < i ==> self@[j].0 != language@,
        {
            if self.languages[i].0 == wanted {
                proof {
                    let k = i as int;
                    assert(self@[k] == (self.languages@[k].0@, self.languages@[k].1@));
                    assert(self@[k].0 == language@);
                }
                return Some(&self.languages[i].1);
            }
        }
        None
    }

    /// Structural validity of the whole table: every language name is
    /// nonempty and every template is valid. On failure the index of the
    /// first offending entry is returned, so the host can name the language
    /// and report which part was missing.
    pub fn self_check(&self) -> (r: Result<(), usize>)
        ensures
            match r {
                Ok(()) => forall|i: int| 0 <= i < self@.len() ==> entry_ok(#[trigger] self@[i]),
                Err(bad) => {
                    &&& 0 <= bad < self@.len()
                    &&& !entry_ok(self@[bad as int])
                    &&& forall|j: int| 0 <= j < bad ==> entry_ok(#[trigger] self@[j])
                },
            },
    {
        let n = self.languages.len();
        for i in 0..n
            invariant
                n == self.languages.len(),
                forall|j: int| 0 <= j < i ==> entry_ok(#[trigger] self@[j]),
        {
            let entry = &self.languages[i];
            if entry.0.as_str().is_empty() {
                return Err(i);
            }
            if entry.1.exe_command.as_str().is_empty() {
                return Err(i);
            }
            if entry.1.exe_files.len() == 0 {
                return Err(i);
            }
            if entry.1.language_info_command.as_str().is_empty() {
                return Err(i);
            }
            assert(entry_ok(self@[i as int]));
        }
        Ok(())
    }
}

} // verus!
