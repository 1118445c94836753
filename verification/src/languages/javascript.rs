//! JavaScript: the files are written as given and the entry file is run with
//! the configured runtime.
use vstd::prelude::*;
use crate::config::models::{LangConfig, ReqMulti};
use crate::languages::{
    files_view, final_component, join_path, joined_path, ordinary_name, path_file_name, write_of, writes_view, FileWrite, LanguageHandler,
    Preparation, PreparedProgram,
};
use crate::text::{extend_strings, views};

verus! {

/// The last path component of `entry_file`, or the empty name when it has
/// none.
pub open spec fn entry_base_name(entry_file: Seq<char>) -> Seq<char> {
    match final_component(entry_file) {
        Some(n) => n,
        None => Seq::empty(),
    }
}

/// Runs JavaScript programs with the configured runtime.
pub struct JavascriptHandler<'a> {
    config: &'a LangConfig,
}

impl<'a> JavascriptHandler<'a> {
    /// The settings this handler uses.
    pub closed spec fn settings(&self) -> LangConfig {
        *self.config
    }

    pub fn new(config: &'a LangConfig) -> (r: Self)
        ensures
            r.settings() == *config,
    {
        JavascriptHandler { config }
    }

    /// The run command for an entry file whose last path component is
    /// `file_name` (the empty name when it has none): the runtime, its
    /// arguments, then that name.
    pub fn command_for(&self, file_name: Option<String>) -> (cmd: Vec<String>)
        ensures
            views(cmd@) == seq![self.settings().runtime_path@] + views(self.settings().runtime_args@)
                + seq![
                match file_name {
                    Some(n) => n@,
                    None => Seq::<char>::empty(),
                },
            ],
    {
        let mut cmd: Vec<String> = Vec::new();
        cmd.push(self.config.runtime_path.clone());
        assert(views(cmd@) =~= seq![self.config.runtime_path@]);
        extend_strings(&mut cmd, &self.config.runtime_args);
        let ghost before = cmd@;
        let name = match file_name {
            Some(n) => n,
            None => String::new(),
        };
        let ghost name_view = name@;
        cmd.push(name);
        assert(views(cmd@) =~= views(before).push(name_view));
        cmd
    }
}

impl<'a> LanguageHandler for JavascriptHandler<'a> {
    fn prepare(&self, work_dir: &str, req: &ReqMulti) -> (r: Preparation)
        ensures
            writes_view(r.writes@) == files_view(req.files@),
            match r.outcome {
                Ok(p) => p.entry_name@ == req.entry_file@ && p.sources is None
                    && p.entry_file@ == joined_path(work_dir@, req.entry_file@)
                    && (ordinary_name(req.entry_file@) ==> final_component(p.entry_file@) == Some(
                    req.entry_file@,
                )),
                Err(_) => false,
            },
    {
        let mut writes: Vec<FileWrite> = Vec::new();
        let mut i: usize = 0;
        while i < req.files.len()
            invariant
                i <= req.files.len(),
                writes_view(writes@) == files_view(req.files@.take(i as int)),
            decreases req.files.len() - i,
        {
            let ghost before = writes@;
            writes.push(write_of(&req.files[i]));
            i = i + 1;
            assert(writes_view(writes@) =~= writes_view(before).push(writes_view(writes@).last()));
            assert(files_view(req.files@.take(i as int)) =~= files_view(req.files@.take(i - 1)).push(
                files_view(req.files@.take(i as int)).last(),
            ));
        }
        assert(req.files@.take(i as int) =~= req.files@);
        let prepared = PreparedProgram {
            entry_file: join_path(work_dir, req.entry_file.as_str()),
            entry_name: req.entry_file.clone(),
            sources: None,
        };
        Preparation { writes, outcome: Ok(prepared) }
    }

    fn compile_cmd(&self, prepared: &PreparedProgram) -> (cmd: Vec<String>)
        ensures
            cmd@.len() == 0,
    {
        Vec::new()
    }

    fn run_cmd(&self, prepared: &PreparedProgram) -> (cmd: Vec<String>)
        ensures
            views(cmd@) == seq![self.settings().runtime_path@] + views(self.settings().runtime_args@)
                + seq![entry_base_name(prepared.entry_file@)],
    {
        self.command_for(path_file_name(prepared.entry_file.as_str()))
    }
}

/// A handler is fixed by its settings.
pub proof fn lemma_settings_determine(a: JavascriptHandler, b: JavascriptHandler)
    requires
        a.settings() == b.settings(),
    ensures
        a == b,
{
    assert(a.config == b.config);
}

} // verus!
