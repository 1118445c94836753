//! Interpreted languages without a handler of their own (Python among them):
//! the files are written as given and the entry file is run with the
//! configured runtime and its arguments.
use vstd::prelude::*;
use crate::config::models::{LangConfig, ReqMulti};
use crate::languages::{
    files_view, join_path, joined_path, write_of, writes_view, FileWrite, LanguageHandler,
    Preparation, PreparedProgram,
};
use crate::text::{extend_strings, views};

verus! {

/// Runs programs of an interpreted language as its settings say.
pub struct InterpretedHandler<'a> {
    config: &'a LangConfig,
}

impl<'a> InterpretedHandler<'a> {
    /// The settings this handler uses.
    pub closed spec fn settings(&self) -> LangConfig {
        *self.config
    }

    pub fn new(config: &'a LangConfig) -> (r: Self)
        ensures
            r.settings() == *config,
    {
        InterpretedHandler { config }
    }
}

impl<'a> LanguageHandler for InterpretedHandler<'a> {
    fn prepare(&self, work_dir: &str, req: &ReqMulti) -> (r: Preparation)
        ensures
            writes_view(r.writes@) == files_view(req.files@),
            match r.outcome {
                Ok(p) => p.entry_name@ == req.entry_file@ && p.sources is None
                    && p.entry_file@ == joined_path(work_dir@, req.entry_file@),
                Err(_) => false,
            },
    {
        let mut writes: Vec<FileWrite> = Vec::new();
        let mut i: usize = 0;
        while i < req.files.len()
            invariant
                i <= req.files.len(),
                writes_view(writes@) == files_view(req.files@.take(i as int)),
            decreases req.files.len() - i,
        {
            let ghost before = writes@;
            writes.push(write_of(&req.files[i]));
            i = i + 1;
            assert(writes_view(writes@) =~= writes_view(before).push(writes_view(writes@).last()));
            assert(files_view(req.files@.take(i as int)) =~= files_view(req.files@.take(i - 1)).push(
                files_view(req.files@.take(i as int)).last(),
            ));
        }
        assert(req.files@.take(i as int) =~= req.files@);
        let prepared = PreparedProgram {
            entry_file: join_path(work_dir, req.entry_file.as_str()),
            entry_name: req.entry_file.clone(),
            sources: None,
        };
        Preparation { writes, outcome: Ok(prepared) }
    }

    fn compile_cmd(&self, prepared: &PreparedProgram) -> (cmd: Vec<String>)
        ensures
            cmd@.len() == 0,
    {
        Vec::new()
    }

    fn run_cmd(&self, prepared: &PreparedProgram) -> (cmd: Vec<String>)
        ensures
            views(cmd@) == seq![self.settings().runtime_path@] + views(self.settings().runtime_args@)
                + seq![prepared.entry_name@],
    {
        let mut cmd: Vec<String> = Vec::new();
        cmd.push(self.config.runtime_path.clone());
        assert(views(cmd@) =~= seq![self.config.runtime_path@]);
        extend_strings(&mut cmd, &self.config.runtime_args);
        let ghost before = cmd@;
        cmd.push(prepared.entry_name.clone());
        assert(views(cmd@) =~= views(before).push(prepared.entry_name@));
        cmd
    }
}

/// A handler is fixed by its settings.
pub proof fn lemma_settings_determine(a: InterpretedHandler, b: InterpretedHandler)
    requires
        a.settings() == b.settings(),
    ensures
        a == b,
{
    assert(a.config == b.config);
}

} // verus!
