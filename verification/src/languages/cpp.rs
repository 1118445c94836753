//! C++: every file is checked for includes that reach outside the working
//! directory, and the `.cpp`/`.cc` files are compiled into `solution`.
use vstd::prelude::*;
use crate::config::models::{File, LangConfig, ReqMulti};
use crate::languages::{
    file_view, files_view, write_of, writes_view, FileWrite, LanguageHandler, Preparation,
    PreparedProgram,
};
use crate::pattern::{regex_finds, regex_is_match, Pattern};
use crate::text::{ends_with_str, extend_strings, has_suffix, owned, views};

verus! {

/// An `#include` whose target is absolute or climbs out with `..`.
pub const EXTERNAL_REF_PATTERN: &'static str = r#"(?m)#include\s*[<"]\s*(/|\.\.).*[>"]"#;

/// The message for code with a forbidden include.
pub open spec fn external_ref_message() -> Seq<char> {
    "Compilation Error: Absolute paths or path traversal in includes is forbidden."@
}

/// What the include check answers for `code`.
pub open spec fn include_check(code: Seq<char>) -> Result<(), Seq<char>> {
    if regex_finds(EXTERNAL_REF_PATTERN@, code) {
        Err(external_ref_message())
    } else {
        Ok(())
    }
}

/// A C++ translation unit by its name.
pub open spec fn is_cpp_source(name: Seq<char>) -> bool {
    has_suffix(name, ".cpp"@) || has_suffix(name, ".cc"@)
}

/// The preparation of a C++ request with files `files`: the writes made and
/// either the reason it stopped or the source names collected, in order.
pub open spec fn cpp_prep(files: Seq<File>) -> (Seq<(Seq<char>, Seq<char>)>, Result<Seq<Seq<char>>, Seq<char>>)
    decreases files.len(),
{
    if files.len() == 0 {
        (seq![], Ok(seq![]))
    } else {
        let (writes, acc) = cpp_prep(files.drop_last());
        let f = files.last();
        match acc {
            Err(e) => (writes, Err(e)),
            Ok(sources) => match include_check(f.content@) {
                Err(e) => (writes, Err(e)),
                Ok(()) => (
                    writes.push(file_view(f)),
                    Ok(if is_cpp_source(f.name@) { sources.push(f.name@) } else { sources }),
                ),
            },
        }
    }
}

/// The message for a request with no C++ sources.
pub open spec fn no_sources_message() -> Seq<char> {
    "Compilation Error: No C++ source files found."@
}

/// Builds C++ programs with the configured compiler.
pub struct CppHandler<'a> {
    config: &'a LangConfig,
}

impl<'a> CppHandler<'a> {
    /// The settings this handler uses.
    pub closed spec fn settings(&self) -> LangConfig {
        *self.config
    }

    pub fn new(config: &'a LangConfig) -> (r: Self)
        ensures
            r.settings() == *config,
    {
        CppHandler { config }
    }

    /// Refuses code that includes a file by an absolute path or through `..`.
    pub fn check_for_security_violations(code: &str) -> (r: Result<(), String>)
        ensures
            match r {
                Ok(()) => include_check(code@) is Ok,
                Err(e) => include_check(code@) == Err::<(), Seq<char>>(e@),
            },
    {
        let p = Pattern::compile(EXTERNAL_REF_PATTERN).unwrap();
        if regex_is_match(&p, code) {
            Err(owned("Compilation Error: Absolute paths or path traversal in includes is forbidden."))
        } else {
            Ok(())
        }
    }
}

impl<'a> LanguageHandler for CppHandler<'a> {
    fn prepare(&self, work_dir: &str, req: &ReqMulti) -> (r: Preparation)
        ensures
            writes_view(r.writes@) == cpp_prep(req.files@).0,
            match cpp_prep(req.files@).1 {
                Err(e) => (match r.outcome {
                    Err(m) => m@ == e,
                    Ok(_) => false,
                }),
                Ok(sources) => if sources.len() == 0 {
                    match r.outcome {
                        Err(m) => m@ == no_sources_message(),
                        Ok(_) => false,
                    }
                } else {
                    match r.outcome {
                        Ok(p) => p.entry_file@ == work_dir@ && p.entry_name@ == "solution"@
                            && p.sources is Some && views(p.sources->0@) == sources,
                        Err(_) => false,
                    }
                },
            },
    {
        let mut writes: Vec<FileWrite> = Vec::new();
        let mut sources: Vec<String> = Vec::new();
        let mut i: usize = 0;
        assert(req.files@.take(0) =~= Seq::<File>::empty());
        assert(writes_view(writes@) =~= Seq::<(Seq<char>, Seq<char>)>::empty());
        assert(views(sources@) =~= Seq::<Seq<char>>::empty());
        while i < req.files.len()
            invariant
                i <= req.files.len(),
                cpp_prep(req.files@.take(i as int)) == (writes_view(writes@), Ok::<Seq<Seq<char>>, Seq<char>>(views(sources@))),
            decreases req.files.len() - i,
        {
            let file = &req.files[i];
            assert(req.files@.take(i + 1).drop_last() =~= req.files@.take(i as int));
            match Self::check_for_security_violations(file.content.as_str()) {
                Err(e) => {
                    proof {
                        lemma_cpp_prep_sticky(req.files@, i + 1, req.files@.len() as int);
                        assert(req.files@.take(req.files@.len() as int) =~= req.files@);
                    }
                    return Preparation { writes, outcome: Err(e) };
                },
                Ok(()) => {},
            }
            let ghost before = writes@;
            writes.push(write_of(file));
            assert(writes_view(writes@) =~= writes_view(before).push(file_view(*file)));
            if ends_with_str(file.name.as_str(), ".cpp") || ends_with_str(file.name.as_str(), ".cc") {
                let ghost sbefore = sources@;
                sources.push(file.name.clone());
                assert(views(sources@) =~= views(sbefore).push(file.name@));
            }
            i = i + 1;
        }
        assert(req.files@.take(i as int) =~= req.files@);
        if sources.len() == 0 {
            return Preparation { writes, outcome: Err(owned("Compilation Error: No C++ source files found.")) };
        }
        let prepared = PreparedProgram {
            entry_file: owned(work_dir),
            entry_name: owned("solution"),
            sources: Some(sources),
        };
        Preparation { writes, outcome: Ok(prepared) }
    }

    fn compile_cmd(&self, prepared: &PreparedProgram) -> (cmd: Vec<String>)
        ensures
            views(cmd@) == seq![self.settings().compiler_path@] + views(self.settings().compiler_args@)
                + (match prepared.sources {
                    Some(s) => views(s@),
                    None => Seq::<Seq<char>>::empty(),
                }) + seq!["-o"@, prepared.entry_name@],
    {
        let mut cmd: Vec<String> = Vec::new();
        cmd.push(self.config.compiler_path.clone());
        extend_strings(&mut cmd, &self.config.compiler_args);
        if let Some(sources) = &prepared.sources {
            extend_strings(&mut cmd, sources);
        }
        let ghost before = cmd@;
        cmd.push(owned("-o"));
        cmd.push(prepared.entry_name.clone());
        assert(views(cmd@) =~= views(before) + seq!["-o"@, prepared.entry_name@]);
        assert(views(seq![self.config.compiler_path]) =~= seq![self.config.compiler_path@]);
        cmd
    }

    fn run_cmd(&self, prepared: &PreparedProgram) -> (cmd: Vec<String>)
        ensures
            views(cmd@) == seq!["./"@ + prepared.entry_name@],
    {
        let mut exe = owned("./");
        exe.append(prepared.entry_name.as_str());
        let mut cmd: Vec<String> = Vec::new();
        cmd.push(exe);
        assert(views(cmd@) =~= seq!["./"@ + prepared.entry_name@]);
        cmd
    }
}

/// Once preparation has stopped, later files change nothing.
proof fn lemma_cpp_prep_sticky(files: Seq<File>, k: int, n: int)
    requires
        0 <= k <= n <= files.len(),
        cpp_prep(files.take(k)).1 is Err,
    ensures
        cpp_prep(files.take(n)) == cpp_prep(files.take(k)),
    decreases n - k,
{
    if n > k {
        lemma_cpp_prep_sticky(files, k, n - 1);
        assert(files.take(n).drop_last() =~= files.take(n - 1));
    }
}

/// When no file has a forbidden include, C++ preparation writes every file
/// of the request, in order, under its own name, and collects exactly the
/// `.cpp` and `.cc` files as sources.
pub proof fn law_cpp_writes_every_accepted_file(files: Seq<File>)
    requires
        forall|i: int| 0 <= i < files.len() ==> (#[trigger] include_check(files[i].content@)) is Ok,
    ensures
        cpp_prep(files).0 == files_view(files),
        cpp_prep(files).1 is Ok,
    decreases files.len(),
{
    if files.len() > 0 {
        let init = files.drop_last();
        assert forall|i: int| 0 <= i < init.len() implies (#[trigger] include_check(init[i].content@)) is Ok by {
            assert(init[i] == files[i]);
        }
        law_cpp_writes_every_accepted_file(init);
        assert(include_check(files[files.len() - 1].content@) is Ok);
        assert(files_view(files) =~= files_view(init).push(file_view(files.last())));
    }
}

/// The sources of a C++ preparation that went through are exactly the names
/// of the request's files that end in `.cpp` or `.cc`, in the order of the
/// files; a header (`.h`, `.hpp`) or any other file is written but never
/// handed to the compiler.
pub proof fn law_cpp_sources_are_the_cpp_files(files: Seq<File>)
    ensures
        cpp_prep(files).1 matches Ok(sources) ==> sources == files.map_values(|f: File| f.name@).filter(
            |n: Seq<char>| has_suffix(n, ".cpp"@) || has_suffix(n, ".cc"@),
        ),
    decreases files.len(),
{
    if files.len() > 0 {
        let init = files.drop_last();
        law_cpp_sources_are_the_cpp_files(init);
        let names = init.map_values(|f: File| f.name@);
        assert(files.map_values(|f: File| f.name@) =~= names.push(files.last().name@));
        names.lemma_filter_push(
            files.last().name@,
            |n: Seq<char>| has_suffix(n, ".cpp"@) || has_suffix(n, ".cc"@),
        );
    }
}

/// A handler is fixed by its settings.
pub proof fn lemma_settings_determine(a: CppHandler, b: CppHandler)
    requires
        a.settings() == b.settings(),
    ensures
        a == b,
{
    assert(a.config == b.config);
}

} // verus!
