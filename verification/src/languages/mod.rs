//! Turning a request into files to write and commands to run, per language.
pub mod cpp;
pub mod interpreted;
pub mod java;
pub mod javascript;

use vstd::prelude::*;
use crate::config::models::{File, LangConfig, ReqMulti};
use crate::config::utils::{get_lang_config, unsupported_language_message};
use crate::registry::LangRegistry;
use crate::text::{owned, same_text, views};
use self::cpp::{cpp_prep, no_sources_message, CppHandler};
use self::interpreted::InterpretedHandler;
use self::java::{java_prep, no_entry_message, JavaHandler};
use self::javascript::{entry_base_name, JavascriptHandler};

verus! {

/// A file to place in the sandbox's working directory: its path relative to
/// that directory, and its contents.
pub struct FileWrite {
    pub name: String,
    pub content: String,
}

/// What preparation settled on: the program's entry path, the name it is
/// started or built under, and, where the language lists them, its sources.
pub struct PreparedProgram {
    pub entry_file: String,
    pub entry_name: String,
    pub sources: Option<Vec<String>>,
}

/// The files to write, in order, and what follows once they are written: the
/// prepared program, or the reason preparation stopped after those writes.
pub struct Preparation {
    pub writes: Vec<FileWrite>,
    pub outcome: Result<PreparedProgram, String>,
}

/// The text of capture group 1 of a match, or the empty text when the group
/// did not take part.
pub open spec fn group_one(caps: Seq<Option<Seq<char>>>) -> Seq<char> {
    if caps.len() > 1 && caps[1] is Some {
        caps[1]->0
    } else {
        Seq::empty()
    }
}

/// The text of capture group 1 of a match, or the empty text when the group
/// did not take part.
pub fn group_one_of(caps: &Vec<Option<String>>) -> (r: String)
    ensures
        r@ == group_one(caps.deep_view()),
{
    if caps.len() > 1 {
        match &caps[1] {
            Some(s) => s.clone(),
            None => String::new(),
        }
    } else {
        String::new()
    }
}

/// A file write as plain text: (relative path, contents).
pub open spec fn write_view(w: FileWrite) -> (Seq<char>, Seq<char>) {
    (w.name@, w.content@)
}

/// The views of a sequence of file writes.
pub open spec fn writes_view(ws: Seq<FileWrite>) -> Seq<(Seq<char>, Seq<char>)> {
    ws.map_values(|w: FileWrite| write_view(w))
}

/// A request file as plain text: (name, contents).
pub open spec fn file_view(f: File) -> (Seq<char>, Seq<char>) {
    (f.name@, f.content@)
}

/// The views of a sequence of request files.
pub open spec fn files_view(fs: Seq<File>) -> Seq<(Seq<char>, Seq<char>)> {
    fs.map_values(|f: File| file_view(f))
}

/// A single plain path component on every platform: not empty, no `/`,
/// `\\` or `:`, and neither `.` nor `..`.
pub open spec fn ordinary_name(n: Seq<char>) -> bool {
    &&& n.len() > 0
    &&& !n.contains('/')
    &&& !n.contains('\\')
    &&& !n.contains(':')
    &&& n != "."@
    &&& n != ".."@
}

/// `Path::join`, as text: the path of `rel` adjoined to `base` under the path
/// rules of the target the program is built for.
pub uninterp spec fn joined_path(base: Seq<char>, rel: Seq<char>) -> Seq<char>;

/// `Path::file_name`, as text: the final component of `path` under the path
/// rules of the target the program is built for, if it has one.
pub uninterp spec fn final_component(path: Seq<char>) -> Option<Seq<char>>;

/// `Path::join` followed by a lossless conversion back to text (both
/// arguments are valid UTF-8, so nothing is replaced). Claimed: the result is
/// `joined_path` of the arguments, and adjoining a single plain name makes
/// that name the final component of the result, whatever the platform (the
/// documentation of `PathBuf::push`: a relative path is adjoined as further
/// components). What the separator is, and what happens to other names, is
/// left to the platform and not stated.
#[verifier::external_body]
pub(crate) fn join_path(base: &str, rel: &str) -> (r: String)
    ensures
        r@ == joined_path(base@, rel@),
        ordinary_name(rel@) ==> final_component(r@) == Some(rel@),
{
    std::path::Path::new(base).join(rel).to_string_lossy().into_owned()
}

/// `Path::file_name` converted back to text (the path is valid UTF-8, so
/// nothing is replaced). Claimed: the result is `final_component` of the
/// path.
#[verifier::external_body]
pub(crate) fn path_file_name(path: &str) -> (r: Option<String>)
    ensures
        r.deep_view() == final_component(path@),
{
    std::path::Path::new(path).file_name().map(|n| n.to_string_lossy().into_owned())
}

/// A copy of a request file, to be written under its own name.
pub fn write_of(file: &File) -> (w: FileWrite)
    ensures
        write_view(w) == file_view(*file),
{
    FileWrite { name: file.name.clone(), content: file.content.clone() }
}

/// The steps every language takes with a request.
pub trait LanguageHandler {
    /// The files to write for `req` under `work_dir`, and the program that
    /// results (or why there is none).
    fn prepare(&self, work_dir: &str, req: &ReqMulti) -> Preparation;

    /// The command that builds a prepared program.
    fn compile_cmd(&self, prepared: &PreparedProgram) -> Vec<String>;

    /// The command that runs a prepared program.
    fn run_cmd(&self, prepared: &PreparedProgram) -> Vec<String>;
}

/// The languages the engine knows how to prepare.
#[derive(PartialEq, Eq, Structural)]
pub enum LanguageKind {
    Cpp,
    Java,
    Javascript,
    Interpreted,
}

/// The handler kind that serves a language name with settings `config`, if
/// any: C++, Java and JavaScript have their own; any other language that is
/// not compiled is run by its runtime as it is.
pub open spec fn kind_of(language: Seq<char>, config: LangConfig) -> Option<LanguageKind> {
    if language == "cpp"@ {
        Some(LanguageKind::Cpp)
    } else if language == "java"@ {
        Some(LanguageKind::Java)
    } else if language == "javascript"@ {
        Some(LanguageKind::Javascript)
    } else if !config.compile {
        Some(LanguageKind::Interpreted)
    } else {
        None
    }
}

/// A prepared program as plain values: (entry path, entry name, sources).
pub open spec fn program_view(p: PreparedProgram) -> (Seq<char>, Seq<char>, Option<Seq<Seq<char>>>) {
    (p.entry_file@, p.entry_name@, match p.sources {
        Some(s) => Some(views(s@)),
        None => None,
    })
}

/// The handler of one supported language, with that language's settings.
pub enum Handler<'a> {
    Cpp(CppHandler<'a>),
    Java(JavaHandler<'a>),
    Javascript(JavascriptHandler<'a>),
    Interpreted(InterpretedHandler<'a>),
}

impl<'a> Handler<'a> {
    /// Which language this handler serves.
    pub open spec fn kind(&self) -> LanguageKind {
        match self {
            Handler::Cpp(_) => LanguageKind::Cpp,
            Handler::Java(_) => LanguageKind::Java,
            Handler::Javascript(_) => LanguageKind::Javascript,
            Handler::Interpreted(_) => LanguageKind::Interpreted,
        }
    }

    /// The settings this handler uses.
    pub open spec fn settings(&self) -> LangConfig {
        match self {
            Handler::Cpp(h) => h.settings(),
            Handler::Java(h) => h.settings(),
            Handler::Javascript(h) => h.settings(),
            Handler::Interpreted(h) => h.settings(),
        }
    }

    /// The files that preparing `files` writes, in order.
    pub open spec fn prep_writes(&self, files: Seq<File>, entry: Seq<char>) -> Seq<(Seq<char>, Seq<char>)> {
        match self {
            Handler::Cpp(_) => cpp_prep(files).0,
            Handler::Java(_) => java_prep(files, entry).0,
            Handler::Javascript(_) => files_view(files),
            Handler::Interpreted(_) => files_view(files),
        }
    }

    /// How preparing `files` under `work_dir` ends: the prepared program, as
    /// plain values, or the reason there is none.
    pub open spec fn prep_outcome(&self, work_dir: Seq<char>, files: Seq<File>, entry: Seq<char>) -> Result<
        (Seq<char>, Seq<char>, Option<Seq<Seq<char>>>),
        Seq<char>,
    > {
        match self {
            Handler::Cpp(_) => match cpp_prep(files).1 {
                Err(e) => Err(e),
                Ok(sources) => if sources.len() == 0 {
                    Err(no_sources_message())
                } else {
                    Ok((work_dir, "solution"@, Some(sources)))
                },
            },
            Handler::Java(_) => match java_prep(files, entry).1 {
                Err(e) => Err(e),
                Ok(None) => Err(no_entry_message()),
                Ok(Some(n)) => Ok((joined_path(work_dir, n + ".java"@), n, None)),
            },
            Handler::Javascript(_) => Ok((joined_path(work_dir, entry), entry, None)),
            Handler::Interpreted(_) => Ok((joined_path(work_dir, entry), entry, None)),
        }
    }

    /// Prepares `req` under `work_dir` with the handler of its language.
    pub fn prepare(&self, work_dir: &str, req: &ReqMulti) -> (r: Preparation)
        ensures
            writes_view(r.writes@) == self.prep_writes(req.files@, req.entry_file@),
            self.kind() == LanguageKind::Javascript && ordinary_name(req.entry_file@) ==> (match r.outcome {
                Ok(p) => final_component(p.entry_file@) == Some(req.entry_file@),
                Err(_) => false,
            }),
            match self.prep_outcome(work_dir@, req.files@, req.entry_file@) {
                Ok(v) => (match r.outcome {
                    Ok(p) => program_view(p) == v,
                    Err(_) => false,
                }),
                Err(e) => (match r.outcome {
                    Err(m) => m@ == e,
                    Ok(_) => false,
                }),
            },
    {
        match self {
            Handler::Cpp(h) => h.prepare(work_dir, req),
            Handler::Java(h) => h.prepare(work_dir, req),
            Handler::Javascript(h) => h.prepare(work_dir, req),
            Handler::Interpreted(h) => h.prepare(work_dir, req),
        }
    }

    /// `cmd` is the build command of `prepared` for this handler.
    pub open spec fn is_compile_cmd(&self, prepared: PreparedProgram, cmd: Seq<String>) -> bool {
        match self {
            Handler::Cpp(h) => views(cmd) == seq![h.settings().compiler_path@] + views(
                h.settings().compiler_args@,
            ) + (match prepared.sources {
                Some(s) => views(s@),
                None => Seq::<Seq<char>>::empty(),
            }) + seq!["-o"@, prepared.entry_name@],
            Handler::Java(h) => views(cmd) == seq![h.settings().compiler_path@] + views(
                h.settings().compiler_args@,
            ) + seq![prepared.entry_name@ + ".java"@],
            Handler::Javascript(_) => cmd.len() == 0,
            Handler::Interpreted(_) => cmd.len() == 0,
        }
    }

    /// `cmd` is the run command of `prepared` for this handler.
    pub open spec fn is_run_cmd(&self, prepared: PreparedProgram, cmd: Seq<String>) -> bool {
        match self {
            Handler::Cpp(_) => views(cmd) == seq!["./"@ + prepared.entry_name@],
            Handler::Java(h) => views(cmd) == seq![h.settings().runtime_path@] + views(
                h.settings().runtime_args@,
            ) + seq![prepared.entry_name@],
            Handler::Javascript(h) => views(cmd) == seq![h.settings().runtime_path@] + views(
                h.settings().runtime_args@,
            ) + seq![entry_base_name(prepared.entry_file@)],
            Handler::Interpreted(h) => views(cmd) == seq![h.settings().runtime_path@] + views(
                h.settings().runtime_args@,
            ) + seq![prepared.entry_name@],
        }
    }

    /// The build command of a prepared program.
    pub fn compile_cmd(&self, prepared: &PreparedProgram) -> (cmd: Vec<String>)
        ensures
            self.is_compile_cmd(*prepared, cmd@),
    {
        match self {
            Handler::Cpp(h) => h.compile_cmd(prepared),
            Handler::Java(h) => h.compile_cmd(prepared),
            Handler::Javascript(h) => h.compile_cmd(prepared),
            Handler::Interpreted(h) => h.compile_cmd(prepared),
        }
    }

    /// The run command of a prepared program.
    pub fn run_cmd(&self, prepared: &PreparedProgram) -> (cmd: Vec<String>)
        ensures
            self.is_run_cmd(*prepared, cmd@),
    {
        match self {
            Handler::Cpp(h) => h.run_cmd(prepared),
            Handler::Java(h) => h.run_cmd(prepared),
            Handler::Javascript(h) => h.run_cmd(prepared),
            Handler::Interpreted(h) => h.run_cmd(prepared),
        }
    }
}

/// The handler for `language`, carrying its settings. An unknown language,
/// and a compiled language without a handler of its own, are refused with
/// the same message.
pub fn get_handler<'a>(registry: &'a LangRegistry<LangConfig>, language: &str) -> (r: Result<
    Handler<'a>,
    String,
>)
    ensures
        match r {
            Ok(h) => registry@.contains_key(language@)
                && kind_of(language@, registry@[language@]) == Some(h.kind())
                && h.settings() == registry@[language@],
            Err(e) => (!registry@.contains_key(language@) || kind_of(language@, registry@[language@]) is None)
                && e@ == unsupported_language_message(language@),
        },
{
    let config = get_lang_config(registry, language)?;
    if same_text(language, "cpp") {
        Ok(Handler::Cpp(CppHandler::new(config)))
    } else if same_text(language, "java") {
        Ok(Handler::Java(JavaHandler::new(config)))
    } else if same_text(language, "javascript") {
        Ok(Handler::Javascript(JavascriptHandler::new(config)))
    } else if !config.compile {
        Ok(Handler::Interpreted(InterpretedHandler::new(config)))
    } else {
        let mut msg = owned("Unsupported language: ");
        msg.append(language);
        Err(msg)
    }
}

/// A handler is fixed by its kind and its settings.
pub proof fn lemma_handler_determined(h1: Handler, h2: Handler)
    requires
        h1.kind() == h2.kind(),
        h1.settings() == h2.settings(),
    ensures
        h1 == h2,
{
    match (h1, h2) {
        (Handler::Cpp(a), Handler::Cpp(b)) => cpp::lemma_settings_determine(a, b),
        (Handler::Java(a), Handler::Java(b)) => java::lemma_settings_determine(a, b),
        (Handler::Javascript(a), Handler::Javascript(b)) => javascript::lemma_settings_determine(a, b),
        (Handler::Interpreted(a), Handler::Interpreted(b)) => interpreted::lemma_settings_determine(a, b),
        _ => {},
    }
}

} // verus!
