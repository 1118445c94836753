//! Language settings, requests and responses.
use vstd::prelude::*;
use crate::api::utils::Validate;
use crate::text::{
    contains_str, decimal, decimal_string, has_prefix, has_substring, is_blank, is_blank_seq,
    owned, same_text, starts_with_str,
};

verus! {

/// No extra arguments.
pub fn default_vector() -> (r: Vec<String>)
    ensures
        r@.len() == 0,
{
    Vec::new()
}

/// Languages are interpreted unless they say otherwise.
pub fn default_compile() -> (r: bool)
    ensures
        r == false,
{
    false
}

/// Languages need no API token unless they say otherwise.
pub fn default_authenticate() -> (r: bool)
    ensures
        r == false,
{
    false
}

/// Default wall-clock limit, in seconds: 2.
pub fn default_time_limit() -> (r: String)
    ensures
        r@ == decimal(2),
{
    decimal_string(2)
}

/// Default CPU-time limit, in seconds: 2.
pub fn default_cpu_time_sec() -> (r: String)
    ensures
        r@ == decimal(2),
{
    decimal_string(2)
}

/// Default memory limit, in KiB: 256 MiB.
pub fn default_memory_kb() -> (r: String)
    ensures
        r@ == decimal(256 * 1024),
{
    decimal_string(256 * 1024)
}

/// Default stack limit, in KiB: 64 MiB.
pub fn default_stack_kb() -> (r: String)
    ensures
        r@ == decimal(64 * 1024),
{
    decimal_string(64 * 1024)
}

/// Default process limit: 16.
pub fn default_processes() -> (r: String)
    ensures
        r@ == decimal(16),
{
    decimal_string(16)
}

/// Default open-file limit: 64.
pub fn default_open_files() -> (r: String)
    ensures
        r@ == decimal(64),
{
    decimal_string(64)
}

/// Default file-size limit, in KiB: 1024.
pub fn default_file_size_kb() -> (r: String)
    ensures
        r@ == decimal(1024),
{
    decimal_string(1024)
}

/// The settings of one language, as the engine uses them.
#[derive(Clone, Debug)]
pub struct LangConfig {
    pub source: String,
    pub compile: bool,
    pub authenticate: bool,
    pub compiler_path: String,
    pub compiler_args: Vec<String>,
    pub runtime_path: String,
    pub runtime_args: Vec<String>,
    pub isolate_args: Vec<String>,
    pub max_time_limit: String,
    pub max_cpu_time_sec: String,
    pub max_memory_kb: String,
    pub max_stack_kb: String,
    pub max_processes: String,
    pub max_open_files: String,
    pub max_file_size_kb: String,
}

/// The settings of one language as the configuration file gives them,
/// before they are checked.
#[derive(Clone, Debug)]
pub struct RawLangConfig {
    pub source: String,
    pub compile: bool,
    pub authenticate: bool,
    pub compiler_path: Option<String>,
    pub compiler_args: Vec<String>,
    pub runtime_path: String,
    pub runtime_args: Vec<String>,
    pub isolate_args: Vec<String>,
    pub max_time_limit: String,
    pub max_cpu_time_sec: String,
    pub max_memory_kb: String,
    pub max_stack_kb: String,
    pub max_processes: String,
    pub max_open_files: String,
    pub max_file_size_kb: String,
}

/// Why raw settings are refused, if they are: an entry source that is empty
/// once trimmed, or a compiled language without a compiler.
pub open spec fn raw_config_error(raw: RawLangConfig) -> Option<Seq<char>> {
    if is_blank_seq(raw.source@) {
        Some("source can't be empty"@)
    } else if raw.compile && raw.compiler_path is None {
        Some("compiler_path is required when compile is set true"@)
    } else {
        None
    }
}

/// The checked settings made from accepted raw settings: every field carried
/// over, a missing compiler path read as the empty string.
pub open spec fn config_of_raw(raw: RawLangConfig, c: LangConfig) -> bool {
    &&& c.source == raw.source
    &&& c.compile == raw.compile
    &&& c.authenticate == raw.authenticate
    &&& c.compiler_path@ == (match raw.compiler_path {
        Some(p) => p@,
        None => Seq::<char>::empty(),
    })
    &&& c.compiler_args == raw.compiler_args
    &&& c.runtime_path == raw.runtime_path
    &&& c.runtime_args == raw.runtime_args
    &&& c.isolate_args == raw.isolate_args
    &&& c.max_time_limit == raw.max_time_limit
    &&& c.max_cpu_time_sec == raw.max_cpu_time_sec
    &&& c.max_memory_kb == raw.max_memory_kb
    &&& c.max_stack_kb == raw.max_stack_kb
    &&& c.max_processes == raw.max_processes
    &&& c.max_open_files == raw.max_open_files
    &&& c.max_file_size_kb == raw.max_file_size_kb
}

impl LangConfig {
    /// Checks raw settings and turns them into the settings the engine uses.
    pub fn from_raw(raw: RawLangConfig) -> (r: Result<LangConfig, String>)
        ensures
            match r {
                Ok(c) => raw_config_error(raw) is None && config_of_raw(raw, c),
                Err(e) => raw_config_error(raw) == Some(e@),
            },
    {
        if is_blank(raw.source.as_str()) {
            return Err(owned("source can't be empty"));
        }
        if raw.compile && raw.compiler_path.is_none() {
            return Err(owned("compiler_path is required when compile is set true"));
        }
        let compiler_path = match raw.compiler_path {
            Some(p) => p,
            None => String::new(),
        };
        Ok(LangConfig {
            source: raw.source,
            compile: raw.compile,
            authenticate: raw.authenticate,
            runtime_path: raw.runtime_path,
            compiler_path,
            compiler_args: raw.compiler_args,
            runtime_args: raw.runtime_args,
            isolate_args: raw.isolate_args,
            max_time_limit: raw.max_time_limit,
            max_cpu_time_sec: raw.max_cpu_time_sec,
            max_memory_kb: raw.max_memory_kb,
            max_stack_kb: raw.max_stack_kb,
            max_processes: raw.max_processes,
            max_open_files: raw.max_open_files,
            max_file_size_kb: raw.max_file_size_kb,
        })
    }
}

/// A request to run one program text.
#[derive(Clone, Debug)]
pub struct Req {
    pub language: String,
    pub code: String,
}

/// The answer to an execution request.
#[derive(Clone, Debug)]
pub struct Resp {
    pub code: i32,
    pub output: String,
    pub std_log: String,
    pub time_ms: u128,
}

/// One source file of a request.
#[derive(Clone, Debug)]
pub struct File {
    pub name: String,
    pub content: String,
}

/// A request to run a program made of several files.
#[derive(Clone, Debug)]
pub struct ReqMulti {
    pub language: String,
    pub files: Vec<File>,
    pub entry_file: String,
}

/// A file name that could leave the working directory: it holds `..` or is
/// absolute.
pub open spec fn unsafe_file_name(name: Seq<char>) -> bool {
    has_substring(name, ".."@) || has_prefix(name, "/"@)
}

/// Index `i` holds the first file whose name is unsafe.
pub open spec fn is_first_unsafe(files: Seq<File>, i: int) -> bool {
    &&& 0 <= i < files.len()
    &&& unsafe_file_name(files[i].name@)
    &&& forall|j: int| 0 <= j < i ==> !unsafe_file_name(#[trigger] files[j].name@)
}

/// Some file of the request is named as its entry file.
pub open spec fn names_entry(files: Seq<File>, entry: Seq<char>) -> bool {
    exists|i: int| 0 <= i < files.len() && #[trigger] files[i].name@ == entry
}

/// What validation answers for a multi-file request: no files, the first
/// unsafe file name, or a missing entry file, in that order of precedence.
pub open spec fn validation_outcome(req: ReqMulti) -> Result<(), Seq<char>> {
    let files = req.files@;
    if files.len() == 0 {
        Err("Preparation Error: No files provided"@)
    } else if exists|i: int| is_first_unsafe(files, i) {
        let i = choose|i: int| is_first_unsafe(files, i);
        Err("Security Violation: Invalid path in filename '"@ + files[i].name@ + "'"@)
    } else if !names_entry(files, req.entry_file@) {
        Err("Preparation Error: Entry file '"@ + req.entry_file@ + "' not found in file list"@)
    } else {
        Ok(())
    }
}

/// Whether a file name could leave the working directory.
pub fn is_unsafe_file_name(name: &str) -> (r: bool)
    ensures
        r == unsafe_file_name(name@),
{
    contains_str(name, "..") || starts_with_str(name, "/")
}

impl Validate for ReqMulti {
    open spec fn outcome(&self) -> Result<(), Seq<char>> {
        validation_outcome(*self)
    }

    fn validate(&self) -> (r: Result<(), String>)
        ensures
            match r {
                Ok(()) => validation_outcome(*self) is Ok,
                Err(e) => validation_outcome(*self) == Err::<(), Seq<char>>(e@),
            },
            r is Ok <==> {
                &&& self.files@.len() > 0
                &&& forall|i: int| 0 <= i < self.files@.len() ==> !has_substring(#[trigger] self.files@[i].name@, ".."@)
                    && !has_prefix(self.files@[i].name@, "/"@)
                &&& exists|i: int| 0 <= i < self.files@.len() && #[trigger] self.files@[i].name@ == self.entry_file@
            },
    {
        proof { law_validation_accepts(*self); }
        let mut entry_file_found = false;
        if self.files.len() == 0 {
            return Err(owned("Preparation Error: No files provided"));
        }
        let mut i: usize = 0;
        while i < self.files.len()
            invariant
                0 < self.files.len(),
                i <= self.files.len(),
                forall|j: int| 0 <= j < i ==> !unsafe_file_name(#[trigger] self.files@[j].name@),
                entry_file_found <==> exists|j: int|
                    0 <= j < i && #[trigger] self.files@[j].name@ == self.entry_file@,
            decreases self.files.len() - i,
        {
            let file = &self.files[i];
            if is_unsafe_file_name(file.name.as_str()) {
                let mut msg = owned("Security Violation: Invalid path in filename '");
                msg.append(file.name.as_str());
                msg.append("'");
                proof {
                    assert(is_first_unsafe(self.files@, i as int));
                    let k = choose|k: int| is_first_unsafe(self.files@, k);
                    assert(k == i as int);
                }
                return Err(msg);
            }
            if same_text(file.name.as_str(), self.entry_file.as_str()) {
                entry_file_found = true;
            }
            i = i + 1;
        }
        if !entry_file_found {
            let mut msg = owned("Preparation Error: Entry file '");
            msg.append(self.entry_file.as_str());
            msg.append("' not found in file list");
            return Err(msg);
        }
        Ok(())
    }
}

/// A multi-file request is accepted exactly when it has files, none of them
/// is named with `..` or an absolute path, and one of them, at any position,
/// is named as the entry file.
pub proof fn law_validation_accepts(req: ReqMulti)
    ensures
        validation_outcome(req) is Ok <==> {
            &&& req.files@.len() > 0
            &&& forall|i: int| 0 <= i < req.files@.len() ==> !has_substring(#[trigger] req.files@[i].name@, ".."@)
                && !has_prefix(req.files@[i].name@, "/"@)
            &&& exists|i: int| 0 <= i < req.files@.len() && #[trigger] req.files@[i].name@ == req.entry_file@
        },
{
    let files = req.files@;
    if files.len() > 0 && exists|i: int| 0 <= i < files.len() && unsafe_file_name(#[trigger] files[i].name@) {
        let k = choose|i: int| 0 <= i < files.len() && unsafe_file_name(#[trigger] files[i].name@);
        lemma_first_unsafe_exists(files, k);
    }
}

/// Where some file is unsafe, there is a first one.
proof fn lemma_first_unsafe_exists(files: Seq<File>, k: int)
    requires
        0 <= k < files.len(),
        unsafe_file_name(files[k].name@),
    ensures
        exists|i: int| is_first_unsafe(files, i),
    decreases k,
{
    if forall|j: int| 0 <= j < k ==> !unsafe_file_name(#[trigger] files[j].name@) {
        assert(is_first_unsafe(files, k));
    } else {
        let j = choose|j: int| 0 <= j < k && unsafe_file_name(#[trigger] files[j].name@);
        lemma_first_unsafe_exists(files, j);
    }
}

} // verus!
