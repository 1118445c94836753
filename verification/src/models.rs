//! Language settings with numeric limits, and the request and response
//! types that go with them.
use vstd::prelude::*;

verus! {

/// No extra arguments.
pub fn default_vector() -> (r: Vec<String>)
    ensures
        r@.len() == 0,
{
    Vec::new()
}

/// Languages are interpreted unless they say otherwise.
pub fn default_compile() -> (r: bool)
    ensures
        r == false,
{
    false
}

/// Languages need no API token unless they say otherwise.
pub fn default_authenticate() -> (r: bool)
    ensures
        r == false,
{
    false
}

/// Default wall-clock limit, in seconds.
pub fn default_time_limit() -> (r: u64)
    ensures
        r == 2,
{
    2
}

/// Default CPU-time limit, in seconds.
pub fn default_cpu_time_sec() -> (r: u64)
    ensures
        r == 2,
{
    2
}

/// Default memory limit, in KiB: 256 MiB.
pub fn default_memory_kb() -> (r: u64)
    ensures
        r == 256 * 1024,
{
    256 * 1024
}

/// Default stack limit, in KiB: 64 MiB.
pub fn default_stack_kb() -> (r: u64)
    ensures
        r == 64 * 1024,
{
    64 * 1024
}

/// Default process limit.
pub fn default_processes() -> (r: u64)
    ensures
        r == 16,
{
    16
}

/// Default open-file limit.
pub fn default_open_files() -> (r: u64)
    ensures
        r == 64,
{
    64
}

/// Default file-size limit, in KiB.
pub fn default_file_size_kb() -> (r: u64)
    ensures
        r == 1024,
{
    1024
}

/// The settings of one language, with numeric limits.
#[derive(Clone, Debug)]
pub struct LangConfig {
    pub source: String,
    pub compile: bool,
    pub authenticate: bool,
    pub compiler_path: String,
    pub compiler_args: Vec<String>,
    pub runtime_path: String,
    pub runtime_args: Vec<String>,
    pub max_time_limit: u64,
    pub max_cpu_time_sec: u64,
    pub max_memory_kb: u64,
    pub max_stack_kb: u64,
    pub max_processes: u64,
    pub max_open_files: u64,
    pub max_file_size_kb: u64,
    pub max_output_kb: u64,
}

/// The settings of one language as the configuration file gives them.
#[derive(Clone, Debug)]
pub struct RawLangConfig {
    pub source: String,
    pub compile: bool,
    pub authenticate: bool,
    pub compiler_path: Option<String>,
    pub compiler_args: Vec<String>,
    pub runtime_path: String,
    pub runtime_args: Vec<String>,
    pub max_time_limit: String,
    pub max_cpu_time_sec: String,
    pub max_memory_kb: String,
    pub max_stack_kb: String,
    pub max_processes: String,
    pub max_open_files: String,
    pub max_file_size_kb: String,
}

/// A request to run one program text.
#[derive(Clone, Debug)]
pub struct Req {
    pub language: String,
    pub code: String,
}

/// The answer to an execution request.
#[derive(Clone, Debug)]
pub struct Resp {
    pub code: i32,
    pub output: String,
    pub std_log: String,
    pub time_ms: u128,
}

} // verus!
