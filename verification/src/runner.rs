//! The `isolate` command line that runs a program inside a sandbox box.
use vstd::prelude::*;
use crate::config::models::LangConfig;
use crate::text::{all_ascii, ascii_lower_char, decimal, decimal_string, extend_strings, owned, same_text, to_lowercase, unicode_lowercase, views};

verus! {

/// Whether a `DEBUG` setting turns on the sandbox's own log output in
/// `std_log`: it is `true`, in any case. Unset means off.
pub open spec fn debug_level(debug: Option<Seq<char>>) -> bool {
    match debug {
        Some(v) => unicode_lowercase(v) == "true"@,
        None => false,
    }
}

/// Whether the `DEBUG` setting `debug` turns on the sandbox's own log output.
pub fn debug_enabled(debug: Option<&str>) -> (r: bool)
    ensures
        r == debug_level(match debug {
            Some(v) => Some(v@),
            None => None,
        }),
        match debug {
            Some(v) => all_ascii(v@) ==> (r <==> v@.map_values(|c: char| ascii_lower_char(c)) == "true"@),
            None => !r,
        },
{
    match debug {
        Some(v) => {
            let lower = to_lowercase(v);
            same_text(lower.as_str(), "true")
        },
        None => false,
    }
}

/// `prefix` followed by `value`, as one argument.
fn flag(prefix: &str, value: &str) -> (r: String)
    ensures
        r@ == prefix@ + value@,
{
    let mut r = owned(prefix);
    r.append(value);
    r
}

/// The arguments given to `isolate` for running `run_args` in box `box_id`
/// under the limits of `config`.
pub open spec fn isolate_args_spec(box_id: usize, config: LangConfig, run_args: Seq<Seq<char>>, debug: bool) -> Seq<Seq<char>> {
    seq!["--box-id"@, decimal(box_id as nat), "--cg"@] + views(config.isolate_args@) + seq![
        "--mem="@ + config.max_memory_kb@,
        "--time="@ + config.max_cpu_time_sec@,
        "--wall-time="@ + config.max_time_limit@,
        "--extra-time="@ + "2"@,
        "--stack="@ + config.max_stack_kb@,
        "--open-files="@ + config.max_open_files@,
        "--fsize="@ + config.max_file_size_kb@,
        "--quota="@ + "20000,2000"@,
        "--core="@ + "1024"@,
        "--processes="@ + config.max_processes@,
    ] + (if debug { Seq::<Seq<char>>::empty() } else { seq!["--silent"@] }) + seq![
        "--env=PATH=/usr/bin:/bin"@,
        "--env=HOME=/tmp"@,
        "--meta="@ + ("/tmp/isolate_"@ + decimal(box_id as nat) + ".meta"@),
        "--run"@,
        "--"@,
    ] + run_args
}

/// The arguments of the `isolate` invocation that runs `run_args` in box
/// `box_id` with the limits of `config`; `--silent` unless `debug`.
pub fn isolate_args(box_id: usize, config: &LangConfig, run_args: &Vec<String>, debug: bool) -> (r: Vec<String>)
    ensures
        views(r@) == isolate_args_spec(box_id, *config, views(run_args@), debug),
        r@.len() == isolate_prefix_len(*config, debug) + run_args@.len(),
        forall|i: int| 0 <= i < run_args@.len() ==> #[trigger] r@[isolate_prefix_len(*config, debug) + i]@ == run_args@[i]@,
        r@[isolate_prefix_len(*config, debug) - 2]@ == "--run"@,
        r@[isolate_prefix_len(*config, debug) - 1]@ == "--"@,
{
    let id = decimal_string(box_id as u64);
    let mut cmd: Vec<String> = Vec::new();
    cmd.push(owned("--box-id"));
    cmd.push(id.clone());
    cmd.push(owned("--cg"));
    let ghost a = views(cmd@);
    assert(a =~= seq!["--box-id"@, decimal(box_id as nat), "--cg"@]);
    extend_strings(&mut cmd, &config.isolate_args);
    let ghost b = views(cmd@);
    cmd.push(flag("--mem=", config.max_memory_kb.as_str()));
    cmd.push(flag("--time=", config.max_cpu_time_sec.as_str()));
    cmd.push(flag("--wall-time=", config.max_time_limit.as_str()));
    cmd.push(flag("--extra-time=", "2"));
    cmd.push(flag("--stack=", config.max_stack_kb.as_str()));
    cmd.push(flag("--open-files=", config.max_open_files.as_str()));
    cmd.push(flag("--fsize=", config.max_file_size_kb.as_str()));
    cmd.push(flag("--quota=", "20000,2000"));
    cmd.push(flag("--core=", "1024"));
    cmd.push(flag("--processes=", config.max_processes.as_str()));
    let ghost c = views(cmd@);
    assert(c =~= b + seq![
        "--mem="@ + config.max_memory_kb@,
        "--time="@ + config.max_cpu_time_sec@,
        "--wall-time="@ + config.max_time_limit@,
        "--extra-time="@ + "2"@,
        "--stack="@ + config.max_stack_kb@,
        "--open-files="@ + config.max_open_files@,
        "--fsize="@ + config.max_file_size_kb@,
        "--quota="@ + "20000,2000"@,
        "--core="@ + "1024"@,
        "--processes="@ + config.max_processes@,
    ]);
    if !debug {
        cmd.push(owned("--silent"));
    }
    let ghost d = views(cmd@);
    assert(d =~= c + (if debug { Seq::<Seq<char>>::empty() } else { seq!["--silent"@] }));
    cmd.push(owned("--env=PATH=/usr/bin:/bin"));
    cmd.push(owned("--env=HOME=/tmp"));
    let mut meta = owned("/tmp/isolate_");
    meta.append(id.as_str());
    meta.append(".meta");
    cmd.push(flag("--meta=", meta.as_str()));
    cmd.push(owned("--run"));
    cmd.push(owned("--"));
    let ghost e = views(cmd@);
    assert(e =~= d + seq![
        "--env=PATH=/usr/bin:/bin"@,
        "--env=HOME=/tmp"@,
        "--meta="@ + ("/tmp/isolate_"@ + decimal(box_id as nat) + ".meta"@),
        "--run"@,
        "--"@,
    ]);
    extend_strings(&mut cmd, run_args);
    proof {
        law_isolate_args_end_with_run_args(box_id, *config, views(run_args@), debug);
        assert forall|i: int| 0 <= i < run_args@.len() implies #[trigger] cmd@[isolate_prefix_len(*config, debug) + i]@
            == run_args@[i]@ by {
            assert(views(cmd@)[isolate_prefix_len(*config, debug) + i] == views(run_args@)[i]);
        }
        assert(views(cmd@)[isolate_prefix_len(*config, debug) - 2] == "--run"@);
        assert(views(cmd@)[isolate_prefix_len(*config, debug) - 1] == "--"@);
    }
    cmd
}

/// How many arguments come before the program's own: the box, the cgroup
/// flag, the configured extra arguments, ten limits, `--silent` unless
/// `debug`, two environment settings, the meta file, `--run` and `--`.
pub open spec fn isolate_prefix_len(config: LangConfig, debug: bool) -> int {
    3 + config.isolate_args@.len() + 10 + (if debug { 0int } else { 1int }) + 5
}

/// The `isolate` arguments end with `--run`, `--` and then the program's
/// command, each of its words an argument of its own, unchanged and in order.
pub proof fn law_isolate_args_end_with_run_args(box_id: usize, config: LangConfig, run_args: Seq<Seq<char>>, debug: bool)
    ensures
        isolate_args_spec(box_id, config, run_args, debug).len() == isolate_prefix_len(config, debug) + run_args.len(),
        forall|i: int| 0 <= i < run_args.len() ==> #[trigger] isolate_args_spec(box_id, config, run_args, debug)[
            isolate_prefix_len(config, debug) + i] == run_args[i],
        isolate_args_spec(box_id, config, run_args, debug)[isolate_prefix_len(config, debug) - 2] == "--run"@,
        isolate_args_spec(box_id, config, run_args, debug)[isolate_prefix_len(config, debug) - 1] == "--"@,
{
    let s = isolate_args_spec(box_id, config, run_args, debug);
    assert(views(config.isolate_args@).len() == config.isolate_args@.len());
    assert(s.len() == isolate_prefix_len(config, debug) + run_args.len());
    assert(s.subrange(isolate_prefix_len(config, debug), s.len() as int) =~= run_args);
    assert forall|i: int| 0 <= i < run_args.len() implies #[trigger] s[isolate_prefix_len(config, debug) + i]
        == run_args[i] by {
        assert(s.subrange(isolate_prefix_len(config, debug), s.len() as int)[i] == run_args[i]);
    }
}

} // verus!
