use hermes::api::utils::Validate;
use hermes::api::handlers::{execution_status, single_request, BAD_REQUEST, INTERNAL_SERVER_ERROR};
use hermes::config::models::{File, LangConfig, RawLangConfig, Req, ReqMulti, Resp};
use hermes::engine::exe::{execute_code, ExecAction, ExecEvent, ExecSession, Phase, SandboxRun};
use hermes::engine::workers::{EphemeralBox, PersistentBox, Sandbox};
use hermes::exe::{command_line, join_with_spaces};
use hermes::languages::cpp::CppHandler;
use hermes::languages::interpreted::InterpretedHandler;
use hermes::languages::java::JavaHandler;
use hermes::languages::javascript::JavascriptHandler;
use hermes::languages::{get_handler, FileWrite, LanguageHandler, PreparedProgram};
use hermes::pattern::Pattern;
use hermes::registry::LangRegistry;
use hermes::runner::{debug_enabled, isolate_args};
use hermes::workers::IsolateBox;

fn config(source: &str, compile: bool, authenticate: bool) -> LangConfig {
    LangConfig::from_raw(RawLangConfig {
        source: source.to_string(),
        compile,
        authenticate,
        compiler_path: if compile { Some("/usr/bin/cc".to_string()) } else { None },
        compiler_args: vec!["-O2".to_string(), "-std=c++17".to_string()],
        runtime_path: "/usr/bin/rt".to_string(),
        runtime_args: vec!["--flag".to_string()],
        isolate_args: vec!["--dir=/etc".to_string()],
        max_time_limit: "5".to_string(),
        max_cpu_time_sec: "3".to_string(),
        max_memory_kb: "1000".to_string(),
        max_stack_kb: "200".to_string(),
        max_processes: "4".to_string(),
        max_open_files: "32".to_string(),
        max_file_size_kb: "100".to_string(),
    })
    .ok()
    .unwrap()
}

fn file(name: &str, content: &str) -> File {
    File { name: name.to_string(), content: content.to_string() }
}

fn req(language: &str, files: Vec<File>, entry: &str) -> ReqMulti {
    ReqMulti { language: language.to_string(), files, entry_file: entry.to_string() }
}

fn names(ws: &Vec<FileWrite>) -> Vec<String> {
    ws.iter().map(|w| w.name.clone()).collect()
}

fn registry() -> LangRegistry<LangConfig> {
    let mut r = LangRegistry::new();
    r.insert("cpp", config("main.cpp", true, false));
    r.insert("java", config("Main.java", true, false));
    r.insert("javascript", config("main.js", false, false));
    r.insert("python", config("main.py", false, false));
    r.insert("rust", config("main.rs", true, false));
    r
}

#[test]
fn pattern_compilation() {
    assert!(Pattern::compile("(").is_none());
    let p = Pattern::compile("a+").unwrap();
    assert_eq!(p.source(), "a+");
}

#[test]
fn cpp_include_check() {
    assert!(CppHandler::check_for_security_violations("#include <iostream>\nint main(){}").is_ok());
    assert_eq!(
        CppHandler::check_for_security_violations("#include </etc/passwd>").err().unwrap(),
        "Compilation Error: Absolute paths or path traversal in includes is forbidden."
    );
    assert!(CppHandler::check_for_security_violations("#include \"../secret.h\"").is_err());
    assert!(CppHandler::check_for_security_violations("#include \"lib/ok.h\"").is_ok());
}

#[test]
fn cpp_prepare_and_commands() {
    let cfg = config("main.cpp", true, false);
    let h = CppHandler::new(&cfg);
    let prep = h.prepare("/box", &req("cpp", vec![file("main.cpp", "int main(){}"), file("util.h", ""), file("x.cc", "")], "main.cpp"));
    assert_eq!(names(&prep.writes), vec!["main.cpp", "util.h", "x.cc"]);
    let p = prep.outcome.ok().unwrap();
    assert_eq!(p.entry_name, "solution");
    assert_eq!(p.entry_file, "/box");
    assert_eq!(p.sources.clone().unwrap(), vec!["main.cpp", "x.cc"]);
    assert_eq!(h.compile_cmd(&p), vec!["/usr/bin/cc", "-O2", "-std=c++17", "main.cpp", "x.cc", "-o", "solution"]);
    assert_eq!(h.run_cmd(&p), vec!["./solution"]);

    let prep = h.prepare("/box", &req("cpp", vec![file("a.cpp", ""), file("b.cpp", "#include </x>"), file("c.cpp", "")], "a.cpp"));
    assert_eq!(names(&prep.writes), vec!["a.cpp"]);
    assert!(prep.outcome.is_err());

    let prep = h.prepare("/box", &req("cpp", vec![file("a.h", "")], "a.h"));
    assert_eq!(prep.outcome.err().unwrap(), "Compilation Error: No C++ source files found.");
}

#[test]
fn java_checks() {
    assert_eq!(
        JavaHandler::check_for_external_imports_and_packages("package foo;\nclass A{}").err().unwrap(),
        "Preparation Error: 'package' declarations are not allowed."
    );
    assert_eq!(
        JavaHandler::check_for_external_imports_and_packages("import java.util.List;\nimport com.evil.X;\nimport org.y.Z;").err().unwrap(),
        "Preparation Error: external import 'com.evil.X' is not allowed."
    );
    assert!(JavaHandler::check_for_external_imports_and_packages("import java.util.*;\n  import javax.swing.JFrame;\nimport jdk.net.Sockets;").is_ok());
    assert_eq!(JavaHandler::extract_main_class_name("public final class Solution {}").ok().unwrap(), "Solution");
    assert_eq!(
        JavaHandler::extract_main_class_name("class Hidden {}").err().unwrap(),
        "Compilation Error: Java programs must declare a public class."
    );
}

#[test]
fn java_prepare_and_commands() {
    let cfg = config("Main.java", true, false);
    let h = JavaHandler::new(&cfg);
    let prep = h.prepare("/box", &req("java", vec![file("Helper.java", "class Helper{}"), file("Main.java", "public class Solution {}")], "Main.java"));
    assert_eq!(names(&prep.writes), vec!["Helper.java", "Solution.java"]);
    let p = prep.outcome.ok().unwrap();
    assert_eq!(p.entry_name, "Solution");
    assert_eq!(p.entry_file, "/box/Solution.java");
    assert_eq!(h.compile_cmd(&p), vec!["/usr/bin/cc", "-O2", "-std=c++17", "Solution.java"]);
    assert_eq!(h.run_cmd(&p), vec!["/usr/bin/rt", "--flag", "Solution"]);

    let prep = h.prepare("/box", &req("java", vec![file("A.java", "public class A {}")], "Main.java"));
    assert_eq!(prep.outcome.err().unwrap(), "Preparation Error: Entry file not found or invalid.");
}

#[test]
fn javascript_prepare_and_commands() {
    let cfg = config("main.js", false, false);
    let h = JavascriptHandler::new(&cfg);
    let prep = h.prepare("/box", &req("javascript", vec![file("lib/a.js", "x"), file("main.js", "y")], "main.js"));
    assert_eq!(names(&prep.writes), vec!["lib/a.js", "main.js"]);
    let p = prep.outcome.ok().unwrap();
    assert_eq!(p.entry_name, "main.js");
    assert!(h.compile_cmd(&p).is_empty());
    assert_eq!(h.run_cmd(&p), vec!["/usr/bin/rt", "--flag", "main.js"]);
    let p2 = PreparedProgram { entry_file: "/box/sub/app.js".to_string(), entry_name: "sub/app.js".to_string(), sources: None };
    assert_eq!(h.run_cmd(&p2), vec!["/usr/bin/rt", "--flag", "app.js"]);
    assert_eq!(h.command_for(None), vec!["/usr/bin/rt", "--flag", ""]);
}

#[test]
fn handler_selection() {
    let reg = registry();
    assert!(get_handler(&reg, "cpp").is_ok());
    assert!(get_handler(&reg, "java").is_ok());
    assert!(get_handler(&reg, "python").is_ok());
    assert_eq!(get_handler(&reg, "rust").err().unwrap(), "Unsupported language: rust");
    assert_eq!(get_handler(&reg, "go").err().unwrap(), "Unsupported language: go");
}

#[test]
fn isolate_command_line() {
    let cfg = config("main.cpp", true, false);
    let args = isolate_args(7, &cfg, &vec!["./solution".to_string()], false);
    assert_eq!(
        args,
        vec![
            "--box-id", "7", "--cg", "--dir=/etc", "--mem=1000", "--time=3", "--wall-time=5",
            "--extra-time=2", "--stack=200", "--open-files=32", "--fsize=100", "--quota=20000,2000",
            "--core=1024", "--processes=4", "--silent", "--env=PATH=/usr/bin:/bin", "--env=HOME=/tmp",
            "--meta=/tmp/isolate_7.meta", "--run", "--", "./solution",
        ]
    );
    let args = isolate_args(7, &cfg, &vec![], true);
    assert!(!args.contains(&"--silent".to_string()));
    assert!(debug_enabled(Some("true")));
    assert!(debug_enabled(Some("TRUE")));
    assert!(!debug_enabled(Some("false")));
    assert!(!debug_enabled(Some("debug")));
    assert!(!debug_enabled(None));
}

#[test]
fn box_paths() {
    let b = EphemeralBox::new(12);
    assert_eq!(b.path, "/var/lib/isolate/12/box");
    assert_eq!(b.id(), 12);
    assert_eq!(Sandbox::path(&b), "/var/lib/isolate/12/box");
    let p = PersistentBox::new(0);
    assert_eq!(p.path, "/var/lib/isolate/0/box");
    assert_eq!(IsolateBox::new(-3).path, "/var/lib/isolate/-3/box");
    assert_eq!(IsolateBox::new(5).path, "/var/lib/isolate/5/box");
}

fn expect_resp(a: ExecAction) -> Resp {
    match a {
        ExecAction::Respond(Ok(r)) => r,
        _ => panic!("expected a response"),
    }
}

fn run(output: &str, log: &str, code: i32, time_ms: u128) -> SandboxRun {
    SandboxRun { output: output.to_string(), std_log: log.to_string(), code, time_ms }
}

#[test]
fn session_unsupported_and_auth() {
    let reg = registry();
    let (s, a) = execute_code(&reg, "/box", &req("cobol", vec![file("a", "")], "a"), None, None);
    assert!(s.is_none());
    let r = expect_resp(a);
    assert_eq!((r.code, r.output.as_str(), r.std_log.as_str(), r.time_ms), (1, "Unsupported runtime", "Unsupported language: cobol", 0));

    let mut guarded = LangRegistry::new();
    guarded.insert("javascript", config("main.js", false, true));
    let reg = guarded;
    let js = req("javascript", vec![file("main.js", "")], "main.js");
    let (s, a) = execute_code(&reg, "/box", &js, Some("Bearer k".to_string()), None);
    assert!(s.is_none());
    match a {
        ExecAction::Respond(Err(e)) => assert_eq!(e, "Server configuration error"),
        _ => panic!("expected an internal error"),
    }
    let (s, a) = execute_code(&reg, "/box", &js, Some("Bearer wrong".to_string()), Some("k".to_string()));
    assert!(s.is_none());
    let r = expect_resp(a);
    assert_eq!(r.code, 401);
    assert_eq!(r.output, "");
    assert_eq!(r.std_log, "Auth Error: This language requires a valid API key.");
    let (s, a) = execute_code(&reg, "/box", &js, Some("Bearer k".to_string()), Some("k".to_string()));
    assert!(s.is_some());
    assert!(matches!(a, ExecAction::WriteFiles(_)));

    let reg = registry();
    let (s, a) = execute_code(&reg, "/box", &req("rust", vec![file("main.rs", "")], "main.rs"), None, None);
    assert!(s.is_none());
    match a {
        ExecAction::Respond(Err(e)) => assert_eq!(e, "Unsupported language: rust"),
        _ => panic!("expected an internal error"),
    }
}

#[test]
fn session_compile_failure_and_success() {
    let reg = registry();
    let r = req("cpp", vec![file("main.cpp", "int main(){}")], "main.cpp");
    let (s, a) = execute_code(&reg, "/box", &r, None, None);
    let mut s: ExecSession = s.unwrap();
    match a {
        ExecAction::WriteFiles(ws) => assert_eq!(names(&ws), vec!["main.cpp"]),
        _ => panic!("expected writes"),
    }
    assert!(*s.phase() == Phase::Writing);
    let a = s.step(ExecEvent::FilesWritten(Ok(())));
    match a {
        ExecAction::RunInSandbox(cmd) => assert_eq!(cmd, vec!["/usr/bin/cc", "-O2", "-std=c++17", "main.cpp", "-o", "solution"]),
        _ => panic!("expected a build"),
    }
    let a = s.step(ExecEvent::SandboxFinished(Ok(run("", "error: x", 1, 40))));
    let resp = expect_resp(a);
    assert_eq!(resp.code, 1);
    assert_eq!(resp.std_log, "Compilation Error:\nerror: x");
    assert_eq!(resp.time_ms, 0);
    assert!(*s.phase() == Phase::Finished);

    let (s, _) = execute_code(&reg, "/box", &r, None, None);
    let mut s = s.unwrap();
    s.step(ExecEvent::FilesWritten(Ok(())));
    let a = s.step(ExecEvent::SandboxFinished(Ok(run("", "", 0, 40))));
    match a {
        ExecAction::RunInSandbox(cmd) => assert_eq!(cmd, vec!["./solution"]),
        _ => panic!("expected the run"),
    }
    let resp = expect_resp(s.step(ExecEvent::SandboxFinished(Ok(run("2\n", "", 0, 12)))));
    assert_eq!((resp.code, resp.output.as_str(), resp.std_log.as_str(), resp.time_ms), (0, "2\n", "", 12));
    match s.step(ExecEvent::FilesWritten(Ok(()))) {
        ExecAction::Respond(Err(e)) => assert_eq!(e, "Execution Error: event out of order"),
        _ => panic!("expected an internal error"),
    }
}

#[test]
fn session_preparation_and_sandbox_failures() {
    let reg = registry();
    let (s, _) = execute_code(&reg, "/box", &req("cpp", vec![file("a.h", "")], "a.h"), None, None);
    let mut s = s.unwrap();
    let resp = expect_resp(s.step(ExecEvent::FilesWritten(Ok(()))));
    assert_eq!((resp.code, resp.output.as_str()), (1, "Program preparation failed"));
    assert_eq!(resp.std_log, "Compilation Error: No C++ source files found.");

    let (s, _) = execute_code(&reg, "/box", &req("javascript", vec![file("main.js", "")], "main.js"), None, None);
    let mut s = s.unwrap();
    let resp = expect_resp(s.step(ExecEvent::FilesWritten(Err("disk full".to_string()))));
    assert_eq!(resp.std_log, "disk full");

    let (s, _) = execute_code(&reg, "/box", &req("javascript", vec![file("main.js", "")], "main.js"), None, None);
    let mut s = s.unwrap();
    match s.step(ExecEvent::FilesWritten(Ok(()))) {
        ExecAction::RunInSandbox(cmd) => assert_eq!(cmd, vec!["/usr/bin/rt", "--flag", "main.js"]),
        _ => panic!("expected the run"),
    }
    match s.step(ExecEvent::SandboxFinished(Err("spawn failed".to_string()))) {
        ExecAction::Respond(Err(e)) => assert_eq!(e, "spawn failed"),
        _ => panic!("expected an internal error"),
    }
}

#[test]
fn single_file_requests() {
    let reg = registry();
    let m = single_request(&reg, Req { language: "cpp".to_string(), code: "int main(){}".to_string() }).ok().unwrap();
    assert_eq!(m.entry_file, "main.cpp");
    assert_eq!(m.files.len(), 1);
    assert_eq!(m.files[0].name, "main.cpp");
    assert_eq!(m.files[0].content, "int main(){}");
    assert_eq!(m.language, "cpp");
    assert_eq!(single_request(&reg, Req { language: "x".to_string(), code: String::new() }).err().unwrap(), BAD_REQUEST);
    assert_eq!(execution_status(Err("boom".to_string())).err().unwrap(), INTERNAL_SERVER_ERROR);
    assert_eq!(execution_status(Ok(Resp { code: 0, output: String::new(), std_log: String::new(), time_ms: 1 })).ok().unwrap().time_ms, 1);
}

#[test]
fn shell_lines() {
    let c = vec!["g++".to_string(), "main.cpp".to_string()];
    let r = vec!["./a.out".to_string()];
    assert_eq!(join_with_spaces(&c), "g++ main.cpp");
    assert_eq!(join_with_spaces(&vec![]), "");
    assert_eq!(command_line(true, &c, &r), "g++ main.cpp && ./a.out");
    assert_eq!(command_line(false, &c, &r), "./a.out");
}

#[test]
fn single_request_validation_law() {
    let mut reg = registry();
    let m = single_request(&reg, Req { language: "cpp".to_string(), code: "x".to_string() }).ok().unwrap();
    assert_eq!(m.validate(), Ok(()));
    reg.insert("cpp", config("../escape.cpp", true, false));
    let m = single_request(&reg, Req { language: "cpp".to_string(), code: "x".to_string() }).ok().unwrap();
    assert_eq!(m.validate(), Err("Security Violation: Invalid path in filename '../escape.cpp'".to_string()));
}

#[test]
fn session_answers_within_three_events() {
    let reg = registry();
    let r = req("cpp", vec![file("main.cpp", "")], "main.cpp");
    let events = || {
        vec![
            ExecEvent::FilesWritten(Ok(())),
            ExecEvent::SandboxFinished(Ok(run("", "", 0, 1))),
            ExecEvent::SandboxFinished(Ok(run("done", "", 0, 2))),
        ]
    };
    let (s, _) = execute_code(&reg, "/box", &r, None, None);
    let mut s = s.unwrap();
    let mut last = None;
    for e in events() {
        last = Some(s.step(e));
    }
    assert!(*s.phase() == Phase::Finished);
    assert_eq!(expect_resp(last.unwrap()).output, "done");

    let (s, _) = execute_code(&reg, "/box", &r, None, None);
    let mut s = s.unwrap();
    for e in [
        ExecEvent::SandboxFinished(Ok(run("", "", 0, 1))),
        ExecEvent::FilesWritten(Ok(())),
        ExecEvent::FilesWritten(Ok(())),
    ] {
        s.step(e);
    }
    assert!(*s.phase() == Phase::Finished);
}

#[test]
fn interpreted_languages_run_their_entry_file() {
    let cfg = config("main.py", false, false);
    let h = InterpretedHandler::new(&cfg);
    let prep = h.prepare("/box", &req("python", vec![file("util.py", "x"), file("main.py", "print(1+1)")], "main.py"));
    assert_eq!(names(&prep.writes), vec!["util.py", "main.py"]);
    let p = prep.outcome.ok().unwrap();
    assert_eq!(p.entry_name, "main.py");
    assert_eq!(p.entry_file, "/box/main.py");
    assert!(h.compile_cmd(&p).is_empty());
    assert_eq!(h.run_cmd(&p), vec!["/usr/bin/rt", "--flag", "main.py"]);

    let reg = registry();
    let (s, a) = execute_code(&reg, "/box", &req("python", vec![file("main.py", "print(1+1)")], "main.py"), None, None);
    let mut s = s.unwrap();
    match a {
        ExecAction::WriteFiles(ws) => assert_eq!(names(&ws), vec!["main.py"]),
        _ => panic!("expected writes"),
    }
    match s.step(ExecEvent::FilesWritten(Ok(()))) {
        ExecAction::RunInSandbox(cmd) => assert_eq!(cmd, vec!["/usr/bin/rt", "--flag", "main.py"]),
        _ => panic!("expected the run"),
    }
    let resp = expect_resp(s.step(ExecEvent::SandboxFinished(Ok(run("2\n", "", 0, 5)))));
    assert_eq!((resp.code, resp.output.as_str()), (0, "2\n"));
}

#[test]
fn javascript_entry_path() {
    let cfg = config("main.js", false, false);
    let h = JavascriptHandler::new(&cfg);
    let p = h.prepare("/var/lib/isolate/3/box", &req("javascript", vec![file("app.js", "")], "app.js")).outcome.ok().unwrap();
    assert_eq!(p.entry_file, "/var/lib/isolate/3/box/app.js");
    assert_eq!(h.run_cmd(&p), vec!["/usr/bin/rt", "--flag", "app.js"]);
}

#[test]
fn token_has_no_effect_on_open_languages() {
    let reg = registry();
    let r = req("javascript", vec![file("main.js", "1")], "main.js");
    let (s1, a1) = execute_code(&reg, "/box", &r, None, None);
    let (s2, a2) = execute_code(&reg, "/box", &r, Some("Bearer x".to_string()), Some("y".to_string()));
    match (a1, a2) {
        (ExecAction::WriteFiles(w1), ExecAction::WriteFiles(w2)) => assert_eq!(names(&w1), names(&w2)),
        _ => panic!("expected writes"),
    }
    let (mut s1, mut s2) = (s1.unwrap(), s2.unwrap());
    match (s1.step(ExecEvent::FilesWritten(Ok(()))), s2.step(ExecEvent::FilesWritten(Ok(())))) {
        (ExecAction::RunInSandbox(c1), ExecAction::RunInSandbox(c2)) => assert_eq!(c1, c2),
        _ => panic!("expected runs"),
    }
}
