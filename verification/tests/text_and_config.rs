use hermes::api::utils::{Validate, ValidatedJson};
use hermes::config::constants::is_debug;
use hermes::config::models::{
    default_authenticate, default_compile, default_cpu_time_sec, default_file_size_kb,
    default_memory_kb, default_open_files, default_processes, default_stack_kb,
    default_time_limit, default_vector, File, LangConfig, RawLangConfig, ReqMulti,
};
use hermes::config::utils::get_lang_config;
use hermes::registry::LangRegistry;
use hermes::text::{
    contains_str, decimal_string, ends_with_str, is_blank, same_text, signed_decimal_string,
    starts_with_str,
};
use hermes::utils::misc::get_calculated_worker_count;

fn raw(source: &str, compile: bool, compiler_path: Option<&str>) -> RawLangConfig {
    RawLangConfig {
        source: source.to_string(),
        compile,
        authenticate: false,
        compiler_path: compiler_path.map(|s| s.to_string()),
        compiler_args: vec!["-O2".to_string()],
        runtime_path: "/usr/bin/run".to_string(),
        runtime_args: vec![],
        isolate_args: vec![],
        max_time_limit: default_time_limit(),
        max_cpu_time_sec: default_cpu_time_sec(),
        max_memory_kb: default_memory_kb(),
        max_stack_kb: default_stack_kb(),
        max_processes: default_processes(),
        max_open_files: default_open_files(),
        max_file_size_kb: default_file_size_kb(),
    }
}

fn file(name: &str, content: &str) -> File {
    File { name: name.to_string(), content: content.to_string() }
}

fn multi(files: Vec<File>, entry: &str) -> ReqMulti {
    ReqMulti { language: "cpp".to_string(), files, entry_file: entry.to_string() }
}

#[test]
fn substring_search() {
    assert!(contains_str("a..b", ".."));
    assert!(!contains_str("a.b", ".."));
    assert!(contains_str("abc", ""));
    assert!(!contains_str("", "a"));
    assert!(starts_with_str("/etc", "/"));
    assert!(!starts_with_str("etc", "/"));
    assert!(ends_with_str("main.cpp", ".cpp"));
    assert!(!ends_with_str("main.cp", ".cpp"));
    assert!(same_text("abc", "abc"));
    assert!(!same_text("abc", "abd"));
}

#[test]
fn decimal_rendering() {
    assert_eq!(decimal_string(0), "0");
    assert_eq!(decimal_string(262144), "262144");
    assert_eq!(decimal_string(u64::MAX), u64::MAX.to_string());
    assert_eq!(signed_decimal_string(-3), "-3");
    assert_eq!(signed_decimal_string(i64::MIN), i64::MIN.to_string());
    assert_eq!(signed_decimal_string(127), "127");
}

#[test]
fn blank_detection() {
    assert!(is_blank(""));
    assert!(is_blank(" \n\t\u{A0}"));
    assert!(!is_blank("  main.cpp "));
}

#[test]
fn lowercase_through_std() {
    assert!(is_debug("DEBUG"));
    assert!(is_debug("hermes=trace"));
    assert!(is_debug("Full"));
    assert!(!is_debug("info"));
    assert!(!is_debug(""));
}

#[test]
fn default_limits() {
    assert_eq!(default_time_limit(), "2");
    assert_eq!(default_cpu_time_sec(), "2");
    assert_eq!(default_memory_kb(), "262144");
    assert_eq!(default_stack_kb(), "65536");
    assert_eq!(default_processes(), "16");
    assert_eq!(default_open_files(), "64");
    assert_eq!(default_file_size_kb(), "1024");
    assert!(default_vector().is_empty());
    assert!(!default_compile());
    assert!(!default_authenticate());
}

#[test]
fn raw_config_checks() {
    let e = LangConfig::from_raw(raw("   ", false, None)).err().unwrap();
    assert_eq!(e, "source can't be empty");
    let e = LangConfig::from_raw(raw("main.cpp", true, None)).err().unwrap();
    assert_eq!(e, "compiler_path is required when compile is set true");
    let c = LangConfig::from_raw(raw("main.py", false, None)).ok().unwrap();
    assert_eq!(c.compiler_path, "");
    assert_eq!(c.source, "main.py");
    let c = LangConfig::from_raw(raw("main.cpp", true, Some("/usr/bin/g++"))).ok().unwrap();
    assert_eq!(c.compiler_path, "/usr/bin/g++");
    assert_eq!(c.compiler_args, vec!["-O2".to_string()]);
    assert_eq!(c.max_memory_kb, "262144");
}

#[test]
fn registry_lookup() {
    let mut reg: LangRegistry<LangConfig> = LangRegistry::new();
    assert_eq!(reg.len(), 0);
    let py = LangConfig::from_raw(raw("main.py", false, None)).ok().unwrap();
    let py2 = LangConfig::from_raw(raw("solution.py", false, None)).ok().unwrap();
    reg.insert("python", py);
    assert_eq!(reg.len(), 1);
    assert_eq!(get_lang_config(&reg, "python").ok().unwrap().source, "main.py");
    reg.insert("python", py2);
    assert_eq!(reg.len(), 1);
    assert_eq!(get_lang_config(&reg, "python").ok().unwrap().source, "solution.py");
    let e = get_lang_config(&reg, "cobol").err().unwrap();
    assert_eq!(e, "Unsupported language: cobol");
}

#[test]
fn validation_outcomes() {
    assert_eq!(multi(vec![], "main.cpp").validate(), Err("Preparation Error: No files provided".to_string()));
    assert_eq!(
        multi(vec![file("ok.cpp", ""), file("../etc/passwd", ""), file("/abs", "")], "ok.cpp").validate(),
        Err("Security Violation: Invalid path in filename '../etc/passwd'".to_string())
    );
    assert_eq!(
        multi(vec![file("/abs", "")], "/abs").validate(),
        Err("Security Violation: Invalid path in filename '/abs'".to_string())
    );
    assert_eq!(
        multi(vec![file("a.cpp", "")], "main.cpp").validate(),
        Err("Preparation Error: Entry file 'main.cpp' not found in file list".to_string())
    );
    assert_eq!(multi(vec![file("a.cpp", ""), file("dir/main.cpp", "")], "dir/main.cpp").validate(), Ok(()));
    assert!(ValidatedJson::accept(multi(vec![file("x.cpp", "")], "x.cpp")).is_ok());
    assert_eq!(ValidatedJson::accept(multi(vec![], "x.cpp")).err().unwrap(), "Preparation Error: No files provided");
}

#[test]
fn worker_count() {
    assert_eq!(get_calculated_worker_count(4), 8);
    assert_eq!(get_calculated_worker_count(0), 0);
}
