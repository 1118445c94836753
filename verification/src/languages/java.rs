//! Java: packages and imports from outside the JDK are refused, and the entry
//! file is renamed after the public class it declares.
use vstd::prelude::*;
use crate::config::models::{File, LangConfig, ReqMulti};
use crate::languages::{
    file_view, group_one, joined_path, write_view, group_one_of, join_path,
    write_of, writes_view, FileWrite, LanguageHandler, Preparation, PreparedProgram,
};
use crate::pattern::{
    regex_all_captures, regex_captures, regex_captures_iter,
    regex_first_captures, Pattern,
};
use crate::text::{
    contains_str, extend_strings, has_prefix, has_substring, owned, same_text, starts_with_str,
    views,
};

verus! {

/// An `import` statement at the start of a line; group 1 is the imported
/// name.
pub const IMPORT_PATTERN: &'static str = r"(?m)^\s*import\s+([a-zA-Z0-9_.]+);";

/// A public class declaration at the start of a line; group 1 is the class
/// name.
pub const CLASS_PATTERN: &'static str =
    r"(?m)^\s*public\s+(?:\w+\s+)*class\s+([A-Za-z_][A-Za-z0-9_]*)";

/// An import from the platform's own libraries.
pub open spec fn allowed_import(name: Seq<char>) -> bool {
    has_prefix(name, "java."@) || has_prefix(name, "javax."@) || has_prefix(name, "jdk."@)
}

/// Match `i` is the first of `all` whose imported name is not allowed.
pub open spec fn is_first_foreign(all: Seq<Seq<Option<Seq<char>>>>, i: int) -> bool {
    &&& 0 <= i < all.len()
    &&& !allowed_import(group_one(all[i]))
    &&& forall|j: int| 0 <= j < i ==> allowed_import(group_one(#[trigger] all[j]))
}

/// The message for a package declaration.
pub open spec fn package_message() -> Seq<char> {
    "Preparation Error: 'package' declarations are not allowed."@
}

/// The message for a refused import.
pub open spec fn foreign_import_message(name: Seq<char>) -> Seq<char> {
    "Preparation Error: external import '"@ + name + "' is not allowed."@
}

/// What the package and import check answers for `code`.
pub open spec fn import_check(code: Seq<char>) -> Result<(), Seq<char>> {
    if has_substring(code, "package "@) {
        Err(package_message())
    } else {
        let all = regex_all_captures(IMPORT_PATTERN@, code);
        if exists|i: int| is_first_foreign(all, i) {
            let i = choose|i: int| is_first_foreign(all, i);
            Err(foreign_import_message(group_one(all[i])))
        } else {
            Ok(())
        }
    }
}

/// The message for code without a public class.
pub open spec fn no_class_message() -> Seq<char> {
    "Compilation Error: Java programs must declare a public class."@
}

/// The public class that `code` declares first, or why there is none.
pub open spec fn class_name_of(code: Seq<char>) -> Result<Seq<char>, Seq<char>> {
    match regex_first_captures(CLASS_PATTERN@, code) {
        None => Err(no_class_message()),
        Some(caps) => Ok(group_one(caps)),
    }
}

/// The preparation of a Java request: the writes made and either the reason
/// it stopped or the class of the last entry file met so far.
pub open spec fn java_prep(files: Seq<File>, entry: Seq<char>) -> (Seq<(Seq<char>, Seq<char>)>, Result<Option<Seq<char>>, Seq<char>>)
    decreases files.len(),
{
    if files.len() == 0 {
        (seq![], Ok(None))
    } else {
        let (writes, acc) = java_prep(files.drop_last(), entry);
        let f = files.last();
        match acc {
            Err(e) => (writes, Err(e)),
            Ok(cls) => match import_check(f.content@) {
                Err(e) => (writes, Err(e)),
                Ok(()) => if f.name@ == entry {
                    match class_name_of(f.content@) {
                        Err(e) => (writes, Err(e)),
                        Ok(n) => (writes.push((n + ".java"@, f.content@)), Ok(Some(n))),
                    }
                } else {
                    (writes.push(file_view(f)), Ok(cls))
                },
            },
        }
    }
}

/// The message for a request whose entry file was not met.
pub open spec fn no_entry_message() -> Seq<char> {
    "Preparation Error: Entry file not found or invalid."@
}

/// Builds and runs Java programs with the configured tools.
pub struct JavaHandler<'a> {
    config: &'a LangConfig,
}

impl<'a> JavaHandler<'a> {
    /// The settings this handler uses.
    pub closed spec fn settings(&self) -> LangConfig {
        *self.config
    }

    pub fn new(config: &'a LangConfig) -> (r: Self)
        ensures
            r.settings() == *config,
    {
        JavaHandler { config }
    }

    /// Refuses package declarations and imports from outside the platform's
    /// own libraries.
    pub fn check_for_external_imports_and_packages(code: &str) -> (r: Result<(), String>)
        ensures
            match r {
                Ok(()) => import_check(code@) is Ok,
                Err(e) => import_check(code@) == Err::<(), Seq<char>>(e@),
            },
    {
        if contains_str(code, "package ") {
            return Err(owned("Preparation Error: 'package' declarations are not allowed."));
        }
        let p = Pattern::compile(IMPORT_PATTERN).unwrap();
        let all = regex_captures_iter(&p, code);
        let ghost all_view = all.deep_view();
        let mut i: usize = 0;
        while i < all.len()
            invariant
                all.deep_view() == all_view,
                all_view == regex_all_captures(IMPORT_PATTERN@, code@),
                !has_substring(code@, "package "@),
                i <= all.len(),
                forall|j: int| 0 <= j < i ==> allowed_import(group_one(#[trigger] all_view[j])),
            decreases all.len() - i,
        {
            let import = group_one_of(&all[i]);
            assert(all[i as int].deep_view() == all_view[i as int]);
            if !(starts_with_str(import.as_str(), "java.") || starts_with_str(import.as_str(), "javax.")
                || starts_with_str(import.as_str(), "jdk.")) {
                let mut msg = owned("Preparation Error: external import '");
                msg.append(import.as_str());
                msg.append("' is not allowed.");
                proof {
                    assert(import@ == group_one(all_view[i as int]));
                    assert(msg@ == foreign_import_message(import@));
                    assert(is_first_foreign(all_view, i as int));
                    let k = choose|k: int| is_first_foreign(all_view, k);
                    assert(k == i as int);
                }
                return Err(msg);
            }
            i = i + 1;
        }
        Ok(())
    }

    /// The name of the first public class `code` declares.
    pub fn extract_main_class_name(code: &str) -> (r: Result<String, String>)
        ensures
            match r {
                Ok(n) => class_name_of(code@) == Ok::<Seq<char>, Seq<char>>(n@),
                Err(e) => class_name_of(code@) == Err::<Seq<char>, Seq<char>>(e@),
            },
            match regex_first_captures(CLASS_PATTERN@, code@) {
                Some(caps) => r matches Ok(n) && n@ == group_one(caps),
                None => r matches Err(e) && e@ == no_class_message(),
            },
    {
        let p = Pattern::compile(CLASS_PATTERN).unwrap();
        match regex_captures(&p, code) {
            None => Err(owned("Compilation Error: Java programs must declare a public class.")),
            Some(caps) => Ok(group_one_of(&caps)),
        }
    }
}

/// Once preparation has stopped, later files change nothing.
proof fn lemma_java_prep_sticky(files: Seq<File>, entry: Seq<char>, k: int, n: int)
    requires
        0 <= k <= n <= files.len(),
        java_prep(files.take(k), entry).1 is Err,
    ensures
        java_prep(files.take(n), entry) == java_prep(files.take(k), entry),
    decreases n - k,
{
    if n > k {
        lemma_java_prep_sticky(files, entry, k, n - 1);
        assert(files.take(n).drop_last() =~= files.take(n - 1));
    }
}

impl<'a> LanguageHandler for JavaHandler<'a> {
    fn prepare(&self, work_dir: &str, req: &ReqMulti) -> (r: Preparation)
        ensures
            writes_view(r.writes@) == java_prep(req.files@, req.entry_file@).0,
            match java_prep(req.files@, req.entry_file@).1 {
                Err(e) => (match r.outcome {
                    Err(m) => m@ == e,
                    Ok(_) => false,
                }),
                Ok(None) => (match r.outcome {
                    Err(m) => m@ == no_entry_message(),
                    Ok(_) => false,
                }),
                Ok(Some(n)) => (match r.outcome {
                    Ok(p) => p.entry_name@ == n && p.sources is None
                        && p.entry_file@ == joined_path(work_dir@, n + ".java"@),
                    Err(_) => false,
                }),
            },
    {
        let mut writes: Vec<FileWrite> = Vec::new();
        let mut main_class_name: Option<String> = None;
        let mut i: usize = 0;
        assert(req.files@.take(0) =~= Seq::<File>::empty());
        assert(writes_view(writes@) =~= Seq::<(Seq<char>, Seq<char>)>::empty());
        while i < req.files.len()
            invariant
                i <= req.files.len(),
                java_prep(req.files@.take(i as int), req.entry_file@) == (
                    writes_view(writes@),
                    Ok::<Option<Seq<char>>, Seq<char>>(match main_class_name {
                        Some(n) => Some(n@),
                        None => None,
                    }),
                ),
            decreases req.files.len() - i,
        {
            let file = &req.files[i];
            assert(req.files@.take(i + 1).drop_last() =~= req.files@.take(i as int));
            match Self::check_for_external_imports_and_packages(file.content.as_str()) {
                Err(e) => {
                    proof {
                        lemma_java_prep_sticky(req.files@, req.entry_file@, i + 1, req.files@.len() as int);
                        assert(req.files@.take(req.files@.len() as int) =~= req.files@);
                    }
                    return Preparation { writes, outcome: Err(e) };
                },
                Ok(()) => {},
            }
            let ghost before = writes@;
            if same_text(file.name.as_str(), req.entry_file.as_str()) {
                match Self::extract_main_class_name(file.content.as_str()) {
                    Err(e) => {
                        proof {
                            lemma_java_prep_sticky(req.files@, req.entry_file@, i + 1, req.files@.len() as int);
                            assert(req.files@.take(req.files@.len() as int) =~= req.files@);
                        }
                        return Preparation { writes, outcome: Err(e) };
                    },
                    Ok(name) => {
                        let mut final_name = name.clone();
                        final_name.append(".java");
                        writes.push(FileWrite { name: final_name, content: file.content.clone() });
                        main_class_name = Some(name);
                    },
                }
            } else {
                writes.push(write_of(file));
            }
            assert(writes_view(writes@) =~= writes_view(before).push(write_view(writes@.last())));
            i = i + 1;
        }
        assert(req.files@.take(i as int) =~= req.files@);
        match main_class_name {
            None => Preparation {
                writes,
                outcome: Err(owned("Preparation Error: Entry file not found or invalid.")),
            },
            Some(entry_name) => {
                let mut file_name = entry_name.clone();
                file_name.append(".java");
                let prepared = PreparedProgram {
                    entry_file: join_path(work_dir, file_name.as_str()),
                    entry_name,
                    sources: None,
                };
                Preparation { writes, outcome: Ok(prepared) }
            },
        }
    }

    fn compile_cmd(&self, prepared: &PreparedProgram) -> (cmd: Vec<String>)
        ensures
            views(cmd@) == seq![self.settings().compiler_path@] + views(self.settings().compiler_args@)
                + seq![prepared.entry_name@ + ".java"@],
    {
        let mut cmd: Vec<String> = Vec::new();
        cmd.push(self.config.compiler_path.clone());
        assert(views(cmd@) =~= seq![self.config.compiler_path@]);
        extend_strings(&mut cmd, &self.config.compiler_args);
        let ghost before = cmd@;
        let mut source = prepared.entry_name.clone();
        source.append(".java");
        cmd.push(source);
        assert(views(cmd@) =~= views(before).push(prepared.entry_name@ + ".java"@));
        cmd
    }

    fn run_cmd(&self, prepared: &PreparedProgram) -> (cmd: Vec<String>)
        ensures
            views(cmd@) == seq![self.settings().runtime_path@] + views(self.settings().runtime_args@)
                + seq![prepared.entry_name@],
    {
        let mut cmd: Vec<String> = Vec::new();
        cmd.push(self.config.runtime_path.clone());
        assert(views(cmd@) =~= seq![self.config.runtime_path@]);
        extend_strings(&mut cmd, &self.config.runtime_args);
        let ghost before = cmd@;
        cmd.push(prepared.entry_name.clone());
        assert(views(cmd@) =~= views(before).push(prepared.entry_name@));
        cmd
    }
}

/// The name a Java file is written under: the entry file takes the name of
/// its public class, every other file keeps its own.
pub open spec fn java_written_name(f: File, entry: Seq<char>) -> Seq<char> {
    if f.name@ == entry {
        class_name_of(f.content@)->Ok_0 + ".java"@
    } else {
        f.name@
    }
}

/// When every file passes the package and import check and every entry file
/// declares a public class, Java preparation writes every file, in order,
/// the entry file under `<Class>.java` and the others under their own names,
/// and it finds the program exactly when some file is the entry file.
pub proof fn law_java_writes_every_accepted_file(files: Seq<File>, entry: Seq<char>)
    requires
        forall|i: int| 0 <= i < files.len() ==> (#[trigger] import_check(files[i].content@)) is Ok,
        forall|i: int| 0 <= i < files.len() && files[i].name@ == entry ==> (#[trigger] class_name_of(
            files[i].content@,
        )) is Ok,
    ensures
        java_prep(files, entry).0.len() == files.len(),
        forall|i: int| 0 <= i < files.len() ==> #[trigger] java_prep(files, entry).0[i] == (
            java_written_name(files[i], entry),
            files[i].content@,
        ),
        java_prep(files, entry).1 is Ok,
        (java_prep(files, entry).1->Ok_0 is Some) <==> exists|i: int| 0 <= i < files.len() && #[trigger] files[i].name@ == entry,
    decreases files.len(),
{
    if files.len() > 0 {
        let init = files.drop_last();
        assert forall|i: int| 0 <= i < init.len() implies (#[trigger] import_check(init[i].content@)) is Ok by {
            assert(init[i] == files[i]);
        }
        assert forall|i: int| 0 <= i < init.len() && init[i].name@ == entry implies (#[trigger] class_name_of(
            init[i].content@,
        )) is Ok by {
            assert(init[i] == files[i]);
        }
        law_java_writes_every_accepted_file(init, entry);
        let last = files.len() - 1;
        assert(import_check(files[last].content@) is Ok);
        if files[last].name@ == entry {
            assert(class_name_of(files[last].content@) is Ok);
        }
        assert forall|i: int| 0 <= i < files.len() implies #[trigger] java_prep(files, entry).0[i] == (
            java_written_name(files[i], entry),
            files[i].content@,
        ) by {
            if i < last {
                assert(init[i] == files[i]);
                assert(java_prep(init, entry).0[i] == (java_written_name(init[i], entry), init[i].content@));
            }
        }
        if exists|i: int| 0 <= i < files.len() && #[trigger] files[i].name@ == entry {
            let k = choose|i: int| 0 <= i < files.len() && #[trigger] files[i].name@ == entry;
            if k < last {
                assert(init[k] == files[k]);
                assert(init[k].name@ == entry);
            }
        }
        if exists|i: int| 0 <= i < init.len() && #[trigger] init[i].name@ == entry {
            let k = choose|i: int| 0 <= i < init.len() && #[trigger] init[i].name@ == entry;
            assert(files[k] == init[k]);
            assert(files[k].name@ == entry);
        }
    }
}

/// The main class is the one named by the leftmost match of
/// `CLASS_PATTERN` in the code: its capture group 1 (the first public class
/// declared, not any later one); code with no match has no main class.
pub proof fn law_main_class_is_first_declared(code: Seq<char>)
    ensures
        regex_first_captures(CLASS_PATTERN@, code) matches Some(caps) ==> class_name_of(code) == Ok::<
            Seq<char>,
            Seq<char>,
        >(if caps.len() > 1 && caps[1] is Some {
            caps[1]->0
        } else {
            Seq::empty()
        }),
        regex_first_captures(CLASS_PATTERN@, code) is None ==> class_name_of(code) == Err::<
            Seq<char>,
            Seq<char>,
        >("Compilation Error: Java programs must declare a public class."@),
{
}

/// A handler is fixed by its settings.
pub proof fn lemma_settings_determine(a: JavaHandler, b: JavaHandler)
    requires
        a.settings() == b.settings(),
    ensures
        a == b,
{
    assert(a.config == b.config);
}

} // verus!
