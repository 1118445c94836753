//! Carrying one execution request through preparation, compilation and the
//! run, as a state machine: the caller performs each action (writing files,
//! running a command in the sandbox) and hands back what happened.
use vstd::prelude::*;
use crate::config::models::{LangConfig, ReqMulti, Resp};
use crate::config::utils::{get_lang_config, unsupported_language_message};
use crate::languages::{
    final_component, get_handler, kind_of, lemma_handler_determined, ordinary_name, program_view, LanguageKind, writes_view, FileWrite, Handler, Preparation, PreparedProgram,
};
use crate::registry::LangRegistry;
use crate::text::{owned, same_text, views};

verus! {

/// What a command run in the sandbox produced: its standard output, its
/// standard error, its exit code (-1 when it has none) and how long it took.
pub struct SandboxRun {
    pub output: String,
    pub std_log: String,
    pub code: i32,
    pub time_ms: u128,
}

/// What the caller reports back after performing an action.
pub enum ExecEvent {
    /// The files were written, or the message of the first write that failed.
    FilesWritten(Result<(), String>),
    /// The sandboxed command finished, or could not be started.
    SandboxFinished(Result<SandboxRun, String>),
}

/// What the caller must do next.
pub enum ExecAction {
    /// Write these files, in order, into the box's working directory.
    WriteFiles(Vec<FileWrite>),
    /// Run this command inside the sandbox box.
    RunInSandbox(Vec<String>),
    /// Answer the request: a response, or an internal error.
    Respond(Result<Resp, String>),
}

/// Where a session stands.
#[derive(PartialEq, Eq, Structural)]
pub enum Phase {
    Writing,
    Compiling,
    Running,
    Finished,
}

/// A response as plain values: (code, output, log, time in ms).
pub open spec fn resp_view(r: Resp) -> (i32, Seq<char>, Seq<char>, u128) {
    (r.code, r.output@, r.std_log@, r.time_ms)
}

/// `a` answers with the response of these values.
pub open spec fn responds(a: ExecAction, code: i32, output: Seq<char>, log: Seq<char>, time_ms: u128) -> bool {
    match a {
        ExecAction::Respond(Ok(r)) => resp_view(r) == (code, output, log, time_ms),
        _ => false,
    }
}

/// `a` answers with the internal error `msg`.
pub open spec fn fails_with(a: ExecAction, msg: Seq<char>) -> bool {
    match a {
        ExecAction::Respond(Err(e)) => e@ == msg,
        _ => false,
    }
}

/// The message of a protected language asked for while the server holds no
/// API token.
pub open spec fn missing_token_message() -> Seq<char> {
    "Server configuration error"@
}

/// The log of a refused API key.
pub open spec fn auth_error_message() -> Seq<char> {
    "Auth Error: This language requires a valid API key."@
}

/// The output of a request that could not be prepared.
pub open spec fn preparation_failed_message() -> Seq<char> {
    "Program preparation failed"@
}

/// The log prefix of a failed compilation.
pub open spec fn compilation_error_prefix() -> Seq<char> {
    "Compilation Error:\n"@
}

/// The message for an event that does not fit the session's phase.
pub open spec fn out_of_order_message() -> Seq<char> {
    "Execution Error: event out of order"@
}

/// An action as plain values.
pub enum ActionView {
    Write(Seq<(Seq<char>, Seq<char>)>),
    Run(Seq<Seq<char>>),
    Reply(Result<(i32, Seq<char>, Seq<char>, u128), Seq<char>>),
}

/// An action as plain values: the files to write, the command to run, or the
/// answer.
pub open spec fn action_view(a: ExecAction) -> ActionView {
    match a {
        ExecAction::WriteFiles(w) => ActionView::Write(writes_view(w@)),
        ExecAction::RunInSandbox(cmd) => ActionView::Run(views(cmd@)),
        ExecAction::Respond(Ok(r)) => ActionView::Reply(Ok(resp_view(r))),
        ExecAction::Respond(Err(e)) => ActionView::Reply(Err(e@)),
    }
}

/// A preparation outcome as plain values.
pub open spec fn program_result_view(p: Result<PreparedProgram, String>) -> Result<
    (Seq<char>, Seq<char>, Option<Seq<Seq<char>>>),
    Seq<char>,
> {
    match p {
        Ok(q) => Ok(program_view(q)),
        Err(e) => Err(e@),
    }
}

/// Whether `passed` is the bearer credential for `secret`.
pub open spec fn bearer_matches(passed: Option<String>, secret: Seq<char>) -> bool {
    match passed {
        Some(t) => t@ == "Bearer "@ + secret,
        None => false,
    }
}

/// One request on its way through the sandbox.
pub struct ExecSession<'a> {
    handler: Handler<'a>,
    compile: bool,
    phase: Phase,
    program: Result<PreparedProgram, String>,
}

impl<'a> ExecSession<'a> {
    /// A session builds or runs only a prepared program.
    #[verifier::type_invariant]
    closed spec fn inv(self) -> bool {
        (self.phase == Phase::Compiling || self.phase == Phase::Running) ==> self.program is Ok
    }

    pub closed spec fn phase_of(&self) -> Phase {
        self.phase
    }

    pub closed spec fn handler_of(&self) -> Handler<'a> {
        self.handler
    }

    pub closed spec fn compiles(&self) -> bool {
        self.compile
    }

    /// The prepared program, or why preparation stopped.
    pub closed spec fn program_of(&self) -> Result<PreparedProgram, String> {
        self.program
    }

    /// Where the session stands.
    pub fn phase(&self) -> (r: &Phase)
        ensures
            *r == self.phase_of(),
    {
        &self.phase
    }
}

/// The phase that follows `phase` on `event`, for a session that compiles
/// when `compile` and whose preparation succeeded when `prepared`.
pub open spec fn phase_after(phase: Phase, compile: bool, prepared: bool, event: ExecEvent) -> Phase {
    match phase {
        Phase::Writing => match event {
            ExecEvent::FilesWritten(Ok(_)) => if !prepared {
                Phase::Finished
            } else if compile {
                Phase::Compiling
            } else {
                Phase::Running
            },
            _ => Phase::Finished,
        },
        Phase::Compiling => match event {
            ExecEvent::SandboxFinished(Ok(run)) => if run.code != 0 {
                Phase::Finished
            } else {
                Phase::Running
            },
            _ => Phase::Finished,
        },
        _ => Phase::Finished,
    }
}

/// `r` is how a request starts: it is answered at once when its language is
/// unknown, when the language asks for an API key and the server holds none
/// or the request's bearer credential does not match it, or when no handler
/// serves the language; otherwise a session comes back, writing the prepared
/// files first, with the whole prepared program (or why there is none).
pub open spec fn starts_execution<'a>(
    reg: Map<Seq<char>, LangConfig>,
    work_dir: Seq<char>,
    req: ReqMulti,
    passed_token: Option<String>,
    api_token: Option<String>,
    r: (Option<ExecSession<'a>>, ExecAction),
) -> bool {
    &&& (!reg.contains_key(req.language@) ==> r.0 is None && responds(
            r.1,
            1,
            "Unsupported runtime"@,
            unsupported_language_message(req.language@),
            0,
        ))
    &&& (reg.contains_key(req.language@) ==> {
            let cfg = reg[req.language@];
            if cfg.authenticate && api_token is None {
                r.0 is None && fails_with(r.1, missing_token_message())
            } else if cfg.authenticate && !bearer_matches(passed_token, api_token->0@) {
                r.0 is None && responds(r.1, 401, Seq::empty(), auth_error_message(), 0)
            } else if kind_of(req.language@, cfg) is None {
                r.0 is None && fails_with(r.1, unsupported_language_message(req.language@))
            } else {
                &&& r.0 matches Some(s)
                &&& s.phase_of() == Phase::Writing
                &&& s.compiles() == cfg.compile
                &&& Some(s.handler_of().kind()) == kind_of(req.language@, cfg)
                &&& s.handler_of().settings() == cfg
                &&& r.1 matches ExecAction::WriteFiles(w)
                &&& writes_view(w@) == s.handler_of().prep_writes(req.files@, req.entry_file@)
                &&& (s.handler_of().kind() == LanguageKind::Javascript && ordinary_name(req.entry_file@) ==> (match s.program_of() {
                    Ok(p) => final_component(p.entry_file@) == Some(req.entry_file@),
                    Err(_) => false,
                }))
                &&& match s.handler_of().prep_outcome(work_dir, req.files@, req.entry_file@) {
                    Ok(v) => (match s.program_of() {
                        Ok(p) => program_view(p) == v,
                        Err(_) => false,
                    }),
                    Err(e) => (match s.program_of() {
                        Err(m) => m@ == e,
                        Ok(_) => false,
                    }),
                }
            }
        })
}

/// Starts the execution of `req`: looks up its language, checks the API key
/// where the language asks for one, and prepares the files. `passed_token`
/// is the request's `Authorization` header and `api_token` the server's
/// secret, if it has one. A session comes back exactly when the next action
/// is to write files.
pub fn execute_code<'a>(
    registry: &'a LangRegistry<LangConfig>,
    work_dir: &str,
    req: &ReqMulti,
    passed_token: Option<String>,
    api_token: Option<String>,
) -> (r: (Option<ExecSession<'a>>, ExecAction))
    ensures
        starts_execution(registry@, work_dir@, *req, passed_token, api_token, r),
{
    let config = match get_lang_config(registry, req.language.as_str()) {
        Ok(c) => c,
        Err(e) => {
            let resp = Resp { output: owned("Unsupported runtime"), std_log: e, time_ms: 0, code: 1 };
            return (None, ExecAction::Respond(Ok(resp)));
        },
    };
    if config.authenticate {
        let secret = match api_token {
            Some(s) => s,
            None => {
                return (None, ExecAction::Respond(Err(owned("Server configuration error"))));
            },
        };
        let mut expected = owned("Bearer ");
        expected.append(secret.as_str());
        let is_authorized = match &passed_token {
            Some(t) => same_text(t.as_str(), expected.as_str()),
            None => false,
        };
        if !is_authorized {
            let resp = Resp {
                output: String::new(),
                std_log: owned("Auth Error: This language requires a valid API key."),
                code: 401,
                time_ms: 0,
            };
            return (None, ExecAction::Respond(Ok(resp)));
        }
    }
    let handler = match get_handler(registry, req.language.as_str()) {
        Ok(h) => h,
        Err(e) => {
            return (None, ExecAction::Respond(Err(e)));
        },
    };
    let Preparation { writes, outcome } = handler.prepare(work_dir, req);
    let session = ExecSession {
        handler,
        compile: config.compile,
        phase: Phase::Writing,
        program: outcome,
    };
    (Some(session), ExecAction::WriteFiles(writes))
}

/// The answer to a request whose preparation failed with `e`.
fn preparation_failed(e: String) -> (a: ExecAction)
    ensures
        responds(a, 1, preparation_failed_message(), e@, 0),
{
    ExecAction::Respond(Ok(Resp { output: owned("Program preparation failed"), std_log: e, code: 1, time_ms: 0 }))
}

impl<'a> ExecSession<'a> {
    /// `a` is what follows this session's current phase on `event`: a
    /// failed write or preparation is answered as such; once the files are
    /// written the program is built (compiled languages) or run; a failed
    /// build is answered with its log and the program is not run; a finished
    /// run is answered with what it produced; an event that does not fit the
    /// phase ends the session with an internal error.
    pub open spec fn answers(&self, event: ExecEvent, a: ExecAction) -> bool {
        match (self.phase_of(), event) {
            (Phase::Writing, ExecEvent::FilesWritten(Err(e))) => responds(
                a,
                1,
                preparation_failed_message(),
                e@,
                0,
            ),
            (Phase::Writing, ExecEvent::FilesWritten(Ok(_))) => match self.program_of() {
                Err(e) => responds(a, 1, preparation_failed_message(), e@, 0),
                Ok(p) => a matches ExecAction::RunInSandbox(cmd) && if self.compiles() {
                    self.handler_of().is_compile_cmd(p, cmd@)
                } else {
                    self.handler_of().is_run_cmd(p, cmd@)
                },
            },
            (Phase::Compiling, ExecEvent::SandboxFinished(Err(e))) => fails_with(a, e@),
            (Phase::Compiling, ExecEvent::SandboxFinished(Ok(run))) => if run.code != 0 {
                responds(a, run.code, run.output@, compilation_error_prefix() + run.std_log@, 0)
            } else {
                a matches ExecAction::RunInSandbox(cmd) && self.program_of() is Ok
                    && self.handler_of().is_run_cmd(self.program_of()->Ok_0, cmd@)
            },
            (Phase::Running, ExecEvent::SandboxFinished(Err(e))) => fails_with(a, e@),
            (Phase::Running, ExecEvent::SandboxFinished(Ok(run))) => responds(
                a,
                run.code,
                run.output@,
                run.std_log@,
                run.time_ms,
            ),
            _ => fails_with(a, out_of_order_message()),
        }
    }

    /// On `event`, this session becomes `next` and answers `a`: only the
    /// phase moves, to `phase_after`, and `a` is the answer that `answers`
    /// states.
    pub open spec fn steps_to(&self, event: ExecEvent, next: ExecSession<'a>, a: ExecAction) -> bool {
        &&& next.handler_of() == self.handler_of()
        &&& next.compiles() == self.compiles()
        &&& next.program_of() == self.program_of()
        &&& next.phase_of() == phase_after(self.phase_of(), self.compiles(), self.program_of() is Ok, event)
        &&& self.answers(event, a)
    }

    /// This session and `other` stand at the same phase with the same
    /// handler, the same build choice and the same prepared program (or the
    /// same reason there is none), as plain values.
    pub open spec fn agrees_with(&self, other: ExecSession<'a>) -> bool {
        &&& self.phase_of() == other.phase_of()
        &&& self.compiles() == other.compiles()
        &&& self.handler_of() == other.handler_of()
        &&& program_result_view(self.program_of()) == program_result_view(other.program_of())
    }

    /// The phase and action that follow `event`.
    fn decide(&self, event: &ExecEvent) -> (r: (Phase, ExecAction))
        ensures
            r.0 == phase_after(self.phase_of(), self.compiles(), self.program_of() is Ok, *event),
            self.answers(*event, r.1),
    {
        proof { use_type_invariant(self); }
        let writing = match self.phase {
            Phase::Writing => true,
            _ => false,
        };
        let compiling = match self.phase {
            Phase::Compiling => true,
            _ => false,
        };
        let running = match self.phase {
            Phase::Running => true,
            _ => false,
        };
        match event {
            ExecEvent::FilesWritten(written) => {
                if !writing {
                    return (Phase::Finished, ExecAction::Respond(Err(owned("Execution Error: event out of order"))));
                }
                match written {
                    Err(e) => (Phase::Finished, preparation_failed(e.clone())),
                    Ok(_) => match &self.program {
                        Err(e) => (Phase::Finished, preparation_failed(e.clone())),
                        Ok(p) => {
                            if self.compile {
                                (Phase::Compiling, ExecAction::RunInSandbox(self.handler.compile_cmd(p)))
                            } else {
                                (Phase::Running, ExecAction::RunInSandbox(self.handler.run_cmd(p)))
                            }
                        },
                    },
                }
            },
            ExecEvent::SandboxFinished(finished) => {
                if !compiling && !running {
                    return (Phase::Finished, ExecAction::Respond(Err(owned("Execution Error: event out of order"))));
                }
                match finished {
                    Err(e) => (Phase::Finished, ExecAction::Respond(Err(e.clone()))),
                    Ok(run) => {
                        if compiling {
                            if run.code != 0 {
                                let mut log = owned("Compilation Error:\n");
                                log.append(run.std_log.as_str());
                                let resp = Resp { output: run.output.clone(), std_log: log, code: run.code, time_ms: 0 };
                                (Phase::Finished, ExecAction::Respond(Ok(resp)))
                            } else {
                                match &self.program {
                                    Ok(p) => (Phase::Running, ExecAction::RunInSandbox(self.handler.run_cmd(p))),
                                    Err(_) => {
                                        proof { assert(false); }
                                        (
                                            Phase::Finished,
                                            ExecAction::Respond(Err(owned("Execution Error: event out of order"))),
                                        )
                                    },
                                }
                            }
                        } else {
                            let resp = Resp {
                                output: run.output.clone(),
                                std_log: run.std_log.clone(),
                                code: run.code,
                                time_ms: run.time_ms,
                            };
                            (Phase::Finished, ExecAction::Respond(Ok(resp)))
                        }
                    },
                }
            },
        }
    }

    /// Takes the outcome of the last action and says what to do next.
    pub fn step(&mut self, event: ExecEvent) -> (a: ExecAction)
        ensures
            old(self).steps_to(event, *final(self), a),
    {
        proof { use_type_invariant(&*self); }
        let (phase, action) = self.decide(&event);
        self.phase = phase;
        action
    }
}

/// The phase reached from `phase` after the events `events`, in order.
pub open spec fn phase_after_all(phase: Phase, compile: bool, prepared: bool, events: Seq<ExecEvent>) -> Phase
    decreases events.len(),
{
    if events.len() == 0 {
        phase
    } else {
        phase_after(phase_after_all(phase, compile, prepared, events.drop_last()), compile, prepared, events.last())
    }
}

/// How many more events a phase can take before the session is finished.
pub open spec fn phases_left(phase: Phase) -> nat {
    match phase {
        Phase::Writing => 3,
        Phase::Compiling => 2,
        Phase::Running => 1,
        Phase::Finished => 0,
    }
}

/// Every event moves an unfinished session strictly closer to its end, and
/// a finished session stays finished.
pub proof fn law_step_progress(phase: Phase, compile: bool, prepared: bool, event: ExecEvent)
    ensures
        phase != Phase::Finished ==> phases_left(phase_after(phase, compile, prepared, event)) < phases_left(phase),
        phase == Phase::Finished ==> phase_after(phase, compile, prepared, event) == Phase::Finished,
{
}

/// A session started on a request is finished after at most three events,
/// whatever they are: every request is answered.
pub proof fn law_session_finishes(compile: bool, prepared: bool, events: Seq<ExecEvent>)
    requires
        events.len() >= 3,
    ensures
        phase_after_all(Phase::Writing, compile, prepared, events) == Phase::Finished,
{
    lemma_phases_left_bound(compile, prepared, events);
}

/// After `n` events at most `3 - n` steps are left.
proof fn lemma_phases_left_bound(compile: bool, prepared: bool, events: Seq<ExecEvent>)
    ensures
        phases_left(phase_after_all(Phase::Writing, compile, prepared, events)) + events.len() <= 3
            || phase_after_all(Phase::Writing, compile, prepared, events) == Phase::Finished,
    decreases events.len(),
{
    if events.len() > 0 {
        lemma_phases_left_bound(compile, prepared, events.drop_last());
        let p = phase_after_all(Phase::Writing, compile, prepared, events.drop_last());
        law_step_progress(p, compile, prepared, events.last());
    }
}

/// A build that exits with a non-zero code is answered with its output and
/// log, and the program is never run after it.
pub proof fn law_failed_build_is_answered(s: ExecSession, run: SandboxRun, a: ExecAction)
    requires
        s.phase_of() == Phase::Compiling,
        run.code != 0,
        s.answers(ExecEvent::SandboxFinished(Ok(run)), a),
    ensures
        responds(a, run.code, run.output@, compilation_error_prefix() + run.std_log@, 0),
        !(a is RunInSandbox),
        phase_after(s.phase_of(), s.compiles(), s.program_of() is Ok, ExecEvent::SandboxFinished(Ok(run)))
            == Phase::Finished,
{
}

/// A build that exits with code 0 is followed by running the prepared
/// program with the handler's run command, and the session moves on to the
/// run, whatever the build wrote to its log (warnings included); the session
/// answers a build with a reply only when its exit code is not 0.
pub proof fn law_successful_build_runs<'a>(s: ExecSession<'a>, run: SandboxRun, next: ExecSession<'a>, a: ExecAction)
    requires
        s.phase_of() == Phase::Compiling,
        s.steps_to(ExecEvent::SandboxFinished(Ok(run)), next, a),
    ensures
        run.code == 0 ==> (a matches ExecAction::RunInSandbox(cmd) && s.program_of() is Ok
            && s.handler_of().is_run_cmd(s.program_of()->Ok_0, cmd@)),
        run.code == 0 ==> next.phase_of() == Phase::Running,
        a is Respond ==> run.code != 0,
{
}

/// A finished run is answered with exactly what the program produced: its
/// exit code, its output, its log and its time, and the session ends.
pub proof fn law_finished_run_is_answered<'a>(s: ExecSession<'a>, run: SandboxRun, next: ExecSession<'a>, a: ExecAction)
    requires
        s.phase_of() == Phase::Running,
        s.steps_to(ExecEvent::SandboxFinished(Ok(run)), next, a),
    ensures
        a matches ExecAction::Respond(Ok(r)) && r.code == run.code && r.output@ == run.output@
            && r.std_log@ == run.std_log@ && r.time_ms == run.time_ms,
        next.phase_of() == Phase::Finished,
{
}

/// The program is run only once its files are written and, for a compiled
/// language, only after its build succeeded: a run command comes only from a
/// written, prepared, uncompiled session or from a successful build.
pub proof fn law_run_only_after_success(s: ExecSession, event: ExecEvent, a: ExecAction)
    requires
        s.answers(event, a),
        a is RunInSandbox,
    ensures
        s.program_of() is Ok,
        s.phase_of() == Phase::Writing ==> (match event {
            ExecEvent::FilesWritten(Ok(_)) => true,
            _ => false,
        }),
        s.phase_of() != Phase::Writing ==> s.phase_of() == Phase::Compiling && (match event {
            ExecEvent::SandboxFinished(Ok(run)) => run.code == 0,
            _ => false,
        }),
{
}

/// A session's answer to an event is fixed, as plain values: any two answers
/// the contract allows are the same files, the same command or the same
/// reply.
pub proof fn law_answer_determined(s: ExecSession, event: ExecEvent, a1: ExecAction, a2: ExecAction)
    requires
        s.answers(event, a1),
        s.answers(event, a2),
    ensures
        action_view(a1) == action_view(a2),
{
    match (a1, a2) {
        (ExecAction::RunInSandbox(c1), ExecAction::RunInSandbox(c2)) => {
            assert(views(c1@).len() == c1@.len() && views(c2@).len() == c2@.len());
            assert(views(c1@) =~= views(c2@));
        },
        _ => {},
    }
}

/// Sessions that agree, taking the same event, give the same action and
/// stay in agreement.
pub proof fn law_agreeing_sessions_step_alike<'a>(
    s1: ExecSession<'a>,
    s2: ExecSession<'a>,
    event: ExecEvent,
    n1: ExecSession<'a>,
    n2: ExecSession<'a>,
    a1: ExecAction,
    a2: ExecAction,
)
    requires
        s1.agrees_with(s2),
        s1.steps_to(event, n1, a1),
        s2.steps_to(event, n2, a2),
    ensures
        action_view(a1) == action_view(a2),
        n1.agrees_with(n2),
{
    assert(s2.answers(event, a1)) by {
        lemma_agreeing_sessions_answer_alike(s1, s2, event, a1);
    }
    law_answer_determined(s2, event, a1, a2);
}

/// What agreeing sessions allow as an answer is the same.
proof fn lemma_agreeing_sessions_answer_alike<'a>(s1: ExecSession<'a>, s2: ExecSession<'a>, event: ExecEvent, a: ExecAction)
    requires
        s1.agrees_with(s2),
        s1.answers(event, a),
    ensures
        s2.answers(event, a),
{
}

/// For a language that asks for no API key, the request's bearer
/// credential and the server's secret change nothing: both starts answer or
/// act alike, and the sessions they open agree, so (by
/// `law_agreeing_sessions_step_alike`) every later action is the same too.
pub proof fn law_token_irrelevant<'a>(
    reg: Map<Seq<char>, LangConfig>,
    work_dir: Seq<char>,
    req: ReqMulti,
    passed1: Option<String>,
    api1: Option<String>,
    r1: (Option<ExecSession<'a>>, ExecAction),
    passed2: Option<String>,
    api2: Option<String>,
    r2: (Option<ExecSession<'a>>, ExecAction),
)
    requires
        starts_execution(reg, work_dir, req, passed1, api1, r1),
        starts_execution(reg, work_dir, req, passed2, api2, r2),
        reg.contains_key(req.language@) ==> !reg[req.language@].authenticate,
    ensures
        r1.0 is Some <==> r2.0 is Some,
        action_view(r1.1) == action_view(r2.1),
        r1.0 is Some ==> r1.0->0.agrees_with(r2.0->0),
{
    if reg.contains_key(req.language@) {
        if r1.0 is Some {
            lemma_handler_determined(r1.0->0.handler_of(), r2.0->0.handler_of());
        }
    }
}

} // verus!
