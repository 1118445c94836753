//! What the HTTP handlers decide, apart from the HTTP plumbing.
use vstd::prelude::*;
use crate::config::models::{
    is_first_unsafe, names_entry, unsafe_file_name, validation_outcome, File, LangConfig, Req,
    ReqMulti, Resp,
};
use crate::config::utils::get_lang_config;
use crate::registry::LangRegistry;

verus! {

/// The status of a request whose language is unknown.
pub const BAD_REQUEST: u16 = 400;

/// The status of a request that failed inside the engine.
pub const INTERNAL_SERVER_ERROR: u16 = 500;

/// `m` is the multi-file form of the single-file request `req` for a
/// language whose entry file is named `source`: one file under that name
/// holding the code, which is also the entry file.
pub open spec fn is_single_request(source: Seq<char>, req: Req, m: ReqMulti) -> bool {
    &&& m.language == req.language
    &&& m.files@.len() == 1
    &&& m.files@[0].name@ == source
    &&& m.files@[0].content == req.code
    &&& m.entry_file@ == source
}

/// Turns a single-file request into a multi-file one, naming the file after
/// the language's entry source; an unknown language is a bad request.
pub fn single_request(registry: &LangRegistry<LangConfig>, req: Req) -> (r: Result<ReqMulti, u16>)
    ensures
        match r {
            Ok(m) => registry@.contains_key(req.language@) && is_single_request(
                registry@[req.language@].source@,
                req,
                m,
            ),
            Err(status) => !registry@.contains_key(req.language@) && status == BAD_REQUEST,
        },
{
    let lang_config = match get_lang_config(registry, req.language.as_str()) {
        Ok(c) => c,
        Err(_) => {
            return Err(BAD_REQUEST);
        },
    };
    let file = File { name: lang_config.source.clone(), content: req.code };
    let mut files: Vec<File> = Vec::new();
    files.push(file);
    Ok(ReqMulti { entry_file: lang_config.source.clone(), files, language: req.language })
}

/// The HTTP answer to the engine's result: its response, or an internal
/// server error.
pub fn execution_status(result: Result<Resp, String>) -> (r: Result<Resp, u16>)
    ensures
        match result {
            Ok(resp) => r == Ok::<Resp, u16>(resp),
            Err(_) => r == Err::<Resp, u16>(INTERNAL_SERVER_ERROR),
        },
{
    match result {
        Ok(resp) => Ok(resp),
        Err(_) => Err(INTERNAL_SERVER_ERROR),
    }
}

/// A single-file request passes validation exactly when its language's entry
/// source name is safe; otherwise it is refused as a path violation naming
/// that file.
pub proof fn law_single_request_validation(source: Seq<char>, req: Req, m: ReqMulti)
    requires
        is_single_request(source, req, m),
    ensures
        validation_outcome(m) is Ok <==> !unsafe_file_name(source),
        unsafe_file_name(source) ==> validation_outcome(m) == Err::<(), Seq<char>>(
            "Security Violation: Invalid path in filename '"@ + source + "'"@,
        ),
{
    assert(names_entry(m.files@, m.entry_file@)) by {
        assert(m.files@[0].name@ == m.entry_file@);
    }
    if unsafe_file_name(source) {
        assert(is_first_unsafe(m.files@, 0));
        let i = choose|i: int| is_first_unsafe(m.files@, i);
        assert(i == 0);
    } else {
        assert forall|i: int| !is_first_unsafe(m.files@, i) by {}
    }
}

} // verus!
