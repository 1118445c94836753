//! Looking up the settings of a language.
use vstd::prelude::*;
use crate::config::models::LangConfig;
use crate::registry::LangRegistry;
use crate::text::owned;

verus! {

/// The message that answers a request for a language with no settings.
pub open spec fn unsupported_language_message(lang: Seq<char>) -> Seq<char> {
    "Unsupported language: "@ + lang
}

/// The settings of `lang`, or the message that it is not supported.
pub fn get_lang_config<'a>(registry: &'a LangRegistry<LangConfig>, lang: &str) -> (r: Result<
    &'a LangConfig,
    String,
>)
    ensures
        match r {
            Ok(c) => registry@.contains_key(lang@) && *c == registry@[lang@],
            Err(e) => !registry@.contains_key(lang@) && e@ == unsupported_language_message(lang@),
        },
{
    match registry.get(lang) {
        Some(c) => Ok(c),
        None => {
            let mut msg = owned("Unsupported language: ");
            msg.append(lang);
            Err(msg)
        },
    }
}

} // verus!
