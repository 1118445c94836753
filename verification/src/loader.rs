//! Looking up language settings with numeric limits; a missing language is
//! a configuration fault.
use vstd::prelude::*;
use crate::models::LangConfig;
use crate::registry::LangRegistry;

verus! {

/// The settings of `lang`, which must be present (a missing language is a
/// configuration fault).
pub fn get_lang_config<'a>(registry: &'a LangRegistry<LangConfig>, lang: &str) -> (r: &'a LangConfig)
    requires
        registry@.contains_key(lang@),
    ensures
        *r == registry@[lang@],
{
    registry.get(lang).unwrap()
}

} // verus!
