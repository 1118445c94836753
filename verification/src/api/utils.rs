//! Request validation.
use vstd::prelude::*;

verus! {

/// A request body that can be checked before it is acted on.
pub trait Validate {
    /// Whether the value may be acted on, or the reason it may not.
    spec fn outcome(&self) -> Result<(), Seq<char>>;

    /// `Ok(())` when the value may be acted on, else the reason it may not,
    /// as [`Validate::outcome`] states.
    fn validate(&self) -> (r: Result<(), String>)
        ensures
            r is Ok <==> self.outcome() is Ok,
            r matches Err(e) ==> self.outcome() == Err::<(), Seq<char>>(e@),
    ;
}

/// A request body that has passed [`Validate::validate`].
pub struct ValidatedJson<T>(pub T);

impl<T: Validate> ValidatedJson<T> {
    /// Validates `value` and wraps it; a refusal hands back the reason.
    pub fn accept(value: T) -> (r: Result<ValidatedJson<T>, String>)
        ensures
            r is Ok <==> value.outcome() is Ok,
            r matches Ok(v) ==> v.0 == value,
            r matches Err(e) ==> value.outcome() == Err::<(), Seq<char>>(e@),
    {
        match value.validate() {
            Ok(()) => Ok(ValidatedJson(value)),
            Err(e) => Err(e),
        }
    }
}

} // verus!
