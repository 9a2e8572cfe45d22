//! What generated validation code needs while it runs: the error it reports,
//! the trait it implements, and the wrapper for a value that passed.

use vstd::prelude::*;
use vstd::string::StringExecFns;

verus! {

/// The outcome of a failed validation: what went wrong, and on which record type.
#[derive(Debug, Clone)]
pub struct ValidationError {
    msg: String,
    src: String,
}

impl ValidationError {
    /// The text that describes the failed rule.
    pub closed spec fn spec_message(&self) -> Seq<char> {
        self.msg@
    }

    /// The name of the record type that was validated.
    pub closed spec fn spec_source(&self) -> Seq<char> {
        self.src@
    }

    /// The text that describes the failed rule.
    pub fn message(&self) -> (text: &str)
        ensures
            text@ == self.spec_message(),
    {
        self.msg.as_str()
    }

    /// The name of the record type that was validated.
    pub fn source(&self) -> (text: &str)
        ensures
            text@ == self.spec_source(),
    {
        self.src.as_str()
    }

    pub fn new(msg: String, src: String) -> (e: Self)
        ensures
            e.spec_message() == msg@,
            e.spec_source() == src@,
    {
        ValidationError { msg, src }
    }

    /// The error as one line of text: the record type, then the message.
    pub fn to_string(&self) -> (text: String)
        ensures
            text@ == "Error validating '"@ + self.spec_source() + "': "@ + self.spec_message(),
    {
        let mut text = "Error validating '".to_owned();
        text.append(self.src.as_str());
        text.append("': ");
        text.append(self.msg.as_str());
        text
    }
}

impl PartialEq for ValidationError {
    fn eq(&self, other: &Self) -> (equal: bool) {
        self.msg == other.msg && self.src == other.src
    }
}

impl vstd::std_specs::cmp::PartialEqSpecImpl for ValidationError {
    open spec fn obeys_eq_spec() -> bool {
        true
    }

    open spec fn eq_spec(&self, other: &Self) -> bool {
        self.spec_message() == other.spec_message() && self.spec_source() == other.spec_source()
    }
}

/// A type that can check its own value.
pub trait Validator: Sized {
    /// Checks the value and reports the rule that failed, if one did.
    fn validate(&self) -> Result<(), ValidationError>;

    /// Converts the value as `Validated::wrapped` says, by what `validate`
    /// returned for it: wrapped after a success, else the error handed on.
    fn try_into_validated(self) -> (r: Result<Validated<Self>, ValidationError>)
        ensures
            exists|verdict: Result<(), ValidationError>|
                {
                    &&& #[trigger] call_ensures(Self::validate, (&self,), verdict)
                    &&& r == Validated::wrapped(self, verdict)
                    &&& verdict is Ok ==> r is Ok
                    &&& verdict matches Err(e) ==> r == Err::<Validated<Self>, ValidationError>(e)
                },
            r matches Ok(v) ==> v@ == self,
    {
        let verdict = self.validate();
        Validated::from_verdict(self, verdict)
    }
}

/// A value of `T` that is held to satisfy `T`'s rules.
pub struct Validated<T> {
    inner: T,
}

impl<T> View for Validated<T> {
    type V = T;

    closed spec fn view(&self) -> T {
        self.inner
    }
}

impl<T> Validated<T> {
    /// What the conversion of `inner` gives, where `verdict` is what
    /// validating `inner` gave: the wrapper around `inner` after a success,
    /// the error of `verdict` otherwise.
    pub closed spec fn wrapped(inner: T, verdict: Result<(), ValidationError>) -> Result<
        Self,
        ValidationError,
    > {
        match verdict {
            Ok(_) => Ok(Validated { inner }),
            Err(e) => Err(e),
        }
    }

    /// Wraps a value without checking it. The caller has to know that the
    /// value passes `validate`.
    pub fn new_unchecked(inner: T) -> (v: Self)
        ensures
            v@ == inner,
    {
        Validated::<T> { inner }
    }

    /// Wraps `inner` if `verdict`, the result of validating it, is a success,
    /// and hands the error on if it is not.
    pub fn from_verdict(inner: T, verdict: Result<(), ValidationError>) -> (r: Result<
        Self,
        ValidationError,
    >)
        ensures
            r == Self::wrapped(inner, verdict),
            verdict is Ok ==> (r matches Ok(v) && v@ == inner),
            verdict matches Err(e) ==> r == Err::<Self, ValidationError>(e),
    {
        match verdict {
            Ok(_) => Ok(Validated { inner }),
            Err(err) => Err(err),
        }
    }

    /// Gives the wrapped value back.
    pub fn into_inner(self) -> (inner: T)
        ensures
            inner == self@,
    {
        self.inner
    }
}

impl<T> core::ops::Deref for Validated<T> {
    type Target = T;

    fn deref(&self) -> (r: &T)
        ensures
            *r == self@,
    {
        &self.inner
    }
}

impl<T> core::ops::DerefMut for Validated<T> {
    fn deref_mut(&mut self) -> (r: &mut T)
        ensures
            *r == old(self)@,
            final(self)@ == *final(r),
    {
        &mut self.inner
    }
}

/// A value that passes validation and is converted into its wrapper comes
/// back unchanged when the wrapper is taken off again: the wrapper holds
/// the value, and `into_inner` returns what the wrapper holds.
pub proof fn lemma_round_trip<T>(inner: T, verdict: Result<(), ValidationError>)
    requires
        verdict is Ok,
    ensures
        Validated::wrapped(inner, verdict) matches Ok(v) && v@ == inner,
{
}

} // verus!
