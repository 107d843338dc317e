//! Errors of the binding, mirroring the four failure sources: session setup,
//! name resolution, the remote call itself, and value coercion.

use vstd::prelude::*;

verus! {

/// Why an operation of the binding failed.
///
/// `InvocationError` carries the provider's raw status code for the failed
/// remote call.  `CoercionError` is surfaced only for primary return values;
/// output parameters recover from it locally with sentinel values instead.
#[derive(Clone, Copy, Debug, PartialEq, Eq, Structural)]
pub enum AjError {
    /// The threading apartment or the automation object could not be set up.
    InitializationError,
    /// The object does not export a method under the requested name.
    UnknownMethodError,
    /// The remote call failed; the payload is the provider's status code.
    InvocationError(i32),
    /// A value could not be converted to the requested tag.
    CoercionError,
}

impl AjError {
    /// The error rendered as text, for callers that want to display it.
    pub fn describe(&self) -> (r: &'static str)
        ensures
            self is InitializationError ==> r@ == "initialization failed"@,
            self is UnknownMethodError ==> r@ == "unknown method name"@,
            self is InvocationError ==> r@ == "remote invocation failed"@,
            self is CoercionError ==> r@ == "value coercion failed"@,
    {
        match self {
            AjError::InitializationError => "initialization failed",
            AjError::UnknownMethodError => "unknown method name",
            AjError::InvocationError(_) => "remote invocation failed",
            AjError::CoercionError => "value coercion failed",
        }
    }
}

} // verus!
