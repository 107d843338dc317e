//! Client-side core of a late-bound automation binding.
//!
//! A host process drives a closed automation object whose methods are known
//! only by name.  Everything the binding itself decides is in this crate and
//! verified: the tagged values exchanged with the object, the coercion rules
//! back to host types, the reversed marshalling of argument lists with
//! by-reference output slots, the name-to-identifier resolution cache, the
//! session lifecycle, and the fail-closed policy for output parameters when a
//! remote call fails.  The foreign calls themselves (apartment setup, object
//! creation, name lookup, dispatch) are performed by an unverified shell that
//! feeds their outcomes back into the functions of this crate.

use vstd::prelude::*;

pub mod call;
pub mod decimal;
pub mod error;
pub mod marshal;
pub mod ops;
pub mod resolve;
pub mod session;
pub mod value;

pub use call::CallOutcome;
pub use call::OpCall;
pub use error::AjError;
pub use marshal::Param;
pub use session::OpenGuard;
pub use session::ProviderConfig;
pub use session::Session;
pub use value::Tag;
pub use value::TypedValue;

verus! {

} // verus!
