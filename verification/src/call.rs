//! The invocation engine's host-side halves: what a call looks like before
//! it is dispatched, and how its outcome is read back.
//!
//! The dispatch itself is a foreign, blocking call against the bound
//! object.  This module decides everything around it:
//!
//! * [`OpCall`] describes one operation: method name, declared parameters
//!   in caller-visible order, and the tag of the primary return value.
//! * [`CallOutcome`] is what came back: the provider's status code when the
//!   call failed, or the primary return value together with the values the
//!   callee wrote into the output slots, listed in declared order.
//! * The `finish_*` readers coerce the primary return value and propagate
//!   both invocation and coercion failures.
//! * The `out_*` readers coerce one output slot and never fail: a failed
//!   call, a missing slot or an uncoercible value all read back as the
//!   fail-closed sentinel, `-1` for numbers and empty text for text.

use vstd::prelude::*;

use crate::error::AjError;
use crate::marshal::Param;
use crate::value::coerce_i32_model;
use crate::value::coerce_i64_model;
use crate::value::coerce_text_model;
use crate::value::Tag;
use crate::value::TypedValue;
use crate::value::ValueModel;

verus! {

/// One operation against the automation object, before dispatch.
pub struct OpCall {
    /// The method name to resolve and call.
    pub name: String,
    /// The declared parameters, in caller-visible order.
    pub params: Vec<Param>,
    /// The tag the primary return value is coerced to.
    pub ret: Tag,
}

/// What a dispatched call came back with.
pub enum CallOutcome {
    /// The remote call failed; the payload is the provider's status code.
    Failed(i32),
    /// The remote call returned: the primary return value, and the values
    /// the callee wrote into the output slots, in declared order.
    Returned(TypedValue, Vec<TypedValue>),
}

/// The models of a sequence of values.
pub open spec fn values_model(s: Seq<TypedValue>) -> Seq<ValueModel> {
    Seq::new(s.len(), |i: int| s[i]@)
}

/// The mathematical model of a call outcome.
pub enum OutcomeModel {
    /// The remote call failed with this status code.
    Failed(i32),
    /// The remote call returned this value, with these output slot values.
    Returned(ValueModel, Seq<ValueModel>),
}

/// The model of an outcome: values by their models.
pub open spec fn outcome_model(o: CallOutcome) -> OutcomeModel {
    match o {
        CallOutcome::Failed(code) => OutcomeModel::Failed(code),
        CallOutcome::Returned(ret, outs) => OutcomeModel::Returned(ret@, values_model(outs@)),
    }
}

impl View for CallOutcome {
    type V = OutcomeModel;

    open spec fn view(&self) -> OutcomeModel {
        outcome_model(*self)
    }
}

/// What reading the primary return value as a 32-bit integer yields: the
/// invocation error of a failed call, the coercion error of an uncoercible
/// return value, or the number.
pub open spec fn finish_i32_model(o: OutcomeModel) -> Result<i32, AjError> {
    match o {
        OutcomeModel::Failed(code) => Err(AjError::InvocationError(code)),
        OutcomeModel::Returned(ret, _) => match coerce_i32_model(ret) {
            Some(n) => Ok(n),
            None => Err(AjError::CoercionError),
        },
    }
}

/// Like [`finish_i32_model`], for a 64-bit integer return value.
pub open spec fn finish_i64_model(o: OutcomeModel) -> Result<i64, AjError> {
    match o {
        OutcomeModel::Failed(code) => Err(AjError::InvocationError(code)),
        OutcomeModel::Returned(ret, _) => match coerce_i64_model(ret) {
            Some(n) => Ok(n),
            None => Err(AjError::CoercionError),
        },
    }
}

/// Like [`finish_i32_model`], for a text return value.
pub open spec fn finish_text_model(o: OutcomeModel) -> Result<Seq<char>, AjError> {
    match o {
        OutcomeModel::Failed(code) => Err(AjError::InvocationError(code)),
        OutcomeModel::Returned(ret, _) => match coerce_text_model(ret) {
            Some(t) => Ok(t),
            None => Err(AjError::CoercionError),
        },
    }
}

/// Read the primary return value as a 32-bit integer.
pub fn finish_i32(outcome: &CallOutcome) -> (r: Result<i32, AjError>)
    ensures
        r == finish_i32_model(outcome@),
{
    match outcome {
        CallOutcome::Failed(code) => Err(AjError::InvocationError(*code)),
        CallOutcome::Returned(ret, _) => ret.to_i32(),
    }
}

/// Read the primary return value as a 64-bit integer.
pub fn finish_i64(outcome: &CallOutcome) -> (r: Result<i64, AjError>)
    ensures
        r == finish_i64_model(outcome@),
{
    match outcome {
        CallOutcome::Failed(code) => Err(AjError::InvocationError(*code)),
        CallOutcome::Returned(ret, _) => ret.to_i64(),
    }
}

/// Read the primary return value as text.  Unlike output slots, a primary
/// text return propagates its coercion failure.
pub fn finish_text(outcome: &CallOutcome) -> (r: Result<String, AjError>)
    ensures
        finish_text_model(outcome@) matches Ok(t) ==> r matches Ok(s) && s@ == t,
        finish_text_model(outcome@) matches Err(e) ==> r == Err::<String, AjError>(e),
{
    match outcome {
        CallOutcome::Failed(code) => Err(AjError::InvocationError(*code)),
        CallOutcome::Returned(ret, _) => ret.to_text(),
    }
}

/// What output slot `i` reads back as a 32-bit integer: the number, or the
/// fail-closed sentinel `-1` when the call failed, the slot is missing, or
/// the written value does not coerce.
pub open spec fn out_i32_model(o: OutcomeModel, i: int) -> i32 {
    match o {
        OutcomeModel::Failed(_) => -1i32,
        OutcomeModel::Returned(_, outs) => if 0 <= i < outs.len() {
            match coerce_i32_model(outs[i]) {
                Some(n) => n,
                None => -1i32,
            }
        } else {
            -1i32
        },
    }
}

/// What output slot `i` reads back as text: the text, or the fail-closed
/// empty text when the call failed, the slot is missing, or the written
/// value does not coerce.
pub open spec fn out_text_model(o: OutcomeModel, i: int) -> Seq<char> {
    match o {
        OutcomeModel::Failed(_) => Seq::<char>::empty(),
        OutcomeModel::Returned(_, outs) => if 0 <= i < outs.len() {
            match coerce_text_model(outs[i]) {
                Some(t) => t,
                None => Seq::<char>::empty(),
            }
        } else {
            Seq::<char>::empty()
        },
    }
}

/// Read output slot `i` as a 32-bit integer, fail-closed.
pub fn out_i32(outcome: &CallOutcome, i: usize) -> (r: i32)
    ensures
        r == out_i32_model(outcome@, i as int),
{
    match outcome {
        CallOutcome::Failed(_) => -1,
        CallOutcome::Returned(_, outs) => {
            if i < outs.len() {
                let v: &TypedValue = &outs[i];
                proof {
                    assert(values_model(outs@)[i as int] == outs@[i as int]@);
                }
                match v.to_i32() {
                    Ok(n) => n,
                    Err(_) => -1,
                }
            } else {
                -1
            }
        },
    }
}

/// Read output slot `i` as text, fail-closed.
pub fn out_text(outcome: &CallOutcome, i: usize) -> (r: String)
    ensures
        r@ == out_text_model(outcome@, i as int),
{
    match outcome {
        CallOutcome::Failed(_) => String::new(),
        CallOutcome::Returned(_, outs) => {
            if i < outs.len() {
                let v: &TypedValue = &outs[i];
                proof {
                    assert(values_model(outs@)[i as int] == outs@[i as int]@);
                }
                match v.to_text() {
                    Ok(s) => s,
                    Err(_) => String::new(),
                }
            } else {
                String::new()
            }
        },
    }
}

/// When the remote call itself fails, every output parameter reads back as
/// its fail-closed sentinel — `-1` for numbers, empty text for text — and
/// every primary return value is the invocation error carrying the
/// provider's status code.
pub proof fn lemma_failed_call_fail_closed(o: OutcomeModel, i: int)
    ensures
        o is Failed ==> out_i32_model(o, i) == -1,
        o is Failed ==> out_text_model(o, i) =~= Seq::<char>::empty(),
        o matches OutcomeModel::Failed(code) ==> finish_i32_model(o) == Err::<i32, AjError>(
            AjError::InvocationError(code),
        ) && finish_i64_model(o) == Err::<i64, AjError>(AjError::InvocationError(code))
            && finish_text_model(o) == Err::<Seq<char>, AjError>(AjError::InvocationError(code)),
{
}

} // verus!
