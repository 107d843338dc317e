//! The argument marshaller: from a declared parameter list to the argument
//! vector the call convention consumes.
//!
//! An operation declares its parameters in caller-visible order, each either
//! an input value or an output slot of a given tag.  The call convention
//! consumes arguments last-declared-first, so the marshalled vector is the
//! exact reverse of the declared order.  Input text that is empty marshals
//! to the explicit empty value; an output parameter marshals to a
//! by-reference wrapper around a freshly zeroed slot for the callee to write
//! into.

use vstd::prelude::*;

use crate::value::tag_of;
use crate::value::text_value;
use crate::value::value_model;
use crate::value::wf_value;
use crate::value::Tag;
use crate::value::TypedValue;
use crate::value::ValueModel;

verus! {

/// One declared parameter of an operation, in caller-visible order.
#[derive(Debug)]
pub enum Param {
    /// An input, supplied by the caller.
    In(TypedValue),
    /// An output slot the callee writes into; the tag is what the caller
    /// will coerce the written value to.
    Out(Tag),
}

/// The mathematical model of a declared parameter.
pub enum ParamModel {
    /// An input, by its value model.
    In(ValueModel),
    /// An output slot of the given tag.
    Out(Tag),
}

/// The model of a parameter: inputs by their value model.
pub open spec fn param_model(p: Param) -> ParamModel {
    match p {
        Param::In(v) => ParamModel::In(v@),
        Param::Out(t) => ParamModel::Out(t),
    }
}

impl View for Param {
    type V = ParamModel;

    open spec fn view(&self) -> ParamModel {
        param_model(*self)
    }
}

/// How one input value crosses the boundary: empty text becomes the
/// explicit empty value, everything else passes through unchanged.
pub open spec fn in_marshal(v: ValueModel) -> ValueModel {
    match v {
        ValueModel::Text(t) => text_value(t),
        _ => v,
    }
}

/// What one declared parameter contributes to the argument vector: inputs
/// as [`in_marshal`] says, outputs as a by-reference wrapper around an
/// empty slot.
pub open spec fn marshal_one(p: ParamModel) -> ValueModel {
    match p {
        ParamModel::In(v) => in_marshal(v),
        ParamModel::Out(_) => ValueModel::ByRef(Box::new(ValueModel::Empty)),
    }
}

/// Marshal one declared parameter.
fn marshal_param(p: Param) -> (v: TypedValue)
    ensures
        v@ == marshal_one(p@),
{
    match p {
        Param::In(v) => match v {
            TypedValue::Text(s) => {
                if s.as_str().is_empty() {
                    TypedValue::Empty
                } else {
                    TypedValue::Text(s)
                }
            },
            passthrough => passthrough,
        },
        Param::Out(_) => {
            let slot: TypedValue = TypedValue::Empty;
            proof {
                assert(value_model(slot) == ValueModel::Empty);
            }
            TypedValue::ByRef(Box::new(slot))
        },
    }
}

/// Build the argument vector for a declared parameter list.
///
/// The result has one argument per declared parameter, in exactly reversed
/// order: argument `i` is the marshalled form of declared parameter
/// `n - 1 - i`.
pub fn build(params: Vec<Param>) -> (args: Vec<TypedValue>)
    ensures
        args@.len() == params@.len(),
        forall|i: int|
            0 <= i < args@.len() ==> args@[i]@ == marshal_one(
                params@[params@.len() - 1 - i]@,
            ),
{
    let ghost declared: Seq<Param> = params@;
    let mut rest: Vec<Param> = params;
    let mut args: Vec<TypedValue> = Vec::new();
    while rest.len() > 0
        invariant
            args@.len() + rest@.len() == declared.len(),
            rest@ == declared.take(rest@.len() as int),
            forall|i: int|
                0 <= i < args@.len() ==> args@[i]@ == marshal_one(
                    declared[declared.len() - 1 - i]@,
                ),
        decreases rest@.len(),
    {
        let p: Param = rest.pop().unwrap();
        proof {
            assert(p == declared[rest@.len() as int]);
            assert(rest@ =~= declared.take(rest@.len() as int));
        }
        let v: TypedValue = marshal_param(p);
        args.push(v);
    }
    args
}

/// An output parameter always marshals to a well-formed by-reference
/// value: a location wrapping no data, of the by-reference tag, whatever
/// tag the caller will later coerce the written value to.
pub proof fn lemma_out_slot_well_formed(t: Tag)
    ensures
        marshal_one(ParamModel::Out(t)) == ValueModel::ByRef(Box::new(ValueModel::Empty)),
        wf_value(marshal_one(ParamModel::Out(t))),
        tag_of(marshal_one(ParamModel::Out(t))) == Tag::ByRef,
{
}

/// The declared-order reading of the marshalled vector: since the argument
/// vector is the reverse of the declared parameter list, reading it back in
/// reverse recovers the marshalled form of each declared parameter in its
/// original position.
pub proof fn lemma_arglist_reversal(params: Seq<ParamModel>, args: Seq<ValueModel>)
    requires
        args.len() == params.len(),
        forall|i: int| 0 <= i < args.len() ==> args[i] == marshal_one(params[params.len() - 1 - i]),
    ensures
        forall|i: int| 0 <= i < params.len() ==> args[params.len() - 1 - i] == marshal_one(
            params[i],
        ),
{
    assert forall|i: int| 0 <= i < params.len() implies args[params.len() - 1 - i] == marshal_one(
        params[i],
    ) by {
        let j: int = params.len() - 1 - i;
        assert(args[j] == marshal_one(params[params.len() - 1 - j]));
    }
}

} // verus!
