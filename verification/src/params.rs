//! The values a request's parameter map can carry. The engine never inspects
//! a parameter; it only hands the map to the encoder, so the variants below
//! mirror the shapes the wire format accepts.

use vstd::prelude::*;

verus! {

/// One value of a request's parameter map. Numbers are carried as integers:
/// the commands this client issues take no fractional numbers, and the
/// verified engine holds no floating point.
#[derive(Debug)]
pub enum ParamValue {
    Null,
    Bool(bool),
    Int(i64),
    Str(String),
    List(Vec<ParamValue>),
    Obj(Vec<(String, ParamValue)>),
}

/// Parameter type to the send method.
pub type MessageParameter = ParamValue;

/// Whether a parameter value nests no deeper than `d` container levels: a
/// scalar nests none; a list or object spends one level and its entries must
/// fit in what remains.
pub open spec fn depth_at_most(p: ParamValue, d: nat) -> bool
    decreases d,
{
    match p {
        ParamValue::Null => true,
        ParamValue::Bool(_) => true,
        ParamValue::Int(_) => true,
        ParamValue::Str(_) => true,
        ParamValue::List(v) => d > 0 && (forall|i: int|
            0 <= i < v@.len() ==> depth_at_most(#[trigger] v@[i], (d - 1) as nat)),
        ParamValue::Obj(v) => d > 0 && (forall|i: int|
            0 <= i < v@.len() ==> depth_at_most((#[trigger] v@[i]).1, (d - 1) as nat)),
    }
}

} // verus!
