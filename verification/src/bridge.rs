//! The value bridge: total, panic-free conversion between host values
//! and engine values, in both directions.
//!
//! Both directions are pure and never fail: anything the target side
//! cannot represent degrades to the closest safe representation
//! (a tuple narrows to an array, an opaque engine value becomes the
//! host's nil sentinel) instead of erroring.

use vstd::prelude::*;

use crate::value::{DynVal, DynamicValue, HostVal, HostValue};

verus! {

broadcast use vstd::std_specs::vec::group_vec_axioms, vstd::seq::group_seq_axioms;

/// What `to_dynamic` computes, on the mathematical models.
pub open spec fn to_dyn_spec(v: HostVal) -> DynVal
    decreases v,
{
    match v {
        HostVal::Null => DynVal::Unit,
        HostVal::Bool(b) => DynVal::Bool(b),
        HostVal::Int(i) => DynVal::Int(i),
        HostVal::Float(bits) => DynVal::Float(bits),
        HostVal::Str(s) => DynVal::Str(s),
        HostVal::List(items) => DynVal::Array(
            Seq::new(items.len(), |i: int| if 0 <= i < items.len() { to_dyn_spec(items[i]) } else { arbitrary() }),
        ),
        HostVal::Tuple(items) => DynVal::Array(
            Seq::new(items.len(), |i: int| if 0 <= i < items.len() { to_dyn_spec(items[i]) } else { arbitrary() }),
        ),
        HostVal::Mapping(pairs) => DynVal::Mapping(
            Seq::new(pairs.len(), |i: int| if 0 <= i < pairs.len() { (pairs[i].0, to_dyn_spec(pairs[i].1)) } else { arbitrary() }),
        ),
    }
}

/// What `from_dynamic` computes, on the mathematical models.
pub open spec fn from_dyn_spec(d: DynVal) -> HostVal
    decreases d,
{
    match d {
        DynVal::Unit => HostVal::Null,
        DynVal::Bool(b) => HostVal::Bool(b),
        DynVal::Int(i) => HostVal::Int(i),
        DynVal::Float(bits) => HostVal::Float(bits),
        DynVal::Str(s) => HostVal::Str(s),
        DynVal::Char(c) => HostVal::Str(seq![c]),
        DynVal::Array(items) => HostVal::List(
            Seq::new(items.len(), |i: int| if 0 <= i < items.len() { from_dyn_spec(items[i]) } else { arbitrary() }),
        ),
        DynVal::Mapping(pairs) => HostVal::Mapping(
            Seq::new(pairs.len(), |i: int| if 0 <= i < pairs.len() { (pairs[i].0, from_dyn_spec(pairs[i].1)) } else { arbitrary() }),
        ),
        DynVal::Opaque => HostVal::Null,
    }
}

/// True when no tuple occurs anywhere inside the value.
pub open spec fn tuple_free(v: HostVal) -> bool
    decreases v,
{
    match v {
        HostVal::Tuple(_) => false,
        HostVal::List(items) => forall|i: int|
            0 <= i < items.len() ==> tuple_free(#[trigger] items[i]),
        HostVal::Mapping(pairs) => forall|i: int|
            0 <= i < pairs.len() ==> tuple_free(#[trigger] pairs[i].1),
        _ => true,
    }
}

/// Converting back from the engine always lands in the tuple-free
/// fragment of the host model: the engine has no fixed-arity tuples.
pub proof fn lemma_from_dyn_tuple_free(d: DynVal)
    ensures
        tuple_free(from_dyn_spec(d)),
    decreases d,
{
    match d {
        DynVal::Array(items) => {
            let out = from_dyn_spec(d)->List_0;
            assert forall|i: int| 0 <= i < out.len() implies tuple_free(#[trigger] out[i]) by {
                assert(out[i] == from_dyn_spec(items[i]));
                lemma_from_dyn_tuple_free(items[i]);
            }
        },
        DynVal::Mapping(pairs) => {
            let out = from_dyn_spec(d)->Mapping_0;
            assert forall|i: int| 0 <= i < out.len() implies tuple_free(#[trigger] out[i].1) by {
                assert(out[i].1 == from_dyn_spec(pairs[i].1));
                lemma_from_dyn_tuple_free(pairs[i].1);
            }
        },
        _ => {},
    }
}

/// Round-trip law: a host value that holds no tuple survives the trip
/// through the engine's value model unchanged.
pub proof fn lemma_round_trip(v: HostVal)
    requires
        tuple_free(v),
    ensures
        from_dyn_spec(to_dyn_spec(v)) == v,
    decreases v,
{
    match v {
        HostVal::List(items) => {
            let mid = to_dyn_spec(v)->Array_0;
            let round = from_dyn_spec(to_dyn_spec(v))->List_0;
            assert forall|i: int| 0 <= i < items.len() implies #[trigger] round[i] == items[i] by {
                assert(mid[i] == to_dyn_spec(items[i]));
                assert(round[i] == from_dyn_spec(mid[i]));
                lemma_round_trip(items[i]);
            }
            assert(round =~= items);
        },
        HostVal::Mapping(pairs) => {
            let mid = to_dyn_spec(v)->Mapping_0;
            let round = from_dyn_spec(to_dyn_spec(v))->Mapping_0;
            assert forall|i: int| 0 <= i < pairs.len() implies #[trigger] round[i] == pairs[i] by {
                assert(mid[i] == (pairs[i].0, to_dyn_spec(pairs[i].1)));
                assert(round[i] == (mid[i].0, from_dyn_spec(mid[i].1)));
                lemma_round_trip(pairs[i].1);
                assert(round[i].0 == pairs[i].0);
                assert(round[i].1 == pairs[i].1);
            }
            assert(round =~= pairs);
        },
        _ => {},
    }
}

/// Relies on `char`'s `Display` through `str::to_string`: the text of a
/// character is that one character.
#[verifier::external_body]
fn char_to_string(c: char) -> (r: String)
    ensures
        r@ == seq![c],
{
    c.to_string()
}

/// Convert a host value into the engine's value model.
///
/// Total and panic-free: booleans, integers, floats and text pass
/// through; the nil sentinel becomes the engine's unit; lists and
/// tuples both become arrays (tuple-ness is narrowed away, the engine
/// has no fixed-arity tuple type); mappings convert key-wise.
pub fn to_dynamic(v: &HostValue) -> (r: DynamicValue)
    ensures
        r@ == to_dyn_spec(v@),
    decreases *v, 1int,
{
    match v {
        HostValue::Null => DynamicValue::Unit,
        HostValue::Bool(b) => DynamicValue::Bool(*b),
        HostValue::Int(i) => DynamicValue::Int(*i),
        HostValue::Float(bits) => DynamicValue::Float(*bits),
        HostValue::Str(s) => DynamicValue::Str(s.clone()),
        HostValue::List(items) => {
            let r = DynamicValue::Array(to_dynamic_elements(v, items));
            proof {
                let target = to_dyn_spec(v@)->Array_0;
                let got = r@->Array_0;
                assert forall|j: int| 0 <= j < got.len() implies #[trigger] got[j] == target[j] by {
                    assert(target[j] == to_dyn_spec(v@->List_0[j]));
                    assert(v@->List_0[j] == items@[j]@);
                }
                assert(got =~= target);
            }
            r
        },
        HostValue::Tuple(items) => {
            let r = DynamicValue::Array(to_dynamic_elements(v, items));
            proof {
                let target = to_dyn_spec(v@)->Array_0;
                let got = r@->Array_0;
                assert forall|j: int| 0 <= j < got.len() implies #[trigger] got[j] == target[j] by {
                    assert(target[j] == to_dyn_spec(v@->Tuple_0[j]));
                    assert(v@->Tuple_0[j] == items@[j]@);
                }
                assert(got =~= target);
            }
            r
        },
        HostValue::Mapping(pairs) => {
            let mut out: Vec<(String, DynamicValue)> = Vec::new();
            let mut idx: usize = 0;
            while idx < pairs.len()
                invariant
                    idx <= pairs@.len(),
                    out@.len() == idx as int,
                    v matches HostValue::Mapping(p) && p == *pairs,
                    forall|j: int|
                        0 <= j < idx as int ==> (#[trigger] out@[j]).0@ == pairs@[j].0@
                            && out@[j].1@ == to_dyn_spec(pairs@[j].1@),
                decreases pairs@.len() - idx as int,
            {
                proof {
                    assert(decreases_to!(*v => *pairs));
                    assert(decreases_to!(*pairs => pairs@));
                    assert(decreases_to!(pairs@ => pairs@[idx as int]));
                    assert(decreases_to!(pairs@[idx as int] => pairs@[idx as int].1));
                }
                let d = to_dynamic(&pairs[idx].1);
                out.push((pairs[idx].0.clone(), d));
                idx += 1;
            }
            let r = DynamicValue::Mapping(out);
            proof {
                let target = to_dyn_spec(v@)->Mapping_0;
                let got = r@->Mapping_0;
                assert forall|j: int| 0 <= j < got.len() implies #[trigger] got[j] == target[j] by {
                    assert(got[j] == (out@[j].0@, out@[j].1@));
                    assert(target[j] == (v@->Mapping_0[j].0, to_dyn_spec(v@->Mapping_0[j].1)));
                    assert(v@->Mapping_0[j] == (pairs@[j].0@, pairs@[j].1@));
                }
                assert(got =~= target);
            }
            r
        },
    }
}

/// Convert each element of a host list or tuple.
fn to_dynamic_elements(whole: &HostValue, items: &Vec<HostValue>) -> (r: Vec<DynamicValue>)
    requires
        (whole matches HostValue::List(it) && it == *items) || (whole matches HostValue::Tuple(it)
            && it == *items),
    ensures
        r@.len() == items@.len(),
        forall|j: int| 0 <= j < r@.len() ==> (#[trigger] r@[j])@ == to_dyn_spec(items@[j]@),
    decreases *whole, 0int,
{
    let mut out: Vec<DynamicValue> = Vec::new();
    let mut idx: usize = 0;
    while idx < items.len()
        invariant
            idx <= items@.len(),
            out@.len() == idx as int,
            (whole matches HostValue::List(it) && it == *items) || (whole matches HostValue::Tuple(
                it,
            ) && it == *items),
            forall|j: int|
                0 <= j < idx as int ==> (#[trigger] out@[j])@ == to_dyn_spec(items@[j]@),
        decreases items@.len() - idx as int,
    {
        proof {
            assert(decreases_to!(*whole => *items));
            assert(decreases_to!(*items => items@));
            assert(decreases_to!(items@ => items@[idx as int]));
        }
        let d = to_dynamic(&items[idx]);
        out.push(d);
        idx += 1;
    }
    out
}

/// Convert an engine value into the host's value model.
///
/// Total and panic-free: unit and opaque values become the host's nil
/// sentinel, a character becomes a one-character string, arrays become
/// lists and mappings convert key-wise, recursively.
pub fn from_dynamic(d: &DynamicValue) -> (r: HostValue)
    ensures
        r@ == from_dyn_spec(d@),
    decreases *d,
{
    match d {
        DynamicValue::Unit => HostValue::Null,
        DynamicValue::Bool(b) => HostValue::Bool(*b),
        DynamicValue::Int(i) => HostValue::Int(*i),
        DynamicValue::Float(bits) => HostValue::Float(*bits),
        DynamicValue::Str(s) => HostValue::Str(s.clone()),
        DynamicValue::Char(c) => HostValue::Str(char_to_string(*c)),
        DynamicValue::Opaque => HostValue::Null,
        DynamicValue::Array(items) => {
            let mut out: Vec<HostValue> = Vec::new();
            let mut idx: usize = 0;
            while idx < items.len()
                invariant
                    idx <= items@.len(),
                    out@.len() == idx as int,
                    d matches DynamicValue::Array(it) && it == *items,
                    forall|j: int|
                        0 <= j < idx as int ==> (#[trigger] out@[j])@ == from_dyn_spec(
                            items@[j]@,
                        ),
                decreases items@.len() - idx as int,
            {
                proof {
                    assert(decreases_to!(*d => *items));
                    assert(decreases_to!(*items => items@));
                    assert(decreases_to!(items@ => items@[idx as int]));
                }
                let h = from_dynamic(&items[idx]);
                out.push(h);
                idx += 1;
            }
            let r = HostValue::List(out);
            proof {
                let target = from_dyn_spec(d@)->List_0;
                let got = r@->List_0;
                assert forall|j: int| 0 <= j < got.len() implies #[trigger] got[j] == target[j] by {
                    assert(got[j] == out@[j]@);
                    assert(target[j] == from_dyn_spec(d@->Array_0[j]));
                    assert(d@->Array_0[j] == items@[j]@);
                }
                assert(got =~= target);
            }
            r
        },
        DynamicValue::Mapping(pairs) => {
            let mut out: Vec<(String, HostValue)> = Vec::new();
            let mut idx: usize = 0;
            while idx < pairs.len()
                invariant
                    idx <= pairs@.len(),
                    out@.len() == idx as int,
                    d matches DynamicValue::Mapping(p) && p == *pairs,
                    forall|j: int|
                        0 <= j < idx as int ==> (#[trigger] out@[j]).0@ == pairs@[j].0@
                            && out@[j].1@ == from_dyn_spec(pairs@[j].1@),
                decreases pairs@.len() - idx as int,
            {
                proof {
                    assert(decreases_to!(*d => *pairs));
                    assert(decreases_to!(*pairs => pairs@));
                    assert(decreases_to!(pairs@ => pairs@[idx as int]));
                    assert(decreases_to!(pairs@[idx as int] => pairs@[idx as int].1));
                }
                let h = from_dynamic(&pairs[idx].1);
                out.push((pairs[idx].0.clone(), h));
                idx += 1;
            }
            let r = HostValue::Mapping(out);
            proof {
                let target = from_dyn_spec(d@)->Mapping_0;
                let got = r@->Mapping_0;
                assert forall|j: int| 0 <= j < got.len() implies #[trigger] got[j] == target[j] by {
                    assert(got[j] == (out@[j].0@, out@[j].1@));
                    assert(target[j] == (d@->Mapping_0[j].0, from_dyn_spec(d@->Mapping_0[j].1)));
                    assert(d@->Mapping_0[j] == (pairs@[j].0@, pairs@[j].1@));
                }
                assert(got =~= target);
            }
            r
        },
    }
}

/// Tuple narrowing law: a tuple converts exactly as the list of the
/// same elements does; tuple-ness is lost across the bridge.
pub proof fn lemma_tuple_narrowing(items: Seq<HostVal>)
    ensures
        to_dyn_spec(HostVal::Tuple(items)) == to_dyn_spec(HostVal::List(items)),
{
    let t = to_dyn_spec(HostVal::Tuple(items));
    let l = to_dyn_spec(HostVal::List(items));
    assert(t matches DynVal::Array(ts) && l matches DynVal::Array(ls) && ts =~= ls);
}

} // verus!
