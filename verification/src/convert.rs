//! Conversion between the library's engine-value model and the
//! engine's own opaque values, and between the library's scope and the
//! engine's scope.
//!
//! Each direction is total and panic-free, and each is held to the
//! trusted content model of the engine's values: writing reproduces
//! the value exactly wherever the engine can represent it losslessly
//! (its object map re-orders pairs, and opaque values degrade to
//! unit), and reading back reproduces exactly every content the model
//! carries, within the depth budget.

use vstd::prelude::*;

use crate::raw;
use crate::raw::{dyn_content, dyn_read_only, engine_scope_model};
use crate::scope::{Scope, ScopeEntry};
use crate::value::{DynVal, DynamicValue};

verus! {

broadcast use vstd::std_specs::vec::group_vec_axioms, vstd::seq::group_seq_axioms;

/// How deeply nested an engine value may be before conversion gives up
/// and degrades the rest to `Opaque`.
pub const VALUE_DEPTH_LIMIT: u64 = 128;

/// True when writing the value into the engine loses nothing: the
/// engine's object map re-orders its pairs and an opaque value
/// degrades to unit, so mappings and opaques are excluded, anywhere
/// inside the value.
pub open spec fn write_exact(v: DynVal) -> bool
    decreases v,
{
    match v {
        DynVal::Mapping(_) => false,
        DynVal::Opaque => false,
        DynVal::Array(items) => forall|i: int|
            0 <= i < items.len() ==> write_exact(#[trigger] items[i]),
        _ => true,
    }
}

/// True when reading a value of this content back within the depth
/// budget reproduces it exactly: nothing opaque anywhere, and nesting
/// within the budget.
pub open spec fn read_exact(v: DynVal, depth: int) -> bool
    decreases v,
{
    match v {
        DynVal::Opaque => false,
        DynVal::Array(items) => depth >= 1 && forall|i: int|
            0 <= i < items.len() ==> read_exact(#[trigger] items[i], depth - 1),
        DynVal::Mapping(pairs) => depth >= 1 && forall|i: int|
            0 <= i < pairs.len() ==> read_exact(#[trigger] pairs[i].1, depth - 1),
        _ => depth >= 1,
    }
}

/// Build the engine's value for a model value: a fresh mutable value
/// whose content is the model value wherever writing is lossless.
pub(crate) fn to_engine(v: &DynamicValue) -> (r: rhai::Dynamic)
    ensures
        !dyn_read_only(r),
        write_exact(v@) ==> dyn_content(r) == v@,
        v@ is Mapping ==> dyn_content(r) is Mapping,
        v@ is Opaque ==> dyn_content(r) == DynVal::Unit,
    decreases *v, 1int,
{
    match v {
        DynamicValue::Unit => raw::dyn_unit(),
        DynamicValue::Bool(b) => raw::dyn_from_bool(*b),
        DynamicValue::Int(i) => raw::dyn_from_int(*i),
        DynamicValue::Float(bits) => raw::dyn_from_float_bits(*bits),
        DynamicValue::Str(s) => raw::dyn_from_string(s.clone()),
        DynamicValue::Char(c) => raw::dyn_from_char(*c),
        DynamicValue::Array(items) => {
            let elems = to_engine_elements(v, items);
            let r = raw::dyn_from_array(elems);
            proof {
                if write_exact(v@) {
                    let inner = v@->Array_0;
                    let got = dyn_content(r)->Array_0;
                    assert forall|j: int| 0 <= j < got.len() implies #[trigger] got[j]
                        == inner[j] by {
                        assert(inner[j] == items@[j]@);
                        assert(write_exact(inner[j]));
                    }
                    assert(got =~= inner);
                }
            }
            r
        },
        DynamicValue::Mapping(pairs) => {
            let mut out: Vec<(String, rhai::Dynamic)> = Vec::new();
            let mut idx: usize = 0;
            while idx < pairs.len()
                invariant
                    *v matches DynamicValue::Mapping(p) && p == *pairs,
                decreases pairs@.len() - idx as int,
            {
                proof {
                    assert(decreases_to!(*v => *pairs));
                    assert(decreases_to!(*pairs => pairs@));
                    assert(decreases_to!(pairs@ => pairs@[idx as int]));
                    assert(decreases_to!(pairs@[idx as int] => pairs@[idx as int].1));
                }
                let d = to_engine(&pairs[idx].1);
                out.push((pairs[idx].0.clone(), d));
                idx += 1;
            }
            raw::dyn_from_pairs(out)
        },
        // An opaque engine value does not survive the trip through the
        // model; it degrades to the engine's unit.
        DynamicValue::Opaque => raw::dyn_unit(),
    }
}

/// Build the engine's values for every element of a model array.
fn to_engine_elements(whole: &DynamicValue, items: &Vec<DynamicValue>) -> (r: Vec<rhai::Dynamic>)
    requires
        whole matches DynamicValue::Array(it) && it == *items,
    ensures
        r@.len() == items@.len(),
        forall|j: int|
            0 <= j < items@.len() ==> write_exact(items@[j]@) ==> dyn_content(#[trigger] r@[j])
                == items@[j]@,
    decreases *whole, 0int,
{
    let mut out: Vec<rhai::Dynamic> = Vec::new();
    let mut idx: usize = 0;
    while idx < items.len()
        invariant
            idx <= items@.len(),
            out@.len() == idx as int,
            whole matches DynamicValue::Array(it) && it == *items,
            forall|j: int|
                0 <= j < idx as int ==> write_exact(items@[j]@) ==> dyn_content(
                    #[trigger] out@[j],
                ) == items@[j]@,
        decreases items@.len() - idx as int,
    {
        proof {
            assert(decreases_to!(*whole => *items));
            assert(decreases_to!(*items => items@));
            assert(decreases_to!(items@ => items@[idx as int]));
        }
        let d = to_engine(&items[idx]);
        out.push(d);
        idx += 1;
    }
    out
}

/// Read an engine value into the model, dispatching on its runtime
/// type: exact for every content the model carries within the depth
/// budget; a deeper value, or one of a type the model does not carry,
/// becomes `Opaque`.
pub(crate) fn from_engine(d: rhai::Dynamic, depth: u64) -> (r: DynamicValue)
    ensures
        read_exact(dyn_content(d), depth as int) ==> r@ == dyn_content(d),
    decreases depth,
{
    let ghost c = dyn_content(d);
    if depth == 0 {
        return DynamicValue::Opaque;
    }
    if raw::dyn_is_unit(&d) {
        DynamicValue::Unit
    } else if raw::dyn_is_int(&d) {
        match raw::dyn_as_int(&d) {
            Some(i) => DynamicValue::Int(i),
            None => DynamicValue::Opaque,
        }
    } else if raw::dyn_is_float(&d) {
        match raw::dyn_float_bits(&d) {
            Some(bits) => DynamicValue::Float(bits),
            None => DynamicValue::Opaque,
        }
    } else if raw::dyn_is_bool(&d) {
        match raw::dyn_as_bool(&d) {
            Some(b) => DynamicValue::Bool(b),
            None => DynamicValue::Opaque,
        }
    } else if raw::dyn_is_char(&d) {
        match raw::dyn_as_char(&d) {
            Some(ch) => DynamicValue::Char(ch),
            None => DynamicValue::Opaque,
        }
    } else if raw::dyn_is_string(&d) {
        match raw::dyn_into_string(d) {
            Some(s) => DynamicValue::Str(s),
            None => DynamicValue::Opaque,
        }
    } else if raw::dyn_is_array(&d) {
        match raw::dyn_into_array(d) {
            Some(mut items) => {
                let ghost elems = c->Array_0;
                let mut out: Vec<DynamicValue> = Vec::new();
                while items.len() > 0
                    invariant
                        depth >= 1,
                        elems == c->Array_0,
                        read_exact(c, depth as int) ==> {
                            &&& c is Array
                            &&& out@.len() + items@.len() == elems.len()
                            &&& forall|j: int|
                                0 <= j < out@.len() ==> (#[trigger] out@[j])@ == elems[j]
                            &&& forall|j: int|
                                0 <= j < items@.len() ==> dyn_content(#[trigger] items@[j])
                                    == elems[out@.len() + j]
                        },
                    decreases items@.len(),
                {
                    let item = items.remove(0);
                    let converted = from_engine(item, depth - 1);
                    proof {
                        if read_exact(c, depth as int) {
                            assert(dyn_content(item) == elems[out@.len() as int]);
                            assert(read_exact(elems[out@.len() as int], depth as int - 1));
                        }
                    }
                    out.push(converted);
                }
                let r = DynamicValue::Array(out);
                proof {
                    if read_exact(c, depth as int) {
                        assert(r@->Array_0 =~= elems);
                    }
                }
                r
            },
            None => DynamicValue::Opaque,
        }
    } else if raw::dyn_is_map(&d) {
        match raw::dyn_into_map_pairs(d) {
            Some(mut pairs) => {
                let ghost cpairs = c->Mapping_0;
                let mut out: Vec<(String, DynamicValue)> = Vec::new();
                while pairs.len() > 0
                    invariant
                        depth >= 1,
                        cpairs == c->Mapping_0,
                        read_exact(c, depth as int) ==> {
                            &&& c is Mapping
                            &&& out@.len() + pairs@.len() == cpairs.len()
                            &&& forall|j: int|
                                0 <= j < out@.len() ==> ((#[trigger] out@[j]).0@, out@[j].1@)
                                    == cpairs[j]
                            &&& forall|j: int|
                                0 <= j < pairs@.len() ==> ((#[trigger] pairs@[j]).0@, dyn_content(
                                    pairs@[j].1,
                                )) == cpairs[out@.len() + j]
                        },
                    decreases pairs@.len(),
                {
                    let (k, value) = pairs.remove(0);
                    let converted = from_engine(value, depth - 1);
                    proof {
                        if read_exact(c, depth as int) {
                            assert((k@, dyn_content(value)) == cpairs[out@.len() as int]);
                            assert(read_exact(cpairs[out@.len() as int].1, depth as int - 1));
                        }
                    }
                    out.push((k, converted));
                }
                let r = DynamicValue::Mapping(out);
                proof {
                    if read_exact(c, depth as int) {
                        assert forall|j: int| 0 <= j < out@.len() implies #[trigger] r@->Mapping_0[j]
                            == cpairs[j] by {
                            assert(r@->Mapping_0[j] == (out@[j].0@, out@[j].1@));
                        }
                        assert(r@->Mapping_0 =~= cpairs);
                    }
                }
                r
            },
            None => DynamicValue::Opaque,
        }
    } else {
        // Every content the model carries answers one of the probes
        // above, so here the content can only be opaque.
        DynamicValue::Opaque
    }
}

/// Build the engine-side scope holding the same bindings, in order,
/// constants kept constant and values written through the bridge.
pub(crate) fn materialize_scope(s: &Scope) -> (r: raw::EngineScope)
    ensures
        engine_scope_model(r).len() == s@.len(),
        forall|i: int|
            0 <= i < s@.len() ==> {
                let m = #[trigger] engine_scope_model(r)[i];
                &&& m.name == s@[i].name
                &&& m.constant == s@[i].constant
                &&& (write_exact(s@[i].value) ==> m.value == s@[i].value)
            },
{
    let mut es = raw::engine_scope_new();
    let mut i: usize = 0;
    let n = s.len();
    while i < n
        invariant
            i <= n,
            n == s@.len(),
            engine_scope_model(es).len() == i as int,
            forall|j: int|
                0 <= j < i as int ==> {
                    let m = #[trigger] engine_scope_model(es)[j];
                    &&& m.name == s@[j].name
                    &&& m.constant == s@[j].constant
                    &&& (write_exact(s@[j].value) ==> m.value == s@[j].value)
                },
        decreases n - i,
    {
        let entry = s.entry_at(i);
        let value = to_engine(&entry.value);
        if entry.constant {
            raw::engine_scope_push_constant(&mut es, entry.name.as_str(), value);
        } else {
            raw::engine_scope_push(&mut es, entry.name.as_str(), value);
        }
        i += 1;
    }
    es
}

/// Read the engine-side scope back into the model after a call, so the
/// library's scope reflects everything the script changed or added:
/// entry-wise, each binding keeps its name, and its flag and value
/// wherever the stored content is one the model carries.
pub(crate) fn read_back_scope(es: &raw::EngineScope) -> (r: Scope)
    ensures
        r@.len() == engine_scope_model(*es).len(),
        forall|i: int|
            0 <= i < r@.len() ==> {
                let m = engine_scope_model(*es)[i];
                &&& (#[trigger] r@[i]).name == m.name
                &&& (!(m.value is Opaque) ==> r@[i].constant == m.constant)
                &&& (read_exact(m.value, VALUE_DEPTH_LIMIT as int) ==> r@[i].value == m.value)
            },
{
    let ghost model = engine_scope_model(*es);
    let mut entries = raw::engine_scope_entries(es);
    let mut s = Scope::new();
    while entries.len() > 0
        invariant
            model == engine_scope_model(*es),
            s@.len() + entries@.len() == model.len(),
            forall|j: int|
                0 <= j < s@.len() ==> {
                    let m = model[j];
                    &&& (#[trigger] s@[j]).name == m.name
                    &&& (!(m.value is Opaque) ==> s@[j].constant == m.constant)
                    &&& (read_exact(m.value, VALUE_DEPTH_LIMIT as int) ==> s@[j].value == m.value)
                },
            forall|j: int|
                0 <= j < entries@.len() ==> {
                    let m = model[s@.len() + j];
                    &&& (#[trigger] entries@[j]).0@ == m.name
                    &&& (!(m.value is Opaque) ==> entries@[j].1 == m.constant && dyn_content(
                        entries@[j].2,
                    ) == m.value)
                },
        decreases entries@.len(),
    {
        let (name, constant, value) = entries.remove(0);
        let ghost m = model[s@.len() as int];
        proof {
            if read_exact(m.value, VALUE_DEPTH_LIMIT as int) {
                assert(!(m.value is Opaque));
                assert(dyn_content(value) == m.value);
            }
        }
        let dv = from_engine(value, VALUE_DEPTH_LIMIT);
        s.push_entry(ScopeEntry { name, value: dv, constant });
    }
    s
}

} // verus!
