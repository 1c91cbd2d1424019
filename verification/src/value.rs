//! The two value universes on either side of the bridge.
//!
//! `HostValue` is the tagged union the host call boundary speaks;
//! `DynamicValue` is the tagged union the embedded engine speaks.
//! Floating-point numbers are carried as their IEEE 754 bit patterns,
//! so the verified logic treats them as opaque 64-bit words and never
//! performs floating-point arithmetic on them.

use vstd::prelude::*;

verus! {

broadcast use vstd::std_specs::vec::group_vec_axioms, vstd::seq::group_seq_axioms;

/// A value as the host call boundary represents it.
///
/// Map keys are text by construction: a host mapping with a non-text key
/// is rejected at the boundary before a `HostValue` is ever built.
#[derive(Debug, PartialEq)]
pub enum HostValue {
    Null,
    Bool(bool),
    Int(i64),
    /// IEEE 754 bit pattern of a double-precision number.
    Float(u64),
    Str(String),
    List(Vec<HostValue>),
    Tuple(Vec<HostValue>),
    Mapping(Vec<(String, HostValue)>),
}

/// A value as the embedded engine represents it.
///
/// `Opaque` stands for any engine value of a custom type that has no
/// host representation; it converts to the host's nil sentinel.
#[derive(Debug, PartialEq)]
pub enum DynamicValue {
    Unit,
    Bool(bool),
    Int(i64),
    /// IEEE 754 bit pattern of a double-precision number.
    Float(u64),
    Str(String),
    Char(char),
    Array(Vec<DynamicValue>),
    Mapping(Vec<(String, DynamicValue)>),
    Opaque,
}

/// The mathematical model of a `HostValue`.
pub enum HostVal {
    Null,
    Bool(bool),
    Int(i64),
    Float(u64),
    Str(Seq<char>),
    List(Seq<HostVal>),
    Tuple(Seq<HostVal>),
    Mapping(Seq<(Seq<char>, HostVal)>),
}

/// The mathematical model of a `DynamicValue`.
pub enum DynVal {
    Unit,
    Bool(bool),
    Int(i64),
    Float(u64),
    Str(Seq<char>),
    Char(char),
    Array(Seq<DynVal>),
    Mapping(Seq<(Seq<char>, DynVal)>),
    Opaque,
}

pub open spec fn host_view(v: HostValue) -> HostVal
    decreases v,
{
    match v {
        HostValue::Null => HostVal::Null,
        HostValue::Bool(b) => HostVal::Bool(b),
        HostValue::Int(i) => HostVal::Int(i),
        HostValue::Float(bits) => HostVal::Float(bits),
        HostValue::Str(s) => HostVal::Str(s@),
        HostValue::List(items) => HostVal::List(
            Seq::new(items@.len(), |i: int| if 0 <= i < items@.len() { host_view(items@[i]) } else { arbitrary() }),
        ),
        HostValue::Tuple(items) => HostVal::Tuple(
            Seq::new(items@.len(), |i: int| if 0 <= i < items@.len() { host_view(items@[i]) } else { arbitrary() }),
        ),
        HostValue::Mapping(pairs) => HostVal::Mapping(
            Seq::new(pairs@.len(), |i: int| if 0 <= i < pairs@.len() { (pairs@[i].0@, host_view(pairs@[i].1)) } else { arbitrary() }),
        ),
    }
}

pub open spec fn dynamic_view(v: DynamicValue) -> DynVal
    decreases v,
{
    match v {
        DynamicValue::Unit => DynVal::Unit,
        DynamicValue::Bool(b) => DynVal::Bool(b),
        DynamicValue::Int(i) => DynVal::Int(i),
        DynamicValue::Float(bits) => DynVal::Float(bits),
        DynamicValue::Str(s) => DynVal::Str(s@),
        DynamicValue::Char(c) => DynVal::Char(c),
        DynamicValue::Array(items) => DynVal::Array(
            Seq::new(items@.len(), |i: int| if 0 <= i < items@.len() { dynamic_view(items@[i]) } else { arbitrary() }),
        ),
        DynamicValue::Mapping(pairs) => DynVal::Mapping(
            Seq::new(pairs@.len(), |i: int| if 0 <= i < pairs@.len() { (pairs@[i].0@, dynamic_view(pairs@[i].1)) } else { arbitrary() }),
        ),
        DynamicValue::Opaque => DynVal::Opaque,
    }
}

impl DynamicValue {
    /// A deep copy whose model is the same as this value's.
    pub fn duplicate(&self) -> (r: DynamicValue)
        ensures
            r@ == self@,
        decreases *self,
    {
        match self {
            DynamicValue::Unit => DynamicValue::Unit,
            DynamicValue::Bool(b) => DynamicValue::Bool(*b),
            DynamicValue::Int(i) => DynamicValue::Int(*i),
            DynamicValue::Float(bits) => DynamicValue::Float(*bits),
            DynamicValue::Str(s) => DynamicValue::Str(s.clone()),
            DynamicValue::Char(c) => DynamicValue::Char(*c),
            DynamicValue::Opaque => DynamicValue::Opaque,
            DynamicValue::Array(items) => {
                let mut out: Vec<DynamicValue> = Vec::new();
                let mut idx: usize = 0;
                while idx < items.len()
                    invariant
                        idx <= items@.len(),
                        out@.len() == idx as int,
                        *self matches DynamicValue::Array(it) && it == *items,
                        forall|j: int| 0 <= j < idx as int ==> (#[trigger] out@[j])@ == items@[j]@,
                    decreases items@.len() - idx as int,
                {
                    proof {
                        assert(decreases_to!(*self => *items));
                        assert(decreases_to!(*items => items@));
                        assert(decreases_to!(items@ => items@[idx as int]));
                    }
                    let d = items[idx].duplicate();
                    out.push(d);
                    idx += 1;
                }
                let r = DynamicValue::Array(out);
                proof {
                    let target = self@->Array_0;
                    let got = r@->Array_0;
                    assert forall|j: int| 0 <= j < got.len() implies #[trigger] got[j] == target[j]
                    by {
                        assert(got[j] == out@[j]@);
                        assert(target[j] == items@[j]@);
                    }
                    assert(got =~= target);
                }
                r
            },
            DynamicValue::Mapping(pairs) => {
                let mut out: Vec<(String, DynamicValue)> = Vec::new();
                let mut idx: usize = 0;
                while idx < pairs.len()
                    invariant
                        idx <= pairs@.len(),
                        out@.len() == idx as int,
                        *self matches DynamicValue::Mapping(p) && p == *pairs,
                        forall|j: int|
                            0 <= j < idx as int ==> (#[trigger] out@[j]).0@ == pairs@[j].0@
                                && out@[j].1@ == pairs@[j].1@,
                    decreases pairs@.len() - idx as int,
                {
                    proof {
                        assert(decreases_to!(*self => *pairs));
                        assert(decreases_to!(*pairs => pairs@));
                        assert(decreases_to!(pairs@ => pairs@[idx as int]));
                        assert(decreases_to!(pairs@[idx as int] => pairs@[idx as int].1));
                    }
                    let d = pairs[idx].1.duplicate();
                    out.push((pairs[idx].0.clone(), d));
                    idx += 1;
                }
                let r = DynamicValue::Mapping(out);
                proof {
                    let target = self@->Mapping_0;
                    let got = r@->Mapping_0;
                    assert forall|j: int| 0 <= j < got.len() implies #[trigger] got[j] == target[j]
                    by {
                        assert(got[j] == (out@[j].0@, out@[j].1@));
                        assert(target[j] == (pairs@[j].0@, pairs@[j].1@));
                    }
                    assert(got =~= target);
                }
                r
            },
        }
    }
}

impl View for HostValue {
    type V = HostVal;

    open spec fn view(&self) -> HostVal {
        host_view(*self)
    }
}

impl View for DynamicValue {
    type V = DynVal;

    open spec fn view(&self) -> DynVal {
        dynamic_view(*self)
    }
}

} // verus!
