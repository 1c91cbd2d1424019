//! The variable scope: an ordered collection of named, optionally
//! constant bindings.
//!
//! Later bindings shadow earlier ones of the same name: every lookup
//! searches from the most recent binding backwards. A binding marked
//! constant rejects updates with a distinct error instead of silently
//! mutating; it can only go away through remove, rewind or clear.

use vstd::prelude::*;

use crate::bridge::{from_dyn_spec, from_dynamic};
use crate::error::{RhaiRustlerError, ScopeError};
use crate::value::{DynVal, DynamicValue, HostValue};

verus! {

broadcast use vstd::std_specs::vec::group_vec_axioms, vstd::seq::group_seq_axioms;

/// One binding of the scope.
#[derive(Debug, PartialEq)]
pub struct ScopeEntry {
    pub name: String,
    pub value: DynamicValue,
    pub constant: bool,
}

/// The mathematical model of one binding.
pub struct ScopeEntryVal {
    pub name: Seq<char>,
    pub value: DynVal,
    pub constant: bool,
}

impl View for ScopeEntry {
    type V = ScopeEntryVal;

    open spec fn view(&self) -> ScopeEntryVal {
        ScopeEntryVal { name: self.name@, value: self.value@, constant: self.constant }
    }
}

pub open spec fn entries_view(entries: Seq<ScopeEntry>) -> Seq<ScopeEntryVal> {
    Seq::new(entries.len(), |i: int| if 0 <= i < entries.len() { entries[i]@ } else { arbitrary() })
}

/// An ordered collection of named bindings, shadowing allowed.
#[derive(Debug, PartialEq)]
pub struct Scope {
    entries: Vec<ScopeEntry>,
}

impl View for Scope {
    type V = Seq<ScopeEntryVal>;

    closed spec fn view(&self) -> Seq<ScopeEntryVal> {
        entries_view(self.entries@)
    }
}

/// True when some binding of this name exists.
pub open spec fn scope_has(s: Seq<ScopeEntryVal>, name: Seq<char>) -> bool {
    exists|i: int| 0 <= i < s.len() && s[i].name == name
}

/// The index of the most recent binding of this name, or -1.
pub open spec fn last_binding(s: Seq<ScopeEntryVal>, name: Seq<char>) -> int
    decreases s.len(),
{
    if s.len() == 0 {
        -1
    } else if s.last().name == name {
        s.len() - 1
    } else {
        last_binding(s.drop_last(), name)
    }
}

/// `last_binding` finds exactly the last index bound to the name.
pub proof fn lemma_last_binding(s: Seq<ScopeEntryVal>, name: Seq<char>)
    ensures
        scope_has(s, name) <==> last_binding(s, name) >= 0,
        last_binding(s, name) >= 0 ==> {
            let lb = last_binding(s, name);
            &&& lb < s.len()
            &&& s[lb].name == name
            &&& forall|j: int| lb < j < s.len() ==> s[j].name != name
        },
    decreases s.len(),
{
    if s.len() == 0 {
    } else if s.last().name == name {
        assert(scope_has(s, name));
    } else {
        let rest = s.drop_last();
        lemma_last_binding(rest, name);
        assert forall|j: int| 0 <= j < rest.len() implies rest[j] == s[j] by {}
        if scope_has(s, name) {
            let w = choose|i: int| 0 <= i < s.len() && s[i].name == name;
            assert(w < s.len() - 1);
            assert(rest[w].name == name);
            assert(scope_has(rest, name));
        }
        if scope_has(rest, name) {
            let w = choose|i: int| 0 <= i < rest.len() && rest[i].name == name;
            assert(s[w].name == name);
            assert(scope_has(s, name));
        }
    }
}

/// Whether a set on this name must be rejected: the most recent
/// binding of the name exists and is constant.
pub open spec fn set_rejected(s: Seq<ScopeEntryVal>, name: Seq<char>) -> bool {
    let lb = last_binding(s, name);
    lb >= 0 && s[lb].constant
}

/// The scope after a set: unchanged when rejected; the most recent
/// binding updated in place when one exists; a fresh binding pushed
/// when the name is unbound.
pub open spec fn set_result(s: Seq<ScopeEntryVal>, name: Seq<char>, value: DynVal) -> Seq<
    ScopeEntryVal,
> {
    let lb = last_binding(s, name);
    if set_rejected(s, name) {
        s
    } else if lb >= 0 {
        s.update(lb, ScopeEntryVal { name, value, constant: false })
    } else {
        s.push(ScopeEntryVal { name, value, constant: false })
    }
}

/// One step of `clone_visible`: keep the binding unless its name was
/// already kept.
pub open spec fn visible_step(acc: Seq<ScopeEntryVal>, e: ScopeEntryVal) -> Seq<ScopeEntryVal> {
    if scope_has(acc, e.name) {
        acc
    } else {
        acc.push(e)
    }
}

/// The bindings kept after walking the last `k` entries, most recent
/// first.
pub open spec fn visible_k(s: Seq<ScopeEntryVal>, k: int) -> Seq<ScopeEntryVal>
    decreases k,
{
    if k <= 0 {
        Seq::empty()
    } else {
        visible_step(visible_k(s, k - 1), s[s.len() - k])
    }
}

/// The visible bindings of a scope: for each name its most recent
/// binding, ordered from the most recently bound name backwards.
pub open spec fn visible_bindings(s: Seq<ScopeEntryVal>) -> Seq<ScopeEntryVal> {
    visible_k(s, s.len() as int)
}

impl Scope {
    /// A fresh, empty scope.
    pub fn new() -> (s: Scope)
        ensures
            s@ == Seq::<ScopeEntryVal>::empty(),
    {
        let s = Scope { entries: Vec::new() };
        proof {
            assert(s@ =~= Seq::<ScopeEntryVal>::empty());
        }
        s
    }

    /// A fresh, empty scope with room reserved for `capacity` bindings.
    pub fn with_capacity(capacity: usize) -> (s: Scope)
        ensures
            s@ == Seq::<ScopeEntryVal>::empty(),
    {
        let s = Scope { entries: Vec::with_capacity(capacity) };
        proof {
            assert(s@ =~= Seq::<ScopeEntryVal>::empty());
        }
        s
    }

    /// How many bindings the scope holds, shadowed ones included.
    pub fn len(&self) -> (r: usize)
        ensures
            r == self@.len(),
    {
        self.entries.len()
    }

    /// True when the scope holds no binding at all.
    pub fn is_empty(&self) -> (r: bool)
        ensures
            r == (self@.len() == 0),
    {
        self.entries.len() == 0
    }

    /// Append a mutable binding; an existing binding of the same name
    /// is shadowed, not replaced.
    pub fn push_dynamic(&mut self, name: &str, value: DynamicValue)
        ensures
            final(self)@ == old(self)@.push(
                ScopeEntryVal { name: name@, value: value@, constant: false },
            ),
    {
        let entry = ScopeEntry { name: String::from_str(name), value, constant: false };
        self.entries.push(entry);
        proof {
            assert(final(self)@ =~= old(self)@.push(
                ScopeEntryVal { name: name@, value: value@, constant: false },
            ));
        }
    }

    /// Append a constant binding; updates through `set_value` will be
    /// rejected while it is the most recent binding of its name.
    pub fn push_constant_dynamic(&mut self, name: &str, value: DynamicValue)
        ensures
            final(self)@ == old(self)@.push(
                ScopeEntryVal { name: name@, value: value@, constant: true },
            ),
    {
        let entry = ScopeEntry { name: String::from_str(name), value, constant: true };
        self.entries.push(entry);
        proof {
            assert(final(self)@ =~= old(self)@.push(
                ScopeEntryVal { name: name@, value: value@, constant: true },
            ));
        }
    }

    /// The index of the most recent binding of the name, if any.
    fn find_last(&self, key: &String) -> (r: Option<usize>)
        ensures
            match r {
                Some(i) => i == last_binding(self@, key@) && 0 <= i < self@.len(),
                None => !scope_has(self@, key@),
            },
    {
        let mut i: usize = self.entries.len();
        while i > 0
            invariant
                i <= self@.len(),
                forall|j: int| i <= j < self@.len() ==> self@[j].name != key@,
            decreases i,
        {
            i = i - 1;
            if self.entries[i].name == *key {
                // This is the first match walking backwards, and the
                // lemma pins it as the most recent binding.
                proof {
                    lemma_last_binding(self@, key@);
                    assert(self@[i as int].name == key@);
                    assert(scope_has(self@, key@));
                }
                return Some(i);
            }
        }
        proof {
            if scope_has(self@, key@) {
                let w = choose|j: int| 0 <= j < self@.len() && self@[j].name == key@;
                assert(self@[w].name != key@);
            }
        }
        None
    }

    /// Is some binding of this name present?
    pub fn contains(&self, name: &str) -> (r: bool)
        ensures
            r == scope_has(self@, name@),
    {
        let key = String::from_str(name);
        match self.find_last(&key) {
            Some(_) => {
                proof {
                    lemma_last_binding(self@, key@);
                }
                true
            },
            None => false,
        }
    }

    /// Whether the most recent binding of the name is constant; `None`
    /// when the name is unbound.
    pub fn is_constant(&self, name: &str) -> (r: Option<bool>)
        ensures
            scope_has(self@, name@) ==> r == Some(self@[last_binding(self@, name@)].constant),
            !scope_has(self@, name@) ==> r is None,
    {
        proof {
            lemma_last_binding(self@, name@);
        }
        let key = String::from_str(name);
        match self.find_last(&key) {
            Some(i) => Some(self.entries[i].constant),
            None => None,
        }
    }

    /// The value of the most recent binding of the name, if any.
    pub fn get_value(&self, name: &str) -> (r: Option<DynamicValue>)
        ensures
            scope_has(self@, name@) ==> (r matches Some(v) && v@ == self@[last_binding(
                self@,
                name@,
            )].value),
            !scope_has(self@, name@) ==> r is None,
    {
        proof {
            lemma_last_binding(self@, name@);
        }
        let key = String::from_str(name);
        match self.find_last(&key) {
            Some(i) => Some(self.entries[i].value.duplicate()),
            None => None,
        }
    }

    /// Update the most recent binding of the name, or push a fresh
    /// mutable binding when the name is unbound. A constant binding
    /// rejects the update and the scope stays unchanged.
    pub fn set_value(&mut self, name: &str, value: DynamicValue) -> (r: Result<
        (),
        RhaiRustlerError,
    >)
        ensures
            final(self)@ == set_result(old(self)@, name@, value@),
            set_rejected(old(self)@, name@) ==> r == Err::<(), RhaiRustlerError>(
                RhaiRustlerError::ScopeError(ScopeError::ErrorCannotUpdateValueOfConstant),
            ),
            !set_rejected(old(self)@, name@) ==> r is Ok,
    {
        proof {
            lemma_last_binding(self@, name@);
        }
        let key = String::from_str(name);
        match self.find_last(&key) {
            Some(i) => {
                if self.entries[i].constant {
                    Err(RhaiRustlerError::ScopeError(ScopeError::ErrorCannotUpdateValueOfConstant))
                } else {
                    self.entries.set(
                        i,
                        ScopeEntry { name: key, value, constant: false },
                    );
                    proof {
                        assert(final(self)@ =~= set_result(old(self)@, name@, value@));
                    }
                    Ok(())
                }
            },
            None => {
                proof {
                    lemma_last_binding(old(self)@, name@);
                }
                self.entries.push(ScopeEntry { name: key, value, constant: false });
                proof {
                    assert(final(self)@ =~= set_result(old(self)@, name@, value@));
                }
                Ok(())
            },
        }
    }

    /// Remove the most recent binding of the name and hand its value
    /// back; an older shadowed binding of the same name stays.
    pub fn remove(&mut self, name: &str) -> (r: Option<DynamicValue>)
        ensures
            scope_has(old(self)@, name@) ==> {
                let lb = last_binding(old(self)@, name@);
                &&& (r matches Some(v) && v@ == old(self)@[lb].value)
                &&& final(self)@ == old(self)@.remove(lb)
            },
            !scope_has(old(self)@, name@) ==> r is None && final(self)@ == old(self)@,
    {
        proof {
            lemma_last_binding(self@, name@);
        }
        let key = String::from_str(name);
        match self.find_last(&key) {
            Some(i) => {
                let entry = self.entries.remove(i);
                proof {
                    assert(final(self)@ =~= old(self)@.remove(i as int));
                }
                Some(entry.value)
            },
            None => None,
        }
    }

    /// Truncate the scope back to a previous length; a larger size
    /// leaves the scope unchanged.
    pub fn rewind(&mut self, size: usize)
        ensures
            size <= old(self)@.len() ==> final(self)@ == old(self)@.subrange(0, size as int),
            size > old(self)@.len() ==> final(self)@ == old(self)@,
    {
        self.entries.truncate(size);
        proof {
            if size <= old(self)@.len() {
                assert(final(self)@ =~= old(self)@.subrange(0, size as int));
            } else {
                assert(final(self)@ =~= old(self)@);
            }
        }
    }

    /// Drop the most recent binding; an empty scope reports the
    /// distinct scope-is-empty error.
    pub fn pop(&mut self) -> (r: Result<(), RhaiRustlerError>)
        ensures
            old(self)@.len() == 0 ==> r == Err::<(), RhaiRustlerError>(
                RhaiRustlerError::ScopeError(ScopeError::ErrorScopeIsEmpty),
            ) && final(self)@ == old(self)@,
            old(self)@.len() > 0 ==> r is Ok && final(self)@ == old(self)@.drop_last(),
    {
        if self.entries.len() == 0 {
            Err(RhaiRustlerError::ScopeError(ScopeError::ErrorScopeIsEmpty))
        } else {
            let n = self.entries.len();
            self.entries.truncate(n - 1);
            proof {
                assert(final(self)@ =~= old(self)@.drop_last());
            }
            Ok(())
        }
    }

    /// Remove every binding.
    pub fn clear(&mut self)
        ensures
            final(self)@ == Seq::<ScopeEntryVal>::empty(),
    {
        self.entries.clear();
        proof {
            assert(final(self)@ =~= Seq::<ScopeEntryVal>::empty());
        }
    }

    /// An independent copy of the currently visible bindings: for each
    /// name only its most recent binding, most recently bound first.
    pub fn clone_visible(&self) -> (r: Scope)
        ensures
            r@ == visible_bindings(self@),
    {
        let ghost s = self@;
        let n = self.entries.len();
        let mut out: Vec<ScopeEntry> = Vec::new();
        let mut k: usize = 0;
        while k < n
            invariant
                k <= n,
                n == s.len(),
                self@ == s,
                entries_view(out@) == visible_k(s, k as int),
            decreases n - k,
        {
            let idx = n - 1 - k;
            let e = &self.entries[idx];
            let present = vec_has_name(&out, &e.name);
            proof {
                assert(self@[idx as int] == e@);
            }
            if !present {
                out.push(
                    ScopeEntry {
                        name: e.name.clone(),
                        value: e.value.duplicate(),
                        constant: e.constant,
                    },
                );
            }
            k = k + 1;
            proof {
                assert(entries_view(out@) =~= visible_k(s, k as int));
            }
        }
        let r = Scope { entries: out };
        r
    }

    /// The binding at an index, shadowed ones included.
    pub fn entry_at(&self, i: usize) -> (r: &ScopeEntry)
        requires
            i < self@.len(),
        ensures
            r@ == self@[i as int],
    {
        &self.entries[i]
    }

    /// Append a binding as it stands, constant flag included.
    pub fn push_entry(&mut self, e: ScopeEntry)
        ensures
            final(self)@ == old(self)@.push(e@),
    {
        self.entries.push(e);
        proof {
            assert(final(self)@ =~= old(self)@.push(e@));
        }
    }

    /// Every binding as a (name, host value) pair, in binding order,
    /// values converted through the bridge.
    pub fn iter_collect(&self) -> (r: Vec<(String, HostValue)>)
        ensures
            r@.len() == self@.len(),
            forall|i: int|
                0 <= i < r@.len() ==> (#[trigger] r@[i]).0@ == self@[i].name && r@[i].1@
                    == from_dyn_spec(self@[i].value),
    {
        let mut out: Vec<(String, HostValue)> = Vec::new();
        let mut i: usize = 0;
        while i < self.entries.len()
            invariant
                i <= self@.len(),
                out@.len() == i as int,
                self@.len() == self.entries@.len(),
                forall|j: int|
                    0 <= j < i as int ==> (#[trigger] out@[j]).0@ == self@[j].name && out@[j].1@
                        == from_dyn_spec(self@[j].value),
            decreases self@.len() - i as int,
        {
            let h = from_dynamic(&self.entries[i].value);
            out.push((self.entries[i].name.clone(), h));
            i += 1;
        }
        out
    }
}

/// Is some entry of this name present in the vector?
fn vec_has_name(entries: &Vec<ScopeEntry>, key: &String) -> (r: bool)
    ensures
        r == scope_has(entries_view(entries@), key@),
{
    let ghost s = entries_view(entries@);
    let mut i: usize = 0;
    while i < entries.len()
        invariant
            i <= entries@.len(),
            s == entries_view(entries@),
            s.len() == entries@.len(),
            forall|j: int| 0 <= j < i as int ==> s[j].name != key@,
        decreases entries@.len() - i as int,
    {
        if entries[i].name == *key {
            proof {
                assert(s[i as int].name == key@);
            }
            return true;
        }
        i += 1;
    }
    proof {
        if scope_has(s, key@) {
            let w = choose|j: int| 0 <= j < s.len() && s[j].name == key@;
            assert(s[w].name != key@);
        }
    }
    false
}

proof fn lemma_last_binding_update_same_name(
    s: Seq<ScopeEntryVal>,
    lb: int,
    e: ScopeEntryVal,
    name: Seq<char>,
)
    requires
        0 <= lb < s.len(),
        s[lb].name == e.name,
    ensures
        last_binding(s.update(lb, e), name) == last_binding(s, name),
    decreases s.len(),
{
    let t = s.update(lb, e);
    if lb == s.len() - 1 {
        if s.last().name != name {
            assert(t.drop_last() =~= s.drop_last());
        }
    } else {
        if s.last().name != name {
            assert(t.drop_last() =~= s.drop_last().update(lb, e));
            lemma_last_binding_update_same_name(s.drop_last(), lb, e, name);
        }
    }
}

/// Set/get coherence law: after a set that was not rejected, the most
/// recent binding of the name holds exactly the new value, mutable.
pub proof fn lemma_set_then_get(s: Seq<ScopeEntryVal>, name: Seq<char>, value: DynVal)
    requires
        !set_rejected(s, name),
    ensures
        ({
            let t = set_result(s, name, value);
            &&& scope_has(t, name)
            &&& t[last_binding(t, name)] == (ScopeEntryVal { name, value, constant: false })
        }),
{
    let t = set_result(s, name, value);
    let lb = last_binding(s, name);
    let e = ScopeEntryVal { name, value, constant: false };
    lemma_last_binding(s, name);
    if lb >= 0 {
        lemma_last_binding_update_same_name(s, lb, e, name);
        assert(t[lb].name == name);
    } else {
        assert(t.last().name == name);
        assert(last_binding(t, name) == t.len() - 1);
    }
    lemma_last_binding(t, name);
}

/// Constant immutability law: the update path never changes a
/// constant binding, whatever name and value are set; a constant can
/// only go away through remove, rewind, pop or clear.
pub proof fn lemma_constants_never_updated(s: Seq<ScopeEntryVal>, name: Seq<char>, value: DynVal)
    ensures
        forall|i: int|
            0 <= i < s.len() && s[i].constant ==> set_result(s, name, value)[i] == s[i],
{
    let lb = last_binding(s, name);
    assert forall|i: int| 0 <= i < s.len() && s[i].constant implies set_result(s, name, value)[i]
        == s[i] by {
        let t = set_result(s, name, value);
        if !set_rejected(s, name) && lb >= 0 {
            lemma_last_binding(s, name);
            assert(0 <= lb < s.len());
            assert(!s[lb].constant);
            assert(i != lb);
            let e = ScopeEntryVal { name, value, constant: false };
            assert(t == s.update(lb, e));
            assert(s.update(lb, e)[i] == s[i]);
        }
    }
}

/// Rewind law: pushing bindings and then rewinding to the old length
/// restores the scope exactly, which is what gives nested lexical
/// scopes without true nesting.
pub proof fn lemma_rewind_restores(s: Seq<ScopeEntryVal>, e: ScopeEntryVal)
    ensures
        s.push(e).subrange(0, s.len() as int) == s,
{
    assert(s.push(e).subrange(0, s.len() as int) =~= s);
}

/// True when some binding of this name stands in the last `k` entries.
pub open spec fn suffix_has(s: Seq<ScopeEntryVal>, k: int, name: Seq<char>) -> bool {
    exists|i: int| s.len() - k <= i < s.len() && s[i].name == name
}

proof fn lemma_visible_k(s: Seq<ScopeEntryVal>, k: int)
    requires
        0 <= k <= s.len(),
    ensures
        forall|i: int, j: int|
            0 <= i < j < visible_k(s, k).len() ==> visible_k(s, k)[i].name != visible_k(
                s,
                k,
            )[j].name,
        forall|name: Seq<char>| #[trigger] scope_has(visible_k(s, k), name) <==> suffix_has(
            s,
            k,
            name,
        ),
        forall|i: int|
            0 <= i < visible_k(s, k).len() ==> s.len() - k <= last_binding(
                s,
                visible_k(s, k)[i].name,
            ) < s.len() && s[last_binding(s, visible_k(s, k)[i].name)] == visible_k(s, k)[i],
    decreases k,
{
    if k > 0 {
        lemma_visible_k(s, k - 1);
        let prev = visible_k(s, k - 1);
        let v = visible_k(s, k);
        let pos = s.len() - k;
        let e = s[pos];
        lemma_last_binding(s, e.name);
        assert forall|name: Seq<char>|
            suffix_has(s, k, name) && name != e.name implies suffix_has(s, k - 1, name) by {
            let w = choose|i: int| s.len() - k <= i < s.len() && s[i].name == name;
            assert(w != pos);
        }
        if scope_has(prev, e.name) {
            assert(v == prev);
            assert(suffix_has(s, k - 1, e.name));
            assert forall|name: Seq<char>| #[trigger] scope_has(v, name) implies suffix_has(
                s,
                k,
                name,
            ) by {
                assert(suffix_has(s, k - 1, name));
                let w = choose|i: int| s.len() - (k - 1) <= i < s.len() && s[i].name == name;
                assert(s.len() - k <= w < s.len());
            }
        } else {
            assert(v == prev.push(e));
            // The new entry's name is fresh among the kept ones.
            assert(!suffix_has(s, k - 1, e.name));
            // So its most recent binding overall is exactly this entry.
            assert(scope_has(s, e.name));
            let lb = last_binding(s, e.name);
            if lb > pos {
                assert(s.len() - (k - 1) <= lb < s.len());
                assert(suffix_has(s, k - 1, e.name));
            }
            if lb < pos {
                assert(s[pos].name != e.name);
            }
            assert(lb == pos);
            assert forall|i: int, j: int|
                0 <= i < j < v.len() implies v[i].name != v[j].name by {
                if j == v.len() - 1 {
                    assert(v[i] == prev[i]);
                    if v[i].name == e.name {
                        assert(scope_has(prev, e.name));
                    }
                }
            }
            assert forall|name: Seq<char>| #[trigger] scope_has(v, name) implies suffix_has(
                s,
                k,
                name,
            ) by {
                let w = choose|i: int| 0 <= i < v.len() && v[i].name == name;
                if w < v.len() - 1 {
                    assert(prev[w].name == name);
                    assert(scope_has(prev, name));
                    assert(suffix_has(s, k - 1, name));
                    let u = choose|i: int| s.len() - (k - 1) <= i < s.len() && s[i].name == name;
                    assert(s.len() - k <= u < s.len());
                } else {
                    assert(v[w] == e);
                    assert(s[pos].name == name);
                }
            }
            assert forall|name: Seq<char>| suffix_has(s, k, name) implies #[trigger] scope_has(
                v,
                name,
            ) by {
                if name == e.name {
                    assert(v[v.len() - 1].name == name);
                } else {
                    assert(suffix_has(s, k - 1, name));
                    assert(scope_has(prev, name));
                    let w = choose|i: int| 0 <= i < prev.len() && prev[i].name == name;
                    assert(v[w].name == name);
                }
            }
        }
    }
}

/// Visible-bindings law: the visible copy binds each name at most
/// once; a name is visible exactly when the scope binds it at all; and
/// each kept binding is the scope's most recent binding of its name.
pub proof fn lemma_visible_bindings(s: Seq<ScopeEntryVal>)
    ensures
        forall|i: int, j: int|
            0 <= i < j < visible_bindings(s).len() ==> visible_bindings(s)[i].name
                != visible_bindings(s)[j].name,
        forall|name: Seq<char>| #[trigger] scope_has(visible_bindings(s), name) <==> scope_has(
            s,
            name,
        ),
        forall|i: int|
            0 <= i < visible_bindings(s).len() ==> s[last_binding(
                s,
                visible_bindings(s)[i].name,
            )] == visible_bindings(s)[i],
{
    let n = s.len() as int;
    lemma_visible_k(s, n);
    assert forall|name: Seq<char>| #[trigger] scope_has(visible_bindings(s), name) <==> scope_has(
        s,
        name,
    ) by {
        if suffix_has(s, n, name) {
            let w = choose|i: int| s.len() - n <= i < s.len() && s[i].name == name;
            assert(s[w].name == name);
        }
        if scope_has(s, name) {
            let w = choose|i: int| 0 <= i < s.len() && s[i].name == name;
            assert(s.len() - n <= w < s.len());
            assert(suffix_has(s, n, name));
        }
    }
}

/// A shareable, lock-protected variable scope.
pub struct ScopeResource {
    cell: crate::cell::LockCell<Scope>,
}

/// A handle on a fresh, empty scope.
pub fn scope_new() -> (r: ScopeResource) {
    ScopeResource { cell: crate::cell::cell_new(Scope::new()) }
}

/// A handle on a fresh, empty scope with reserved capacity.
pub fn scope_with_capacity(capacity: usize) -> (r: ScopeResource) {
    ScopeResource { cell: crate::cell::cell_new(Scope::with_capacity(capacity)) }
}

/// Wrap a scope in a fresh handle.
pub(crate) fn scope_resource_from(s: Scope) -> (r: ScopeResource) {
    ScopeResource { cell: crate::cell::cell_new(s) }
}

/// Another reference to the same scope handle.
pub fn scope_share(h: &ScopeResource) -> (r: ScopeResource) {
    ScopeResource { cell: crate::cell::cell_share(&h.cell) }
}

/// Take the scope out of the handle; fails with `Contention` when
/// another caller holds it.
pub fn scope_acquire(h: &ScopeResource) -> (r: Result<Scope, RhaiRustlerError>)
    ensures
        r matches Err(e) ==> e == RhaiRustlerError::Contention,
{
    match crate::cell::cell_try_take(&h.cell) {
        Some(s) => Ok(s),
        None => Err(RhaiRustlerError::Contention),
    }
}

/// Put a scope back into the handle, releasing it.
pub fn scope_release(h: &ScopeResource, s: Scope) {
    crate::cell::cell_put(&h.cell, s);
}

/// Append a mutable binding, the value converted through the bridge.
pub fn scope_push_dynamic(h: &ScopeResource, name: &str, value: &HostValue) -> (r: Result<
    (),
    RhaiRustlerError,
>)
    ensures
        r matches Err(e) ==> e == RhaiRustlerError::Contention,
{
    match crate::cell::cell_try_take(&h.cell) {
        None => Err(RhaiRustlerError::Contention),
        Some(mut s) => {
            s.push_dynamic(name, crate::bridge::to_dynamic(value));
            crate::cell::cell_put(&h.cell, s);
            Ok(())
        },
    }
}

/// Append a constant binding, the value converted through the bridge.
pub fn scope_push_constant_dynamic(h: &ScopeResource, name: &str, value: &HostValue) -> (r: Result<
    (),
    RhaiRustlerError,
>)
    ensures
        r matches Err(e) ==> e == RhaiRustlerError::Contention,
{
    match crate::cell::cell_try_take(&h.cell) {
        None => Err(RhaiRustlerError::Contention),
        Some(mut s) => {
            s.push_constant_dynamic(name, crate::bridge::to_dynamic(value));
            crate::cell::cell_put(&h.cell, s);
            Ok(())
        },
    }
}

/// Is some binding of this name present?
pub fn scope_contains(h: &ScopeResource, name: &str) -> (r: Result<bool, RhaiRustlerError>)
    ensures
        r matches Err(e) ==> e == RhaiRustlerError::Contention,
{
    match crate::cell::cell_try_take(&h.cell) {
        None => Err(RhaiRustlerError::Contention),
        Some(s) => {
            let present = s.contains(name);
            crate::cell::cell_put(&h.cell, s);
            Ok(present)
        },
    }
}

/// Whether the most recent binding of the name is constant; `None`
/// when the name is unbound.
pub fn scope_is_constant(h: &ScopeResource, name: &str) -> (r: Result<
    Option<bool>,
    RhaiRustlerError,
>)
    ensures
        r matches Err(e) ==> e == RhaiRustlerError::Contention,
{
    match crate::cell::cell_try_take(&h.cell) {
        None => Err(RhaiRustlerError::Contention),
        Some(s) => {
            let constant = s.is_constant(name);
            crate::cell::cell_put(&h.cell, s);
            Ok(constant)
        },
    }
}

/// The value of the most recent binding of the name, converted to a
/// host value; `None` when the name is unbound.
pub fn scope_get_value(h: &ScopeResource, name: &str) -> (r: Result<
    Option<HostValue>,
    RhaiRustlerError,
>)
    ensures
        r matches Err(e) ==> e == RhaiRustlerError::Contention,
{
    match crate::cell::cell_try_take(&h.cell) {
        None => Err(RhaiRustlerError::Contention),
        Some(s) => {
            let value = s.get_value(name);
            crate::cell::cell_put(&h.cell, s);
            match value {
                Some(v) => Ok(Some(from_dynamic(&v))),
                None => Ok(None),
            }
        },
    }
}

/// Remove every binding.
pub fn scope_clear(h: &ScopeResource) -> (r: Result<(), RhaiRustlerError>)
    ensures
        r matches Err(e) ==> e == RhaiRustlerError::Contention,
{
    match crate::cell::cell_try_take(&h.cell) {
        None => Err(RhaiRustlerError::Contention),
        Some(mut s) => {
            s.clear();
            crate::cell::cell_put(&h.cell, s);
            Ok(())
        },
    }
}

/// A handle on an independent copy of the currently visible bindings.
pub fn scope_clone_visible(h: &ScopeResource) -> (r: Result<ScopeResource, RhaiRustlerError>)
    ensures
        r matches Err(e) ==> e == RhaiRustlerError::Contention,
{
    match crate::cell::cell_try_take(&h.cell) {
        None => Err(RhaiRustlerError::Contention),
        Some(s) => {
            let copy = s.clone_visible();
            crate::cell::cell_put(&h.cell, s);
            Ok(scope_resource_from(copy))
        },
    }
}

/// True when the scope holds no binding at all.
pub fn scope_is_empty(h: &ScopeResource) -> (r: Result<bool, RhaiRustlerError>)
    ensures
        r matches Err(e) ==> e == RhaiRustlerError::Contention,
{
    match crate::cell::cell_try_take(&h.cell) {
        None => Err(RhaiRustlerError::Contention),
        Some(s) => {
            let empty = s.is_empty();
            crate::cell::cell_put(&h.cell, s);
            Ok(empty)
        },
    }
}

/// How many bindings the scope holds, shadowed ones included.
pub fn scope_len(h: &ScopeResource) -> (r: Result<usize, RhaiRustlerError>)
    ensures
        r matches Err(e) ==> e == RhaiRustlerError::Contention,
{
    match crate::cell::cell_try_take(&h.cell) {
        None => Err(RhaiRustlerError::Contention),
        Some(s) => {
            let n = s.len();
            crate::cell::cell_put(&h.cell, s);
            Ok(n)
        },
    }
}

/// Remove the most recent binding of the name and hand its value back
/// as a host value.
pub fn scope_remove(h: &ScopeResource, name: &str) -> (r: Result<
    Option<HostValue>,
    RhaiRustlerError,
>)
    ensures
        r matches Err(e) ==> e == RhaiRustlerError::Contention,
{
    match crate::cell::cell_try_take(&h.cell) {
        None => Err(RhaiRustlerError::Contention),
        Some(mut s) => {
            let removed = s.remove(name);
            crate::cell::cell_put(&h.cell, s);
            match removed {
                Some(v) => Ok(Some(from_dynamic(&v))),
                None => Ok(None),
            }
        },
    }
}

/// Truncate the scope back to a previous length.
pub fn scope_rewind(h: &ScopeResource, size: usize) -> (r: Result<(), RhaiRustlerError>)
    ensures
        r matches Err(e) ==> e == RhaiRustlerError::Contention,
{
    match crate::cell::cell_try_take(&h.cell) {
        None => Err(RhaiRustlerError::Contention),
        Some(mut s) => {
            s.rewind(size);
            crate::cell::cell_put(&h.cell, s);
            Ok(())
        },
    }
}

/// Every binding as a (name, host value) pair, in binding order.
pub fn scope_iter_collect(h: &ScopeResource) -> (r: Result<
    Vec<(String, HostValue)>,
    RhaiRustlerError,
>)
    ensures
        r matches Err(e) ==> e == RhaiRustlerError::Contention,
{
    match crate::cell::cell_try_take(&h.cell) {
        None => Err(RhaiRustlerError::Contention),
        Some(s) => {
            let pairs = s.iter_collect();
            crate::cell::cell_put(&h.cell, s);
            Ok(pairs)
        },
    }
}

/// Drop the most recent binding; an empty scope reports the distinct
/// scope-is-empty error.
pub fn scope_pop(h: &ScopeResource) -> (r: Result<(), RhaiRustlerError>)
    ensures
        r matches Err(e) ==> e == RhaiRustlerError::Contention || e == RhaiRustlerError::ScopeError(
            ScopeError::ErrorScopeIsEmpty,
        ),
{
    match crate::cell::cell_try_take(&h.cell) {
        None => Err(RhaiRustlerError::Contention),
        Some(mut s) => {
            let r = s.pop();
            crate::cell::cell_put(&h.cell, s);
            r
        },
    }
}

/// Update the most recent binding of the name, or push a fresh one
/// when the name is unbound; a constant binding rejects the update
/// with the distinct cannot-update-constant error.
pub fn scope_set_value(h: &ScopeResource, name: &str, value: &HostValue) -> (r: Result<
    (),
    RhaiRustlerError,
>)
    ensures
        r matches Err(e) ==> e == RhaiRustlerError::Contention || e == RhaiRustlerError::ScopeError(
            ScopeError::ErrorCannotUpdateValueOfConstant,
        ),
{
    match crate::cell::cell_try_take(&h.cell) {
        None => Err(RhaiRustlerError::Contention),
        Some(mut s) => {
            let r = s.set_value(name, crate::bridge::to_dynamic(value));
            crate::cell::cell_put(&h.cell, s);
            r
        },
    }
}

/// Constant protection law: after pushing a constant binding, a set on
/// that name is rejected and the scope — the constant's value included —
/// stays exactly as it was.
pub proof fn lemma_constant_protection(
    s: Seq<ScopeEntryVal>,
    name: Seq<char>,
    c: DynVal,
    w: DynVal,
)
    ensures
        ({
            let pushed = s.push(ScopeEntryVal { name, value: c, constant: true });
            &&& set_rejected(pushed, name)
            &&& set_result(pushed, name, w) == pushed
            &&& pushed[last_binding(pushed, name)].value == c
        }),
{
    let pushed = s.push(ScopeEntryVal { name, value: c, constant: true });
    assert(pushed.last().name == name);
    assert(last_binding(pushed, name) == pushed.len() - 1);
}

} // verus!
