//! Trusted bindings to the embedded engine.
//!
//! Everything the library takes on trust about the engine crate lives
//! here: the declarations of its opaque types, four named models (the
//! content of an engine value, its constant marker, the bindings of an
//! engine-side scope, and an engine's configuration options) and one
//! small wrapper per engine call. Each wrapper's body holds that one
//! call plus argument and result conversion, nothing else, and its
//! contract states over the named models what the engine's source
//! shows of the call. Evaluation itself stays a black box: no contract
//! claims anything about what running a program produces or does to
//! the scope it runs against.

use vstd::prelude::*;

use rhai::packages::Package as RhaiPackage;

use crate::error::EvalFault;
use crate::scope::ScopeEntryVal;
use crate::value::DynVal;

verus! {

#[verifier::external_type_specification]
#[verifier::external_body]
pub struct ExEngine(rhai::Engine);

#[verifier::external_type_specification]
#[verifier::external_body]
pub struct ExAst(rhai::AST);

#[verifier::external_type_specification]
#[verifier::external_body]
pub struct ExDynamic(rhai::Dynamic);

#[verifier::external_type_specification]
#[verifier::external_body]
pub struct ExEvalAltResult(rhai::EvalAltResult);

#[verifier::external_type_specification]
#[verifier::external_body]
pub struct ExModule(rhai::Module);

#[verifier::external_type_specification]
#[verifier::external_body]
pub struct ExResolvers(rhai::module_resolvers::ModuleResolversCollection);

/// The engine-side variable scope a call evaluates against; built from
/// the library's own scope just before each call and read back whole
/// right after. Nothing is stated of its contents: the engine may
/// rewrite it arbitrarily during a call, and no conclusion ever rests
/// on what it holds between the fill and the read-back.
#[verifier::external_body]
pub struct EngineScope {
    inner: rhai::Scope<'static>,
}

// --- trusted models -----------------------------------------------------

/// The structural content of an engine value: unit, boolean, integer,
/// float (as its bit pattern), character, string, array (element-wise)
/// or object map (pairs in the map's own key order). A value of any
/// other type — custom types, and shared values, whose contents live
/// in a mutable cell and so are not a function of the value itself —
/// has content `Opaque`.
pub uninterp spec fn dyn_content(d: rhai::Dynamic) -> DynVal;

/// Whether the engine value itself carries the read-only (constant)
/// access mode.
pub uninterp spec fn dyn_read_only(d: rhai::Dynamic) -> bool;

/// The bindings an engine-side scope holds, in order: name, content of
/// the stored value, and whether the binding is constant.
pub uninterp spec fn engine_scope_model(s: EngineScope) -> Seq<ScopeEntryVal>;

/// The configuration options of one engine, as plain values; the
/// optimization level is encoded 0 = none, 1 = simple, 2 = full.
pub struct EngineConfigModel {
    pub allow_anonymous_fn: bool,
    pub allow_if_expression: bool,
    pub allow_loop_expressions: bool,
    pub allow_looping: bool,
    pub allow_shadowing: bool,
    pub allow_statement_expression: bool,
    pub allow_switch_expression: bool,
    pub fail_on_invalid_map_property: bool,
    pub fast_operators: bool,
    pub strict_variables: bool,
    pub max_array_size: usize,
    pub max_call_levels: usize,
    pub max_expr_depth: usize,
    pub max_function_expr_depth: usize,
    pub max_map_size: usize,
    pub max_modules: usize,
    pub max_operations: u64,
    pub max_string_size: usize,
    pub optimization_level: u8,
}

/// The configuration an engine currently holds; every setter below
/// states which field it replaces, every getter which field it reads.
pub uninterp spec fn engine_config(e: rhai::Engine) -> EngineConfigModel;

/// The contents of a sequence of engine values, element-wise.
pub open spec fn dyn_contents_of(items: Seq<rhai::Dynamic>) -> Seq<DynVal> {
    Seq::new(
        items.len(),
        |i: int| if 0 <= i < items.len() { dyn_content(items[i]) } else { arbitrary() },
    )
}

/// The contents of a sequence of key/value pairs of engine values.
pub open spec fn dyn_pair_contents_of(pairs: Seq<(String, rhai::Dynamic)>) -> Seq<
    (Seq<char>, DynVal),
> {
    Seq::new(
        pairs.len(),
        |i: int| if 0 <= i < pairs.len() { (pairs[i].0@, dyn_content(pairs[i].1)) } else { arbitrary() },
    )
}

// --- engine values ------------------------------------------------------

/// Relies on `rhai::Dynamic::from` for `()`: a fresh mutable unit value.
#[verifier::external_body]
pub(crate) fn dyn_unit() -> (r: rhai::Dynamic)
    ensures
        dyn_content(r) == DynVal::Unit,
        !dyn_read_only(r),
{
    rhai::Dynamic::from(())
}

/// Relies on `rhai::Dynamic::from` for `bool`: a fresh mutable value
/// holding exactly the boolean.
#[verifier::external_body]
pub(crate) fn dyn_from_bool(b: bool) -> (r: rhai::Dynamic)
    ensures
        dyn_content(r) == DynVal::Bool(b),
        !dyn_read_only(r),
{
    rhai::Dynamic::from(b)
}

/// Relies on `rhai::Dynamic::from` for the engine's integer type: a
/// fresh mutable value holding exactly the integer.
#[verifier::external_body]
pub(crate) fn dyn_from_int(i: i64) -> (r: rhai::Dynamic)
    ensures
        dyn_content(r) == DynVal::Int(i),
        !dyn_read_only(r),
{
    rhai::Dynamic::from(i)
}

/// Relies on `rhai::Dynamic::from` for the engine's float type and on
/// the exact `from_bits`/`to_bits` round trip: a fresh mutable value
/// holding the float with exactly this IEEE 754 bit pattern.
#[verifier::external_body]
pub(crate) fn dyn_from_float_bits(bits: u64) -> (r: rhai::Dynamic)
    ensures
        dyn_content(r) == DynVal::Float(bits),
        !dyn_read_only(r),
{
    rhai::Dynamic::from(rhai::FLOAT::from_bits(bits))
}

/// Relies on `rhai::Dynamic::from` for `char`: a fresh mutable value
/// holding exactly the character.
#[verifier::external_body]
pub(crate) fn dyn_from_char(c: char) -> (r: rhai::Dynamic)
    ensures
        dyn_content(r) == DynVal::Char(c),
        !dyn_read_only(r),
{
    rhai::Dynamic::from(c)
}

/// Relies on `rhai::Dynamic::from` for `String`: a fresh mutable value
/// holding exactly these characters.
#[verifier::external_body]
pub(crate) fn dyn_from_string(s: String) -> (r: rhai::Dynamic)
    ensures
        dyn_content(r) == DynVal::Str(s@),
        !dyn_read_only(r),
{
    rhai::Dynamic::from(s)
}

/// Relies on `rhai::Dynamic::from_array`: a fresh mutable array value
/// holding exactly these elements, in order.
#[verifier::external_body]
pub(crate) fn dyn_from_array(items: Vec<rhai::Dynamic>) -> (r: rhai::Dynamic)
    ensures
        dyn_content(r) == DynVal::Array(dyn_contents_of(items@)),
        !dyn_read_only(r),
{
    rhai::Dynamic::from_array(items)
}

/// Relies on `rhai::Dynamic::from` for the engine's object map,
/// built from the key/value pairs in order (a later key overwrites an
/// earlier equal one, as map insertion does). The map re-orders its
/// pairs by key, so only the value's kind is stated here.
#[verifier::external_body]
pub(crate) fn dyn_from_pairs(pairs: Vec<(String, rhai::Dynamic)>) -> (r: rhai::Dynamic)
    ensures
        dyn_content(r) is Mapping,
        !dyn_read_only(r),
{
    let mut map = rhai::Map::new();
    for (k, v) in pairs {
        map.insert(k.into(), v);
    }
    rhai::Dynamic::from(map)
}

/// Relies on `rhai::Dynamic::is_unit`: for a value whose content the
/// model carries, answers exactly whether that content is there; of an
/// opaque value (a shared cell or a custom type) nothing is stated.
#[verifier::external_body]
pub(crate) fn dyn_is_unit(d: &rhai::Dynamic) -> (r: bool)
    ensures
        !(dyn_content(*d) is Opaque) ==> r == (dyn_content(*d) is Unit),
{
    d.is_unit()
}

/// Relies on `rhai::Dynamic::is_int`: for a value whose content the
/// model carries, answers exactly whether that content is there; of an
/// opaque value (a shared cell or a custom type) nothing is stated.
#[verifier::external_body]
pub(crate) fn dyn_is_int(d: &rhai::Dynamic) -> (r: bool)
    ensures
        !(dyn_content(*d) is Opaque) ==> r == (dyn_content(*d) is Int),
{
    d.is_int()
}

/// Relies on `rhai::Dynamic::is_float`: for a value whose content the
/// model carries, answers exactly whether that content is there; of an
/// opaque value (a shared cell or a custom type) nothing is stated.
#[verifier::external_body]
pub(crate) fn dyn_is_float(d: &rhai::Dynamic) -> (r: bool)
    ensures
        !(dyn_content(*d) is Opaque) ==> r == (dyn_content(*d) is Float),
{
    d.is_float()
}

/// Relies on `rhai::Dynamic::is_bool`: for a value whose content the
/// model carries, answers exactly whether that content is there; of an
/// opaque value (a shared cell or a custom type) nothing is stated.
#[verifier::external_body]
pub(crate) fn dyn_is_bool(d: &rhai::Dynamic) -> (r: bool)
    ensures
        !(dyn_content(*d) is Opaque) ==> r == (dyn_content(*d) is Bool),
{
    d.is_bool()
}

/// Relies on `rhai::Dynamic::is_char`: for a value whose content the
/// model carries, answers exactly whether that content is there; of an
/// opaque value (a shared cell or a custom type) nothing is stated.
#[verifier::external_body]
pub(crate) fn dyn_is_char(d: &rhai::Dynamic) -> (r: bool)
    ensures
        !(dyn_content(*d) is Opaque) ==> r == (dyn_content(*d) is Char),
{
    d.is_char()
}

/// Relies on `rhai::Dynamic::is_string`: for a value whose content the
/// model carries, answers exactly whether that content is there; of an
/// opaque value (a shared cell or a custom type) nothing is stated.
#[verifier::external_body]
pub(crate) fn dyn_is_string(d: &rhai::Dynamic) -> (r: bool)
    ensures
        !(dyn_content(*d) is Opaque) ==> r == (dyn_content(*d) is Str),
{
    d.is_string()
}

/// Relies on `rhai::Dynamic::is_array`: for a value whose content the
/// model carries, answers exactly whether that content is there; of an
/// opaque value (a shared cell or a custom type) nothing is stated.
#[verifier::external_body]
pub(crate) fn dyn_is_array(d: &rhai::Dynamic) -> (r: bool)
    ensures
        !(dyn_content(*d) is Opaque) ==> r == (dyn_content(*d) is Array),
{
    d.is_array()
}

/// Relies on `rhai::Dynamic::is_map`: for a value whose content the
/// model carries, answers exactly whether that content is there; of an
/// opaque value (a shared cell or a custom type) nothing is stated.
#[verifier::external_body]
pub(crate) fn dyn_is_map(d: &rhai::Dynamic) -> (r: bool)
    ensures
        !(dyn_content(*d) is Opaque) ==> r == (dyn_content(*d) is Mapping),
{
    d.is_map()
}

/// Relies on `rhai::Dynamic::as_int`: a value whose content is an
/// integer yields exactly that integer.
#[verifier::external_body]
pub(crate) fn dyn_as_int(d: &rhai::Dynamic) -> (r: Option<i64>)
    ensures
        dyn_content(*d) matches DynVal::Int(i) ==> r == Some(i),
{
    d.as_int().ok()
}

/// Relies on `rhai::Dynamic::as_bool`: a value whose content is a
/// boolean yields exactly that boolean.
#[verifier::external_body]
pub(crate) fn dyn_as_bool(d: &rhai::Dynamic) -> (r: Option<bool>)
    ensures
        dyn_content(*d) matches DynVal::Bool(b) ==> r == Some(b),
{
    d.as_bool().ok()
}

/// Relies on `rhai::Dynamic::as_char`: a value whose content is a
/// character yields exactly that character.
#[verifier::external_body]
pub(crate) fn dyn_as_char(d: &rhai::Dynamic) -> (r: Option<char>)
    ensures
        dyn_content(*d) matches DynVal::Char(c) ==> r == Some(c),
{
    d.as_char().ok()
}

/// Relies on `rhai::Dynamic::as_float` and the exact
/// `to_bits`/`from_bits` round trip: a value whose content is a float
/// yields exactly that bit pattern.
#[verifier::external_body]
pub(crate) fn dyn_float_bits(d: &rhai::Dynamic) -> (r: Option<u64>)
    ensures
        dyn_content(*d) matches DynVal::Float(bits) ==> r == Some(bits),
{
    match d.as_float() {
        Ok(f) => Some(f.to_bits()),
        Err(_) => None,
    }
}

/// Relies on `rhai::Dynamic::into_string`: a value whose content is a
/// string yields exactly those characters.
#[verifier::external_body]
pub(crate) fn dyn_into_string(d: rhai::Dynamic) -> (r: Option<String>)
    ensures
        dyn_content(d) is Str ==> r is Some,
        dyn_content(d) matches DynVal::Str(text) ==> r->Some_0@ == text,
{
    d.into_string().ok()
}

/// Relies on `rhai::Dynamic::into_array`: a value whose content is an
/// array yields exactly its elements, in order.
#[verifier::external_body]
pub(crate) fn dyn_into_array(d: rhai::Dynamic) -> (r: Option<Vec<rhai::Dynamic>>)
    ensures
        dyn_content(d) is Array ==> r is Some,
        dyn_content(d) matches DynVal::Array(elems) ==> dyn_contents_of(r->Some_0@) == elems,
{
    d.into_array().ok()
}

/// Relies on `rhai::Dynamic::try_cast` to the engine's object map: a
/// value whose content is a mapping yields exactly its pairs, in the
/// map's own (key-sorted) order — the order the content is defined in.
#[verifier::external_body]
pub(crate) fn dyn_into_map_pairs(d: rhai::Dynamic) -> (r: Option<Vec<(String, rhai::Dynamic)>>)
    ensures
        dyn_content(d) is Mapping ==> r is Some,
        dyn_content(d) matches DynVal::Mapping(pairs) ==> dyn_pair_contents_of(r->Some_0@)
            == pairs,
{
    d.try_cast::<rhai::Map>().map(|m| m.into_iter().map(|(k, v)| (k.into(), v)).collect())
}

// --- engine-side scopes ---------------------------------------------------

/// Relies on `rhai::Scope::new`: a scope with no bindings.
#[verifier::external_body]
pub(crate) fn engine_scope_new() -> (r: EngineScope)
    ensures
        engine_scope_model(r) == Seq::<ScopeEntryVal>::empty(),
{
    EngineScope { inner: rhai::Scope::new() }
}

/// Relies on `rhai::Scope::push_dynamic`: appends a binding of the
/// name to the value, constant exactly when the value itself carries
/// the read-only mode.
#[verifier::external_body]
pub(crate) fn engine_scope_push(s: &mut EngineScope, name: &str, value: rhai::Dynamic)
    ensures
        engine_scope_model(*final(s)) == engine_scope_model(*old(s)).push(
            ScopeEntryVal {
                name: name@,
                value: dyn_content(value),
                constant: dyn_read_only(value),
            },
        ),
{
    s.inner.push_dynamic(name, value);
}

/// Relies on `rhai::Scope::push_constant_dynamic`: appends a constant
/// binding of the name to the value.
#[verifier::external_body]
pub(crate) fn engine_scope_push_constant(s: &mut EngineScope, name: &str, value: rhai::Dynamic)
    ensures
        engine_scope_model(*final(s)) == engine_scope_model(*old(s)).push(
            ScopeEntryVal { name: name@, value: dyn_content(value), constant: true },
        ),
{
    s.inner.push_constant_dynamic(name, value);
}

/// Relies on `rhai::Scope::iter`: every binding in order as
/// (name, is-constant, value), values cloned out. Cloning and the
/// constant probe read shared cells through, so the content and flag
/// are stated only for bindings whose stored content the model
/// carries.
#[verifier::external_body]
pub(crate) fn engine_scope_entries(s: &EngineScope) -> (r: Vec<(String, bool, rhai::Dynamic)>)
    ensures
        r@.len() == engine_scope_model(*s).len(),
        forall|i: int|
            0 <= i < r@.len() ==> {
                let m = engine_scope_model(*s)[i];
                (#[trigger] r@[i]).0@ == m.name && (!(m.value is Opaque) ==> r@[i].1 == m.constant
                    && dyn_content(r@[i].2) == m.value)
            },
{
    s.inner.iter().map(|(n, c, v)| (n.to_string(), c, v)).collect()
}

// --- engines and configuration --------------------------------------------

/// Relies on `rhai::Engine::new`: a fresh engine with the standard
/// package and default configuration.
#[verifier::external_body]
pub(crate) fn engine_make() -> (r: rhai::Engine) {
    rhai::Engine::new()
}

/// Relies on `rhai::Engine::new_raw`: a bare engine with nothing
/// registered and default configuration.
#[verifier::external_body]
pub(crate) fn engine_make_raw() -> (r: rhai::Engine) {
    rhai::Engine::new_raw()
}

/// Relies on `rhai::config::hashing::set_hashing_seed`: sets the
/// process-wide hashing seed once; reports whether this call set it.
#[verifier::external_body]
pub(crate) fn set_hash_seed(a: u64, b: u64, c: u64, d: u64) -> (r: bool) {
    rhai::config::hashing::set_hashing_seed(Some([a, b, c, d])).is_ok()
}

/// Relies on `rhai::Engine::set_allow_anonymous_fn`.
#[verifier::external_body]
pub(crate) fn engine_set_allow_anonymous_fn_raw(e: &mut rhai::Engine, enable: bool)
    ensures
        engine_config(*final(e)) == (EngineConfigModel {
            allow_anonymous_fn: enable,
            ..engine_config(*old(e))
        }),
{
    e.set_allow_anonymous_fn(enable);
}

/// Relies on `rhai::Engine::allow_anonymous_fn`.
#[verifier::external_body]
pub(crate) fn engine_allow_anonymous_fn_raw(e: &rhai::Engine) -> (r: bool)
    ensures
        r == engine_config(*e).allow_anonymous_fn,
{
    e.allow_anonymous_fn()
}

/// Relies on `rhai::Engine::set_allow_if_expression`.
#[verifier::external_body]
pub(crate) fn engine_set_allow_if_expression_raw(e: &mut rhai::Engine, enable: bool)
    ensures
        engine_config(*final(e)) == (EngineConfigModel {
            allow_if_expression: enable,
            ..engine_config(*old(e))
        }),
{
    e.set_allow_if_expression(enable);
}

/// Relies on `rhai::Engine::allow_if_expression`.
#[verifier::external_body]
pub(crate) fn engine_allow_if_expression_raw(e: &rhai::Engine) -> (r: bool)
    ensures
        r == engine_config(*e).allow_if_expression,
{
    e.allow_if_expression()
}

/// Relies on `rhai::Engine::set_allow_loop_expressions`.
#[verifier::external_body]
pub(crate) fn engine_set_allow_loop_expressions_raw(e: &mut rhai::Engine, enable: bool)
    ensures
        engine_config(*final(e)) == (EngineConfigModel {
            allow_loop_expressions: enable,
            ..engine_config(*old(e))
        }),
{
    e.set_allow_loop_expressions(enable);
}

/// Relies on `rhai::Engine::allow_loop_expressions`.
#[verifier::external_body]
pub(crate) fn engine_allow_loop_expressions_raw(e: &rhai::Engine) -> (r: bool)
    ensures
        r == engine_config(*e).allow_loop_expressions,
{
    e.allow_loop_expressions()
}

/// Relies on `rhai::Engine::set_allow_looping`.
#[verifier::external_body]
pub(crate) fn engine_set_allow_looping_raw(e: &mut rhai::Engine, enable: bool)
    ensures
        engine_config(*final(e)) == (EngineConfigModel {
            allow_looping: enable,
            ..engine_config(*old(e))
        }),
{
    e.set_allow_looping(enable);
}

/// Relies on `rhai::Engine::allow_looping`.
#[verifier::external_body]
pub(crate) fn engine_allow_looping_raw(e: &rhai::Engine) -> (r: bool)
    ensures
        r == engine_config(*e).allow_looping,
{
    e.allow_looping()
}

/// Relies on `rhai::Engine::set_allow_shadowing`.
#[verifier::external_body]
pub(crate) fn engine_set_allow_shadowing_raw(e: &mut rhai::Engine, enable: bool)
    ensures
        engine_config(*final(e)) == (EngineConfigModel {
            allow_shadowing: enable,
            ..engine_config(*old(e))
        }),
{
    e.set_allow_shadowing(enable);
}

/// Relies on `rhai::Engine::allow_shadowing`.
#[verifier::external_body]
pub(crate) fn engine_allow_shadowing_raw(e: &rhai::Engine) -> (r: bool)
    ensures
        r == engine_config(*e).allow_shadowing,
{
    e.allow_shadowing()
}

/// Relies on `rhai::Engine::set_allow_statement_expression`.
#[verifier::external_body]
pub(crate) fn engine_set_allow_statement_expression_raw(e: &mut rhai::Engine, enable: bool)
    ensures
        engine_config(*final(e)) == (EngineConfigModel {
            allow_statement_expression: enable,
            ..engine_config(*old(e))
        }),
{
    e.set_allow_statement_expression(enable);
}

/// Relies on `rhai::Engine::allow_statement_expression`.
#[verifier::external_body]
pub(crate) fn engine_allow_statement_expression_raw(e: &rhai::Engine) -> (r: bool)
    ensures
        r == engine_config(*e).allow_statement_expression,
{
    e.allow_statement_expression()
}

/// Relies on `rhai::Engine::set_allow_switch_expression`.
#[verifier::external_body]
pub(crate) fn engine_set_allow_switch_expression_raw(e: &mut rhai::Engine, enable: bool)
    ensures
        engine_config(*final(e)) == (EngineConfigModel {
            allow_switch_expression: enable,
            ..engine_config(*old(e))
        }),
{
    e.set_allow_switch_expression(enable);
}

/// Relies on `rhai::Engine::allow_switch_expression`.
#[verifier::external_body]
pub(crate) fn engine_allow_switch_expression_raw(e: &rhai::Engine) -> (r: bool)
    ensures
        r == engine_config(*e).allow_switch_expression,
{
    e.allow_switch_expression()
}

/// Relies on `rhai::Engine::set_fail_on_invalid_map_property`.
#[verifier::external_body]
pub(crate) fn engine_set_fail_on_invalid_map_property_raw(e: &mut rhai::Engine, enable: bool)
    ensures
        engine_config(*final(e)) == (EngineConfigModel {
            fail_on_invalid_map_property: enable,
            ..engine_config(*old(e))
        }),
{
    e.set_fail_on_invalid_map_property(enable);
}

/// Relies on `rhai::Engine::fail_on_invalid_map_property`.
#[verifier::external_body]
pub(crate) fn engine_fail_on_invalid_map_property_raw(e: &rhai::Engine) -> (r: bool)
    ensures
        r == engine_config(*e).fail_on_invalid_map_property,
{
    e.fail_on_invalid_map_property()
}

/// Relies on `rhai::Engine::set_fast_operators`.
#[verifier::external_body]
pub(crate) fn engine_set_fast_operators_raw(e: &mut rhai::Engine, enable: bool)
    ensures
        engine_config(*final(e)) == (EngineConfigModel {
            fast_operators: enable,
            ..engine_config(*old(e))
        }),
{
    e.set_fast_operators(enable);
}

/// Relies on `rhai::Engine::fast_operators`.
#[verifier::external_body]
pub(crate) fn engine_fast_operators_raw(e: &rhai::Engine) -> (r: bool)
    ensures
        r == engine_config(*e).fast_operators,
{
    e.fast_operators()
}

/// Relies on `rhai::Engine::set_strict_variables`.
#[verifier::external_body]
pub(crate) fn engine_set_strict_variables_raw(e: &mut rhai::Engine, enable: bool)
    ensures
        engine_config(*final(e)) == (EngineConfigModel {
            strict_variables: enable,
            ..engine_config(*old(e))
        }),
{
    e.set_strict_variables(enable);
}

/// Relies on `rhai::Engine::strict_variables`.
#[verifier::external_body]
pub(crate) fn engine_strict_variables_raw(e: &rhai::Engine) -> (r: bool)
    ensures
        r == engine_config(*e).strict_variables,
{
    e.strict_variables()
}

/// Relies on `rhai::Engine::set_max_array_size`.
#[verifier::external_body]
pub(crate) fn engine_set_max_array_size_raw(e: &mut rhai::Engine, max_size: usize)
    ensures
        engine_config(*final(e)) == (EngineConfigModel {
            max_array_size: max_size,
            ..engine_config(*old(e))
        }),
{
    e.set_max_array_size(max_size);
}

/// Relies on `rhai::Engine::max_array_size` (0 for unlimited).
#[verifier::external_body]
pub(crate) fn engine_max_array_size_raw(e: &rhai::Engine) -> (r: usize)
    ensures
        r == engine_config(*e).max_array_size,
{
    e.max_array_size()
}

/// Relies on `rhai::Engine::set_max_call_levels`.
#[verifier::external_body]
pub(crate) fn engine_set_max_call_levels_raw(e: &mut rhai::Engine, levels: usize)
    ensures
        engine_config(*final(e)) == (EngineConfigModel {
            max_call_levels: levels,
            ..engine_config(*old(e))
        }),
{
    e.set_max_call_levels(levels);
}

/// Relies on `rhai::Engine::max_call_levels`.
#[verifier::external_body]
pub(crate) fn engine_max_call_levels_raw(e: &rhai::Engine) -> (r: usize)
    ensures
        r == engine_config(*e).max_call_levels,
{
    e.max_call_levels()
}

/// Relies on `rhai::Engine::set_max_expr_depths`: sets the depth limit
/// for expressions and for expressions inside functions.
#[verifier::external_body]
pub(crate) fn engine_set_max_expr_depths_raw(
    e: &mut rhai::Engine,
    max_expr_depth: usize,
    max_function_expr_depth: usize,
)
    ensures
        engine_config(*final(e)) == (EngineConfigModel {
            max_expr_depth,
            max_function_expr_depth,
            ..engine_config(*old(e))
        }),
{
    e.set_max_expr_depths(max_expr_depth, max_function_expr_depth);
}

/// Relies on `rhai::Engine::max_expr_depth` (0 for unlimited).
#[verifier::external_body]
pub(crate) fn engine_max_expr_depth_raw(e: &rhai::Engine) -> (r: usize)
    ensures
        r == engine_config(*e).max_expr_depth,
{
    e.max_expr_depth()
}

/// Relies on `rhai::Engine::max_function_expr_depth` (0 for unlimited).
#[verifier::external_body]
pub(crate) fn engine_max_function_expr_depth_raw(e: &rhai::Engine) -> (r: usize)
    ensures
        r == engine_config(*e).max_function_expr_depth,
{
    e.max_function_expr_depth()
}

/// Relies on `rhai::Engine::set_max_map_size`.
#[verifier::external_body]
pub(crate) fn engine_set_max_map_size_raw(e: &mut rhai::Engine, max_size: usize)
    ensures
        engine_config(*final(e)) == (EngineConfigModel {
            max_map_size: max_size,
            ..engine_config(*old(e))
        }),
{
    e.set_max_map_size(max_size);
}

/// Relies on `rhai::Engine::max_map_size` (0 for unlimited).
#[verifier::external_body]
pub(crate) fn engine_max_map_size_raw(e: &rhai::Engine) -> (r: usize)
    ensures
        r == engine_config(*e).max_map_size,
{
    e.max_map_size()
}

/// Relies on `rhai::Engine::set_max_modules`.
#[verifier::external_body]
pub(crate) fn engine_set_max_modules_raw(e: &mut rhai::Engine, modules: usize)
    ensures
        engine_config(*final(e)) == (EngineConfigModel {
            max_modules: modules,
            ..engine_config(*old(e))
        }),
{
    e.set_max_modules(modules);
}

/// Relies on `rhai::Engine::max_modules`.
#[verifier::external_body]
pub(crate) fn engine_max_modules_raw(e: &rhai::Engine) -> (r: usize)
    ensures
        r == engine_config(*e).max_modules,
{
    e.max_modules()
}

/// Relies on `rhai::Engine::set_max_operations`.
#[verifier::external_body]
pub(crate) fn engine_set_max_operations_raw(e: &mut rhai::Engine, operations: u64)
    ensures
        engine_config(*final(e)) == (EngineConfigModel {
            max_operations: operations,
            ..engine_config(*old(e))
        }),
{
    e.set_max_operations(operations);
}

/// Relies on `rhai::Engine::max_operations` (0 for unlimited).
#[verifier::external_body]
pub(crate) fn engine_max_operations_raw(e: &rhai::Engine) -> (r: u64)
    ensures
        r == engine_config(*e).max_operations,
{
    e.max_operations()
}

/// Relies on `rhai::Engine::set_max_string_size`.
#[verifier::external_body]
pub(crate) fn engine_set_max_string_size_raw(e: &mut rhai::Engine, max_len: usize)
    ensures
        engine_config(*final(e)) == (EngineConfigModel {
            max_string_size: max_len,
            ..engine_config(*old(e))
        }),
{
    e.set_max_string_size(max_len);
}

/// Relies on `rhai::Engine::max_string_size` (0 for unlimited).
#[verifier::external_body]
pub(crate) fn engine_max_string_size_raw(e: &rhai::Engine) -> (r: usize)
    ensures
        r == engine_config(*e).max_string_size,
{
    e.max_string_size()
}

/// Relies on `rhai::Engine::set_optimization_level`; the levels are
/// encoded 0 = none, 1 = simple, anything else = full.
#[verifier::external_body]
pub(crate) fn engine_set_optimization_level_raw(e: &mut rhai::Engine, level: u8)
    ensures
        engine_config(*final(e)) == (EngineConfigModel {
            optimization_level: if level == 0 { 0u8 } else if level == 1 { 1u8 } else { 2u8 },
            ..engine_config(*old(e))
        }),
{
    e.set_optimization_level(
        match level {
            0 => rhai::OptimizationLevel::None,
            1 => rhai::OptimizationLevel::Simple,
            _ => rhai::OptimizationLevel::Full,
        },
    );
}

/// Relies on `rhai::Engine::optimization_level`; the levels are
/// encoded 0 = none, 1 = simple, 2 = full.
#[verifier::external_body]
pub(crate) fn engine_optimization_level_raw(e: &rhai::Engine) -> (r: u8)
    ensures
        r == engine_config(*e).optimization_level,
{
    match e.optimization_level() {
        rhai::OptimizationLevel::None => 0,
        rhai::OptimizationLevel::Simple => 1,
        _ => 2,
    }
}

/// Relies on `rhai::Engine::disable_symbol`.
#[verifier::external_body]
pub(crate) fn engine_disable_symbol_raw(e: &mut rhai::Engine, symbol: &str) {
    e.disable_symbol(symbol);
}

/// Relies on `rhai::Engine::register_custom_operator`: registers the
/// keyword with the precedence, or reports the engine's message (a
/// zero precedence or an unsuitable keyword is refused).
#[verifier::external_body]
pub(crate) fn engine_register_custom_operator_raw(
    e: &mut rhai::Engine,
    keyword: &str,
    precedence: u8,
) -> (r: Result<(), String>) {
    match e.register_custom_operator(keyword, precedence) {
        Ok(_) => Ok(()),
        Err(message) => Err(message),
    }
}

/// Relies on `rhai::Engine::ensure_data_size_within_limits`.
#[verifier::external_body]
pub(crate) fn engine_ensure_data_size_raw(e: &rhai::Engine, value: &rhai::Dynamic) -> (r: Result<
    (),
    Box<rhai::EvalAltResult>,
>) {
    e.ensure_data_size_within_limits(value)
}

/// Relies on `rhai::Engine::register_global_module`.
#[verifier::external_body]
pub(crate) fn engine_register_global_module_raw(e: &mut rhai::Engine, module: rhai::Shared<rhai::Module>) {
    e.register_global_module(module);
}

/// Relies on `rhai::Engine::register_static_module`.
#[verifier::external_body]
pub(crate) fn engine_register_static_module_raw(
    e: &mut rhai::Engine,
    namespace: &str,
    module: rhai::Shared<rhai::Module>,
) {
    e.register_static_module(namespace, module);
}

/// Relies on `rhai::module_resolvers::ModuleResolversCollection::new`.
#[verifier::external_body]
pub(crate) fn resolvers_new() -> (r: rhai::module_resolvers::ModuleResolversCollection) {
    rhai::module_resolvers::ModuleResolversCollection::new()
}

/// Relies on `ModuleResolversCollection::push` with a fresh
/// `rhai::module_resolvers::FileModuleResolver`.
#[verifier::external_body]
pub(crate) fn resolvers_push_file(c: &mut rhai::module_resolvers::ModuleResolversCollection) {
    c.push(rhai::module_resolvers::FileModuleResolver::new());
}

/// Relies on `ModuleResolversCollection::push` with a fresh
/// `rhai_dylib::module_resolvers::libloading::DylibModuleResolver`.
#[verifier::external_body]
pub(crate) fn resolvers_push_dylib(c: &mut rhai::module_resolvers::ModuleResolversCollection) {
    c.push(rhai_dylib::module_resolvers::libloading::DylibModuleResolver::new());
}

/// Relies on `rhai::Engine::set_module_resolver`.
#[verifier::external_body]
pub(crate) fn engine_set_module_resolver_raw(
    e: &mut rhai::Engine,
    resolvers: rhai::module_resolvers::ModuleResolversCollection,
) {
    e.set_module_resolver(resolvers);
}

/// Relies on `rhai::packages::ArithmeticPackage`'s `register_into_engine`.
#[verifier::external_body]
pub(crate) fn register_arithmetic_package(e: &mut rhai::Engine) {
    rhai::packages::ArithmeticPackage::new().register_into_engine(e);
}

/// Relies on `rhai::packages::BasicArrayPackage`'s `register_into_engine`.
#[verifier::external_body]
pub(crate) fn register_basic_array_package(e: &mut rhai::Engine) {
    rhai::packages::BasicArrayPackage::new().register_into_engine(e);
}

/// Relies on `rhai::packages::BasicBlobPackage`'s `register_into_engine`.
#[verifier::external_body]
pub(crate) fn register_basic_blob_package(e: &mut rhai::Engine) {
    rhai::packages::BasicBlobPackage::new().register_into_engine(e);
}

/// Relies on `rhai::packages::BasicFnPackage`'s `register_into_engine`.
#[verifier::external_body]
pub(crate) fn register_basic_fn_package(e: &mut rhai::Engine) {
    rhai::packages::BasicFnPackage::new().register_into_engine(e);
}

/// Relies on `rhai::packages::BasicIteratorPackage`'s `register_into_engine`.
#[verifier::external_body]
pub(crate) fn register_basic_iterator_package(e: &mut rhai::Engine) {
    rhai::packages::BasicIteratorPackage::new().register_into_engine(e);
}

/// Relies on `rhai::packages::BasicMapPackage`'s `register_into_engine`.
#[verifier::external_body]
pub(crate) fn register_basic_map_package(e: &mut rhai::Engine) {
    rhai::packages::BasicMapPackage::new().register_into_engine(e);
}

/// Relies on `rhai::packages::BasicMathPackage`'s `register_into_engine`.
#[verifier::external_body]
pub(crate) fn register_basic_math_package(e: &mut rhai::Engine) {
    rhai::packages::BasicMathPackage::new().register_into_engine(e);
}

/// Relies on `rhai::packages::BasicStringPackage`'s `register_into_engine`.
#[verifier::external_body]
pub(crate) fn register_basic_string_package(e: &mut rhai::Engine) {
    rhai::packages::BasicStringPackage::new().register_into_engine(e);
}

/// Relies on `rhai::packages::BasicTimePackage`'s `register_into_engine`.
#[verifier::external_body]
pub(crate) fn register_basic_time_package(e: &mut rhai::Engine) {
    rhai::packages::BasicTimePackage::new().register_into_engine(e);
}

/// Relies on `rhai::packages::BitFieldPackage`'s `register_into_engine`.
#[verifier::external_body]
pub(crate) fn register_bit_field_package(e: &mut rhai::Engine) {
    rhai::packages::BitFieldPackage::new().register_into_engine(e);
}

/// Relies on `rhai::packages::CorePackage`'s `register_into_engine`.
#[verifier::external_body]
pub(crate) fn register_core_package(e: &mut rhai::Engine) {
    rhai::packages::CorePackage::new().register_into_engine(e);
}

/// Relies on `rhai::packages::LanguageCorePackage`'s `register_into_engine`.
#[verifier::external_body]
pub(crate) fn register_language_core_package(e: &mut rhai::Engine) {
    rhai::packages::LanguageCorePackage::new().register_into_engine(e);
}

/// Relies on `rhai::packages::LogicPackage`'s `register_into_engine`.
#[verifier::external_body]
pub(crate) fn register_logic_package(e: &mut rhai::Engine) {
    rhai::packages::LogicPackage::new().register_into_engine(e);
}

/// Relies on `rhai::packages::MoreStringPackage`'s `register_into_engine`.
#[verifier::external_body]
pub(crate) fn register_more_string_package(e: &mut rhai::Engine) {
    rhai::packages::MoreStringPackage::new().register_into_engine(e);
}

/// Relies on `rhai::packages::StandardPackage`'s `register_into_engine`.
#[verifier::external_body]
pub(crate) fn register_standard_package(e: &mut rhai::Engine) {
    rhai::packages::StandardPackage::new().register_into_engine(e);
}

// --- compiling ------------------------------------------------------------

/// Relies on `rhai::Engine::compile_with_scope`: compiles the script
/// against the scope (for constant resolution), or reports the parse
/// failure's rendered message.
#[verifier::external_body]
pub(crate) fn engine_compile_with_scope_raw(e: &rhai::Engine, s: &EngineScope, script: &str) -> (r: Result<
    rhai::AST,
    String,
>) {
    match e.compile_with_scope(&s.inner, script) {
        Ok(ast) => Ok(ast),
        Err(err) => Err(err.to_string()),
    }
}

/// Relies on `rhai::Engine::compile_expression_with_scope`: as
/// `compile_with_scope`, for a single expression.
#[verifier::external_body]
pub(crate) fn engine_compile_expression_with_scope_raw(
    e: &rhai::Engine,
    s: &EngineScope,
    expression: &str,
) -> (r: Result<rhai::AST, String>) {
    match e.compile_expression_with_scope(&s.inner, expression) {
        Ok(ast) => Ok(ast),
        Err(err) => Err(err.to_string()),
    }
}

/// Relies on `rhai::Engine::compile_into_self_contained`: compiles and
/// embeds every imported module; failures come back as the engine's
/// evaluation error.
#[verifier::external_body]
pub(crate) fn engine_compile_self_contained_raw(e: &rhai::Engine, s: &EngineScope, script: &str) -> (r:
    Result<rhai::AST, Box<rhai::EvalAltResult>>) {
    e.compile_into_self_contained(&s.inner, script)
}

/// Relies on `rhai::Engine::compile_scripts_with_scope`: compiles the
/// scripts as one unit.
#[verifier::external_body]
pub(crate) fn engine_compile_scripts_with_scope_raw(
    e: &rhai::Engine,
    s: &EngineScope,
    scripts: Vec<String>,
) -> (r: Result<rhai::AST, String>) {
    match e.compile_scripts_with_scope(&s.inner, scripts) {
        Ok(ast) => Ok(ast),
        Err(err) => Err(err.to_string()),
    }
}

/// Relies on `rhai::Engine::compact_script`: the script's text with
/// insignificant whitespace removed, or the parse failure's message.
#[verifier::external_body]
pub(crate) fn engine_compact_script_raw(e: &rhai::Engine, script: &str) -> (r: Result<String, String>) {
    match e.compact_script(script) {
        Ok(text) => Ok(text),
        Err(err) => Err(err.to_string()),
    }
}

/// Relies on `rhai::Engine::optimize_ast`: re-optimizes a compiled
/// program against a scope at the given level (encoded as in
/// `engine_set_optimization_level_raw`).
#[verifier::external_body]
pub(crate) fn engine_optimize_ast_raw(
    e: &rhai::Engine,
    s: &EngineScope,
    ast: &rhai::AST,
    level: u8,
) -> (r: rhai::AST) {
    let lv = match level {
        0 => rhai::OptimizationLevel::None,
        1 => rhai::OptimizationLevel::Simple,
        _ => rhai::OptimizationLevel::Full,
    };
    e.optimize_ast(&s.inner, ast.clone(), lv)
}

// --- evaluating -------------------------------------------------------

/// Relies on `rhai::Engine::eval_with_scope`: parses and evaluates the
/// script against the scope, which the script may mutate.
#[verifier::external_body]
pub(crate) fn engine_eval_with_scope_raw(e: &rhai::Engine, s: &mut EngineScope, script: &str) -> (r:
    Result<rhai::Dynamic, Box<rhai::EvalAltResult>>) {
    e.eval_with_scope::<rhai::Dynamic>(&mut s.inner, script)
}

/// Relies on `rhai::Engine::eval_ast_with_scope`: evaluates a compiled
/// program against the scope, never re-parsing.
#[verifier::external_body]
pub(crate) fn engine_eval_ast_with_scope_raw(e: &rhai::Engine, s: &mut EngineScope, ast: &rhai::AST) -> (r:
    Result<rhai::Dynamic, Box<rhai::EvalAltResult>>) {
    e.eval_ast_with_scope::<rhai::Dynamic>(&mut s.inner, ast)
}

/// Relies on `rhai::Engine::eval_expression_with_scope`: evaluates a
/// single expression against the scope.
#[verifier::external_body]
pub(crate) fn engine_eval_expression_with_scope_raw(
    e: &rhai::Engine,
    s: &mut EngineScope,
    expression: &str,
) -> (r: Result<rhai::Dynamic, Box<rhai::EvalAltResult>>) {
    e.eval_expression_with_scope::<rhai::Dynamic>(&mut s.inner, expression)
}

/// Relies on `rhai::Engine::run_with_scope`: as `eval_with_scope`,
/// discarding the result value.
#[verifier::external_body]
pub(crate) fn engine_run_with_scope_raw(e: &rhai::Engine, s: &mut EngineScope, script: &str) -> (r: Result<
    (),
    Box<rhai::EvalAltResult>,
>) {
    e.run_with_scope(&mut s.inner, script)
}

/// Relies on `rhai::Engine::run_ast_with_scope`: as
/// `eval_ast_with_scope`, discarding the result value.
#[verifier::external_body]
pub(crate) fn engine_run_ast_with_scope_raw(e: &rhai::Engine, s: &mut EngineScope, ast: &rhai::AST) -> (r:
    Result<(), Box<rhai::EvalAltResult>>) {
    e.run_ast_with_scope(&mut s.inner, ast)
}

/// Relies on `rhai::Engine::call_fn`: invokes a named function defined
/// in the compiled program, with the given positional arguments.
#[verifier::external_body]
pub(crate) fn engine_call_fn_raw(
    e: &rhai::Engine,
    s: &mut EngineScope,
    ast: &rhai::AST,
    name: &str,
    args: Vec<rhai::Dynamic>,
) -> (r: Result<rhai::Dynamic, Box<rhai::EvalAltResult>>) {
    e.call_fn::<rhai::Dynamic>(&mut s.inner, ast, name, args)
}

// --- compiled programs ------------------------------------------------

/// Relies on `rhai::AST::empty`.
#[verifier::external_body]
pub(crate) fn ast_empty_raw() -> (r: rhai::AST) {
    rhai::AST::empty()
}

/// Relies on `rhai::AST::clone`.
#[verifier::external_body]
pub(crate) fn ast_clone_raw(ast: &rhai::AST) -> (r: rhai::AST) {
    ast.clone()
}

/// Relies on `rhai::AST::set_source`.
#[verifier::external_body]
pub(crate) fn ast_set_source_raw(ast: &mut rhai::AST, source: &str) {
    ast.set_source(source);
}

/// Relies on `rhai::AST::clear_source`.
#[verifier::external_body]
pub(crate) fn ast_clear_source_raw(ast: &mut rhai::AST) {
    ast.clear_source();
}

/// Relies on `rhai::AST::source`.
#[verifier::external_body]
pub(crate) fn ast_source_raw(ast: &rhai::AST) -> (r: Option<String>) {
    ast.source().map(|s| s.to_string())
}

/// Relies on `rhai::AST::merge`: a new program holding both sides'
/// statements and functions; neither input is mutated.
#[verifier::external_body]
pub(crate) fn ast_merge_raw(ast: &rhai::AST, other: &rhai::AST) -> (r: rhai::AST) {
    ast.merge(other)
}

/// Relies on `rhai::AST::combine`: consumes the second program and
/// appends its statements and functions to the first.
#[verifier::external_body]
pub(crate) fn ast_combine_raw(ast: &mut rhai::AST, other: rhai::AST) {
    ast.combine(other);
}

/// Relies on `rhai::AST::clear_functions`.
#[verifier::external_body]
pub(crate) fn ast_clear_functions_raw(ast: &mut rhai::AST) {
    ast.clear_functions();
}

/// Relies on `rhai::AST::clear_statements`.
#[verifier::external_body]
pub(crate) fn ast_clear_statements_raw(ast: &mut rhai::AST) {
    ast.clear_statements();
}

/// Relies on `rhai::AST::clone_functions_only`.
#[verifier::external_body]
pub(crate) fn ast_clone_functions_only_raw(ast: &rhai::AST) -> (r: rhai::AST) {
    ast.clone_functions_only()
}

/// Relies on `rhai::AST::has_functions`.
#[verifier::external_body]
pub(crate) fn ast_has_functions_raw(ast: &rhai::AST) -> (r: bool) {
    ast.has_functions()
}

// --- evaluation errors ------------------------------------------------

/// Relies on `rhai::EvalAltResult`'s `Display`: the engine's rendered
/// description of the failure.
#[verifier::external_body]
pub(crate) fn eval_error_text(e: &rhai::EvalAltResult) -> (r: String) {
    e.to_string()
}

/// Relies on `rhai::EvalAltResult::unwrap_inner`: the innermost
/// failure, unwrapping nested in-function-call errors.
#[verifier::external_body]
pub(crate) fn eval_error_inner(e: &rhai::EvalAltResult) -> (r: &rhai::EvalAltResult) {
    e.unwrap_inner()
}

/// Relies on matching `rhai::EvalAltResult`'s variants, one arm each:
/// the system, parse and name-lookup failures.
#[verifier::external_body]
pub(crate) fn fault_of_lookup(e: &rhai::EvalAltResult) -> (r: Option<EvalFault>) {
    match e {
        rhai::EvalAltResult::ErrorSystem(..) => Some(EvalFault::System),
        rhai::EvalAltResult::ErrorParsing(..) => Some(EvalFault::Parsing),
        rhai::EvalAltResult::ErrorVariableExists(..) => Some(EvalFault::VariableExists),
        rhai::EvalAltResult::ErrorForbiddenVariable(..) => Some(EvalFault::ForbiddenVariable),
        rhai::EvalAltResult::ErrorVariableNotFound(..) => Some(EvalFault::VariableNotFound),
        rhai::EvalAltResult::ErrorPropertyNotFound(..) => Some(EvalFault::PropertyNotFound),
        rhai::EvalAltResult::ErrorIndexNotFound(..) => Some(EvalFault::IndexNotFound),
        rhai::EvalAltResult::ErrorFunctionNotFound(..) => Some(EvalFault::FunctionNotFound),
        rhai::EvalAltResult::ErrorModuleNotFound(..) => Some(EvalFault::ModuleNotFound),
        _ => None,
    }
}

/// Relies on matching `rhai::EvalAltResult`'s variants, one arm each:
/// the nesting and type-mismatch failures.
#[verifier::external_body]
pub(crate) fn fault_of_typing(e: &rhai::EvalAltResult) -> (r: Option<EvalFault>) {
    match e {
        rhai::EvalAltResult::ErrorInFunctionCall(..) => Some(EvalFault::InFunctionCall),
        rhai::EvalAltResult::ErrorInModule(..) => Some(EvalFault::InModule),
        rhai::EvalAltResult::ErrorUnboundThis(..) => Some(EvalFault::UnboundThis),
        rhai::EvalAltResult::ErrorMismatchDataType(..) => Some(EvalFault::MismatchDataType),
        rhai::EvalAltResult::ErrorMismatchOutputType(..) => Some(EvalFault::MismatchOutputType),
        rhai::EvalAltResult::ErrorIndexingType(..) => Some(EvalFault::IndexingType),
        rhai::EvalAltResult::ErrorArrayBounds(..) => Some(EvalFault::ArrayBounds),
        rhai::EvalAltResult::ErrorStringBounds(..) => Some(EvalFault::StringBounds),
        rhai::EvalAltResult::ErrorBitFieldBounds(..) => Some(EvalFault::BitFieldBounds),
        _ => None,
    }
}

/// Relies on matching `rhai::EvalAltResult`'s variants, one arm each:
/// the runtime limit and semantic failures.
#[verifier::external_body]
pub(crate) fn fault_of_running(e: &rhai::EvalAltResult) -> (r: Option<EvalFault>) {
    match e {
        rhai::EvalAltResult::ErrorFor(..) => Some(EvalFault::For),
        rhai::EvalAltResult::ErrorDataRace(..) => Some(EvalFault::DataRace),
        rhai::EvalAltResult::ErrorAssignmentToConstant(..) => Some(EvalFault::AssignmentToConstant),
        rhai::EvalAltResult::ErrorDotExpr(..) => Some(EvalFault::DotExpr),
        rhai::EvalAltResult::ErrorArithmetic(..) => Some(EvalFault::Arithmetic),
        rhai::EvalAltResult::ErrorTooManyOperations(..) => Some(EvalFault::TooManyOperations),
        rhai::EvalAltResult::ErrorTooManyModules(..) => Some(EvalFault::TooManyModules),
        rhai::EvalAltResult::ErrorStackOverflow(..) => Some(EvalFault::StackOverflow),
        rhai::EvalAltResult::ErrorDataTooLarge(..) => Some(EvalFault::DataTooLarge),
        _ => None,
    }
}

/// Relies on matching `rhai::EvalAltResult`'s variants, one arm each:
/// the termination and custom-evaluation failures.
#[verifier::external_body]
pub(crate) fn fault_of_custom(e: &rhai::EvalAltResult) -> (r: Option<EvalFault>) {
    match e {
        rhai::EvalAltResult::ErrorTerminated(..) => Some(EvalFault::Terminated),
        rhai::EvalAltResult::ErrorCustomSyntax(..) => Some(EvalFault::CustomSyntax),
        rhai::EvalAltResult::ErrorRuntime(..) => Some(EvalFault::Runtime),
        rhai::EvalAltResult::ErrorNonPureMethodCallOnConstant(..) => Some(
            EvalFault::NonPureMethodCallOnConstant,
        ),
        _ => None,
    }
}

} // verus!
