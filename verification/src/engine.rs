//! The engine handle and its operations: construction, configuration,
//! compiling, evaluating and function calls, every access through the
//! handle's non-blocking lock.
//!
//! The embedded engine itself is a black box ("given a program and a
//! scope, evaluate to a value or fail"); what is verified here is the
//! plumbing around it: lock discipline, value conversion through the
//! bridge, and the folding of every engine failure into the library's
//! closed error taxonomy.

use vstd::prelude::*;

use crate::ast::{ASTResource, ast_acquire, ast_release, ast_resource_from};
use crate::bridge::{from_dynamic, to_dynamic, tuple_free};
use crate::bridge::lemma_from_dyn_tuple_free;
use crate::cell::{LockCell, cell_new, cell_put, cell_share, cell_try_take};
use crate::convert::{VALUE_DEPTH_LIMIT, from_engine, materialize_scope, read_back_scope, to_engine};
use crate::error::{EvalFault, EvaluationError, RhaiRustlerError};
use crate::raw;
use crate::scope::{ScopeResource, scope_acquire, scope_release};
use crate::value::HostValue;

verus! {

/// A shareable, lock-protected engine: one mutable configuration and
/// registration state behind a non-blocking mutual-exclusion lock.
pub struct EngineResource {
    cell: LockCell<rhai::Engine>,
}

/// The module resolvers an engine can be given.
#[derive(Debug, Clone, Copy, PartialEq, Eq, Structural)]
pub enum ModuleResolver {
    File,
    Dylib,
}

/// The engine's optimization levels.
#[derive(Debug, Clone, Copy, PartialEq, Eq, Structural)]
pub enum OptimizationLevel {
    Off,
    Simple,
    Full,
}

/// The packages of built-in functionality an engine can register.
#[derive(Debug, Clone, Copy, PartialEq, Eq, Structural)]
pub enum Package {
    Arithmetic,
    BasicArray,
    BasicBlob,
    BasicFn,
    BasicIterator,
    BasicMap,
    BasicMath,
    BasicString,
    BasicTime,
    BitField,
    Core,
    LanguageCore,
    Logic,
    MoreString,
    Standard,
}

/// Set the process-wide hashing seed for the engine's internal hash
/// tables; must happen before the first handle is created. Reports
/// whether this call set it — a second attempt is a non-fatal `false`.
pub fn init_hashing_seed(a: u64, b: u64, c: u64, d: u64) -> (r: bool) {
    raw::set_hash_seed(a, b, c, d)
}

/// Fold an engine evaluation failure into the taxonomy: the fault of
/// the innermost failure, the rendered message of the whole.
pub fn eval_error_to_error(e: Box<rhai::EvalAltResult>) -> (r: RhaiRustlerError)
    ensures
        r is EvaluationError,
{
    let inner = raw::eval_error_inner(&*e);
    let fault = if let Some(f) = raw::fault_of_lookup(inner) {
        f
    } else if let Some(f) = raw::fault_of_typing(inner) {
        f
    } else if let Some(f) = raw::fault_of_running(inner) {
        f
    } else if let Some(f) = raw::fault_of_custom(inner) {
        f
    } else {
        EvalFault::Unrecognized
    };
    let message = raw::eval_error_text(&*e);
    RhaiRustlerError::EvaluationError(EvaluationError { fault, message })
}

/// Convert what an evaluation produced: the engine value through the
/// bridge on success, the failure through the taxonomy.
fn eval_outcome(result: Result<rhai::Dynamic, Box<rhai::EvalAltResult>>) -> (r: Result<
    HostValue,
    RhaiRustlerError,
>)
    ensures
        result is Ok <==> r is Ok,
        r matches Ok(v) ==> tuple_free(v@),
        r matches Err(e) ==> e is EvaluationError,
{
    match result {
        Ok(d) => {
            let dv = from_engine(d, VALUE_DEPTH_LIMIT);
            let h = from_dynamic(&dv);
            proof {
                lemma_from_dyn_tuple_free(dv@);
            }
            Ok(h)
        },
        Err(e) => Err(eval_error_to_error(e)),
    }
}

/// Convert what a run produced: nothing on success, the failure
/// through the taxonomy.
fn run_outcome(result: Result<(), Box<rhai::EvalAltResult>>) -> (r: Result<(), RhaiRustlerError>)
    ensures
        r matches Err(e) ==> e is EvaluationError,
        result is Ok <==> r is Ok,
{
    match result {
        Ok(_) => Ok(()),
        Err(e) => Err(eval_error_to_error(e)),
    }
}

/// A handle on a fresh engine with the standard built-ins registered.
pub fn engine_new() -> (r: EngineResource) {
    EngineResource { cell: cell_new(raw::engine_make()) }
}

/// A handle on a bare engine with nothing registered.
pub fn engine_new_raw() -> (r: EngineResource) {
    EngineResource { cell: cell_new(raw::engine_make_raw()) }
}

/// Another reference to the same engine handle.
pub fn engine_share(h: &EngineResource) -> (r: EngineResource) {
    EngineResource { cell: cell_share(&h.cell) }
}

/// Take the engine out of the handle; fails with `Contention` when
/// another caller holds it.
pub fn engine_acquire(h: &EngineResource) -> (r: Result<rhai::Engine, RhaiRustlerError>)
    ensures
        r matches Err(e) ==> e == RhaiRustlerError::Contention,
{
    match cell_try_take(&h.cell) {
        Some(engine) => Ok(engine),
        None => Err(RhaiRustlerError::Contention),
    }
}

/// Put an engine back into the handle, releasing it.
pub fn engine_release(h: &EngineResource, engine: rhai::Engine) {
    cell_put(&h.cell, engine);
}

/// Parse and evaluate source text in one call against a fresh, empty
/// scope; the result comes back as a host value.
pub fn engine_eval(h: &EngineResource, script: &str) -> (r: Result<HostValue, RhaiRustlerError>)
    ensures
        r matches Ok(v) ==> tuple_free(v@),
        r matches Err(e) ==> e == RhaiRustlerError::Contention || e is EvaluationError,
{
    match cell_try_take(&h.cell) {
        None => Err(RhaiRustlerError::Contention),
        Some(engine) => {
            let mut es = raw::engine_scope_new();
            let result = raw::engine_eval_with_scope_raw(&engine, &mut es, script);
            cell_put(&h.cell, engine);
            eval_outcome(result)
        },
    }
}

/// Parse and evaluate source text against a scope handle's bindings;
/// whatever the script changed or added is read back into the scope.
pub fn engine_eval_with_scope(
    engine_resource: &EngineResource,
    scope_resource: &ScopeResource,
    script: &str,
) -> (r: Result<HostValue, RhaiRustlerError>)
    ensures
        r matches Ok(v) ==> tuple_free(v@),
        r matches Err(e) ==> e == RhaiRustlerError::Contention || e is EvaluationError,
{
    match cell_try_take(&engine_resource.cell) {
        None => Err(RhaiRustlerError::Contention),
        Some(engine) => {
            match scope_acquire(scope_resource) {
                Err(e) => {
                    cell_put(&engine_resource.cell, engine);
                    Err(e)
                },
                Ok(scope) => {
                    let mut es = materialize_scope(&scope);
                    let result = raw::engine_eval_with_scope_raw(&engine, &mut es, script);
                    scope_release(scope_resource, read_back_scope(&es));
                    cell_put(&engine_resource.cell, engine);
                    eval_outcome(result)
                },
            }
        },
    }
}

/// Evaluate a compiled program against a fresh, empty scope, never
/// re-parsing.
pub fn engine_eval_ast(engine_resource: &EngineResource, ast_resource: &ASTResource) -> (r: Result<
    HostValue,
    RhaiRustlerError,
>)
    ensures
        r matches Ok(v) ==> tuple_free(v@),
        r matches Err(e) ==> e == RhaiRustlerError::Contention || e is EvaluationError,
{
    match cell_try_take(&engine_resource.cell) {
        None => Err(RhaiRustlerError::Contention),
        Some(engine) => {
            match ast_acquire(ast_resource) {
                Err(e) => {
                    cell_put(&engine_resource.cell, engine);
                    Err(e)
                },
                Ok(ast) => {
                    let mut es = raw::engine_scope_new();
                    let result = raw::engine_eval_ast_with_scope_raw(&engine, &mut es, &ast);
                    ast_release(ast_resource, ast);
                    cell_put(&engine_resource.cell, engine);
                    eval_outcome(result)
                },
            }
        },
    }
}

/// Evaluate a compiled program against a scope handle's bindings.
pub fn engine_eval_ast_with_scope(
    engine_resource: &EngineResource,
    scope_resource: &ScopeResource,
    ast_resource: &ASTResource,
) -> (r: Result<HostValue, RhaiRustlerError>)
    ensures
        r matches Ok(v) ==> tuple_free(v@),
        r matches Err(e) ==> e == RhaiRustlerError::Contention || e is EvaluationError,
{
    match cell_try_take(&engine_resource.cell) {
        None => Err(RhaiRustlerError::Contention),
        Some(engine) => {
            match scope_acquire(scope_resource) {
                Err(e) => {
                    cell_put(&engine_resource.cell, engine);
                    Err(e)
                },
                Ok(scope) => {
                    match ast_acquire(ast_resource) {
                        Err(e) => {
                            scope_release(scope_resource, scope);
                            cell_put(&engine_resource.cell, engine);
                            Err(e)
                        },
                        Ok(ast) => {
                            let mut es = materialize_scope(&scope);
                            let result = raw::engine_eval_ast_with_scope_raw(
                                &engine,
                                &mut es,
                                &ast,
                            );
                            ast_release(ast_resource, ast);
                            scope_release(scope_resource, read_back_scope(&es));
                            cell_put(&engine_resource.cell, engine);
                            eval_outcome(result)
                        },
                    }
                },
            }
        },
    }
}

/// Evaluate a single expression against a fresh, empty scope.
pub fn engine_eval_expression(h: &EngineResource, expression: &str) -> (r: Result<
    HostValue,
    RhaiRustlerError,
>)
    ensures
        r matches Ok(v) ==> tuple_free(v@),
        r matches Err(e) ==> e == RhaiRustlerError::Contention || e is EvaluationError,
{
    match cell_try_take(&h.cell) {
        None => Err(RhaiRustlerError::Contention),
        Some(engine) => {
            let mut es = raw::engine_scope_new();
            let result = raw::engine_eval_expression_with_scope_raw(&engine, &mut es, expression);
            cell_put(&h.cell, engine);
            eval_outcome(result)
        },
    }
}

/// Evaluate a single expression against a scope handle's bindings.
pub fn engine_eval_expression_with_scope(
    engine_resource: &EngineResource,
    scope_resource: &ScopeResource,
    expression: &str,
) -> (r: Result<HostValue, RhaiRustlerError>)
    ensures
        r matches Ok(v) ==> tuple_free(v@),
        r matches Err(e) ==> e == RhaiRustlerError::Contention || e is EvaluationError,
{
    match cell_try_take(&engine_resource.cell) {
        None => Err(RhaiRustlerError::Contention),
        Some(engine) => {
            match scope_acquire(scope_resource) {
                Err(e) => {
                    cell_put(&engine_resource.cell, engine);
                    Err(e)
                },
                Ok(scope) => {
                    let mut es = materialize_scope(&scope);
                    let result = raw::engine_eval_expression_with_scope_raw(
                        &engine,
                        &mut es,
                        expression,
                    );
                    scope_release(scope_resource, read_back_scope(&es));
                    cell_put(&engine_resource.cell, engine);
                    eval_outcome(result)
                },
            }
        },
    }
}

/// Parse and run source text for its effects, discarding the result.
pub fn engine_run(h: &EngineResource, script: &str) -> (r: Result<(), RhaiRustlerError>)
    ensures
        r matches Err(e) ==> e == RhaiRustlerError::Contention || e is EvaluationError,
{
    match cell_try_take(&h.cell) {
        None => Err(RhaiRustlerError::Contention),
        Some(engine) => {
            let mut es = raw::engine_scope_new();
            let result = raw::engine_run_with_scope_raw(&engine, &mut es, script);
            cell_put(&h.cell, engine);
            run_outcome(result)
        },
    }
}

/// Parse and run source text against a scope handle's bindings.
pub fn engine_run_with_scope(
    engine_resource: &EngineResource,
    scope_resource: &ScopeResource,
    script: &str,
) -> (r: Result<(), RhaiRustlerError>)
    ensures
        r matches Err(e) ==> e == RhaiRustlerError::Contention || e is EvaluationError,
{
    match cell_try_take(&engine_resource.cell) {
        None => Err(RhaiRustlerError::Contention),
        Some(engine) => {
            match scope_acquire(scope_resource) {
                Err(e) => {
                    cell_put(&engine_resource.cell, engine);
                    Err(e)
                },
                Ok(scope) => {
                    let mut es = materialize_scope(&scope);
                    let result = raw::engine_run_with_scope_raw(&engine, &mut es, script);
                    scope_release(scope_resource, read_back_scope(&es));
                    cell_put(&engine_resource.cell, engine);
                    run_outcome(result)
                },
            }
        },
    }
}

/// Run a compiled program for its effects.
pub fn engine_run_ast(engine_resource: &EngineResource, ast_resource: &ASTResource) -> (r: Result<
    (),
    RhaiRustlerError,
>)
    ensures
        r matches Err(e) ==> e == RhaiRustlerError::Contention || e is EvaluationError,
{
    match cell_try_take(&engine_resource.cell) {
        None => Err(RhaiRustlerError::Contention),
        Some(engine) => {
            match ast_acquire(ast_resource) {
                Err(e) => {
                    cell_put(&engine_resource.cell, engine);
                    Err(e)
                },
                Ok(ast) => {
                    let mut es = raw::engine_scope_new();
                    let result = raw::engine_run_ast_with_scope_raw(&engine, &mut es, &ast);
                    ast_release(ast_resource, ast);
                    cell_put(&engine_resource.cell, engine);
                    run_outcome(result)
                },
            }
        },
    }
}

/// Run a compiled program against a scope handle's bindings.
pub fn engine_run_ast_with_scope(
    engine_resource: &EngineResource,
    scope_resource: &ScopeResource,
    ast_resource: &ASTResource,
) -> (r: Result<(), RhaiRustlerError>)
    ensures
        r matches Err(e) ==> e == RhaiRustlerError::Contention || e is EvaluationError,
{
    match cell_try_take(&engine_resource.cell) {
        None => Err(RhaiRustlerError::Contention),
        Some(engine) => {
            match scope_acquire(scope_resource) {
                Err(e) => {
                    cell_put(&engine_resource.cell, engine);
                    Err(e)
                },
                Ok(scope) => {
                    match ast_acquire(ast_resource) {
                        Err(e) => {
                            scope_release(scope_resource, scope);
                            cell_put(&engine_resource.cell, engine);
                            Err(e)
                        },
                        Ok(ast) => {
                            let mut es = materialize_scope(&scope);
                            let result = raw::engine_run_ast_with_scope_raw(&engine, &mut es, &ast);
                            ast_release(ast_resource, ast);
                            scope_release(scope_resource, read_back_scope(&es));
                            cell_put(&engine_resource.cell, engine);
                            run_outcome(result)
                        },
                    }
                },
            }
        },
    }
}

/// Invoke a named function defined in a compiled program, positional
/// arguments converted through the bridge, against a scope handle's
/// bindings.
pub fn engine_call_fn(
    engine_resource: &EngineResource,
    scope_resource: &ScopeResource,
    ast_resource: &ASTResource,
    name: &str,
    args: &Vec<HostValue>,
) -> (r: Result<HostValue, RhaiRustlerError>)
    ensures
        r matches Ok(v) ==> tuple_free(v@),
        r matches Err(e) ==> e == RhaiRustlerError::Contention || e is EvaluationError,
{
    match cell_try_take(&engine_resource.cell) {
        None => Err(RhaiRustlerError::Contention),
        Some(engine) => {
            match scope_acquire(scope_resource) {
                Err(e) => {
                    cell_put(&engine_resource.cell, engine);
                    Err(e)
                },
                Ok(scope) => {
                    match ast_acquire(ast_resource) {
                        Err(e) => {
                            scope_release(scope_resource, scope);
                            cell_put(&engine_resource.cell, engine);
                            Err(e)
                        },
                        Ok(ast) => {
                            let mut engine_args: Vec<rhai::Dynamic> = Vec::new();
                            let mut i: usize = 0;
                            while i < args.len()
                                decreases args@.len() - i as int,
                            {
                                let d = to_engine(&to_dynamic(&args[i]));
                                engine_args.push(d);
                                i += 1;
                            }
                            let mut es = materialize_scope(&scope);
                            let result = raw::engine_call_fn_raw(
                                &engine,
                                &mut es,
                                &ast,
                                name,
                                engine_args,
                            );
                            ast_release(ast_resource, ast);
                            scope_release(scope_resource, read_back_scope(&es));
                            cell_put(&engine_resource.cell, engine);
                            eval_outcome(result)
                        },
                    }
                },
            }
        },
    }
}

/// Compile source text into a fresh program handle; syntactically
/// invalid text reports a parse error and installs nothing.
pub fn engine_compile(h: &EngineResource, script: &str) -> (r: Result<
    ASTResource,
    RhaiRustlerError,
>)
    ensures
        r matches Err(e) ==> e == RhaiRustlerError::Contention || e is ParseError,
{
    match cell_try_take(&h.cell) {
        None => Err(RhaiRustlerError::Contention),
        Some(engine) => {
            let es = raw::engine_scope_new();
            let result = raw::engine_compile_with_scope_raw(&engine, &es, script);
            cell_put(&h.cell, engine);
            match result {
                Ok(ast) => Ok(ast_resource_from(ast)),
                Err(message) => Err(RhaiRustlerError::ParseError(message)),
            }
        },
    }
}

/// Compile source text against a scope handle's bindings, resolving
/// constants at compile time.
pub fn engine_compile_with_scope(
    engine_resource: &EngineResource,
    scope_resource: &ScopeResource,
    script: &str,
) -> (r: Result<ASTResource, RhaiRustlerError>)
    ensures
        r matches Err(e) ==> e == RhaiRustlerError::Contention || e is ParseError,
{
    match cell_try_take(&engine_resource.cell) {
        None => Err(RhaiRustlerError::Contention),
        Some(engine) => {
            match scope_acquire(scope_resource) {
                Err(e) => {
                    cell_put(&engine_resource.cell, engine);
                    Err(e)
                },
                Ok(scope) => {
                    let es = materialize_scope(&scope);
                    let result = raw::engine_compile_with_scope_raw(&engine, &es, script);
                    scope_release(scope_resource, scope);
                    cell_put(&engine_resource.cell, engine);
                    match result {
                        Ok(ast) => Ok(ast_resource_from(ast)),
                        Err(message) => Err(RhaiRustlerError::ParseError(message)),
                    }
                },
            }
        },
    }
}

/// Compile a single expression into a fresh program handle.
pub fn engine_compile_expression(h: &EngineResource, expression: &str) -> (r: Result<
    ASTResource,
    RhaiRustlerError,
>)
    ensures
        r matches Err(e) ==> e == RhaiRustlerError::Contention || e is ParseError,
{
    match cell_try_take(&h.cell) {
        None => Err(RhaiRustlerError::Contention),
        Some(engine) => {
            let es = raw::engine_scope_new();
            let result = raw::engine_compile_expression_with_scope_raw(&engine, &es, expression);
            cell_put(&h.cell, engine);
            match result {
                Ok(ast) => Ok(ast_resource_from(ast)),
                Err(message) => Err(RhaiRustlerError::ParseError(message)),
            }
        },
    }
}

/// Compile a single expression against a scope handle's bindings.
pub fn engine_compile_expression_with_scope(
    engine_resource: &EngineResource,
    scope_resource: &ScopeResource,
    expression: &str,
) -> (r: Result<ASTResource, RhaiRustlerError>)
    ensures
        r matches Err(e) ==> e == RhaiRustlerError::Contention || e is ParseError,
{
    match cell_try_take(&engine_resource.cell) {
        None => Err(RhaiRustlerError::Contention),
        Some(engine) => {
            match scope_acquire(scope_resource) {
                Err(e) => {
                    cell_put(&engine_resource.cell, engine);
                    Err(e)
                },
                Ok(scope) => {
                    let es = materialize_scope(&scope);
                    let result = raw::engine_compile_expression_with_scope_raw(
                        &engine,
                        &es,
                        expression,
                    );
                    scope_release(scope_resource, scope);
                    cell_put(&engine_resource.cell, engine);
                    match result {
                        Ok(ast) => Ok(ast_resource_from(ast)),
                        Err(message) => Err(RhaiRustlerError::ParseError(message)),
                    }
                },
            }
        },
    }
}

/// Compile source text and embed every module it imports, so the
/// program evaluates without a module resolver later.
pub fn engine_compile_into_self_contained(
    engine_resource: &EngineResource,
    scope_resource: &ScopeResource,
    script: &str,
) -> (r: Result<ASTResource, RhaiRustlerError>)
    ensures
        r matches Err(e) ==> e == RhaiRustlerError::Contention || e is EvaluationError,
{
    match cell_try_take(&engine_resource.cell) {
        None => Err(RhaiRustlerError::Contention),
        Some(engine) => {
            match scope_acquire(scope_resource) {
                Err(e) => {
                    cell_put(&engine_resource.cell, engine);
                    Err(e)
                },
                Ok(scope) => {
                    let es = materialize_scope(&scope);
                    let result = raw::engine_compile_self_contained_raw(&engine, &es, script);
                    scope_release(scope_resource, scope);
                    cell_put(&engine_resource.cell, engine);
                    match result {
                        Ok(ast) => Ok(ast_resource_from(ast)),
                        Err(e) => Err(eval_error_to_error(e)),
                    }
                },
            }
        },
    }
}

/// Compile several scripts as one unit against a scope handle's
/// bindings.
pub fn engine_compile_scripts_with_scope(
    engine_resource: &EngineResource,
    scope_resource: &ScopeResource,
    scripts: Vec<String>,
) -> (r: Result<ASTResource, RhaiRustlerError>)
    ensures
        r matches Err(e) ==> e == RhaiRustlerError::Contention || e is ParseError,
{
    match cell_try_take(&engine_resource.cell) {
        None => Err(RhaiRustlerError::Contention),
        Some(engine) => {
            match scope_acquire(scope_resource) {
                Err(e) => {
                    cell_put(&engine_resource.cell, engine);
                    Err(e)
                },
                Ok(scope) => {
                    let es = materialize_scope(&scope);
                    let result = raw::engine_compile_scripts_with_scope_raw(&engine, &es, scripts);
                    scope_release(scope_resource, scope);
                    cell_put(&engine_resource.cell, engine);
                    match result {
                        Ok(ast) => Ok(ast_resource_from(ast)),
                        Err(message) => Err(RhaiRustlerError::ParseError(message)),
                    }
                },
            }
        },
    }
}

/// The script's text with insignificant whitespace removed.
pub fn engine_compact_script(h: &EngineResource, script: &str) -> (r: Result<
    String,
    RhaiRustlerError,
>)
    ensures
        r matches Err(e) ==> e == RhaiRustlerError::Contention || e is ParseError,
{
    match cell_try_take(&h.cell) {
        None => Err(RhaiRustlerError::Contention),
        Some(engine) => {
            let result = raw::engine_compact_script_raw(&engine, script);
            cell_put(&h.cell, engine);
            match result {
                Ok(text) => Ok(text),
                Err(message) => Err(RhaiRustlerError::ParseError(message)),
            }
        },
    }
}

/// Set whether anonymous functions are allowed.
pub fn engine_set_allow_anonymous_fn(h: &EngineResource, value: bool) -> (r: Result<(), RhaiRustlerError>)
    ensures
        r matches Err(e) ==> e == RhaiRustlerError::Contention,
{
    match cell_try_take(&h.cell) {
        None => Err(RhaiRustlerError::Contention),
        Some(mut engine) => {
            raw::engine_set_allow_anonymous_fn_raw(&mut engine, value);
            cell_put(&h.cell, engine);
            Ok(())
        },
    }
}

/// Read whether anonymous functions are allowed.
pub fn engine_allow_anonymous_fn(h: &EngineResource) -> (r: Result<bool, RhaiRustlerError>)
    ensures
        r matches Err(e) ==> e == RhaiRustlerError::Contention,
{
    match cell_try_take(&h.cell) {
        None => Err(RhaiRustlerError::Contention),
        Some(engine) => {
            let value = raw::engine_allow_anonymous_fn_raw(&engine);
            cell_put(&h.cell, engine);
            Ok(value)
        },
    }
}

/// Set whether `if`-expressions are allowed.
pub fn engine_set_allow_if_expression(h: &EngineResource, value: bool) -> (r: Result<(), RhaiRustlerError>)
    ensures
        r matches Err(e) ==> e == RhaiRustlerError::Contention,
{
    match cell_try_take(&h.cell) {
        None => Err(RhaiRustlerError::Contention),
        Some(mut engine) => {
            raw::engine_set_allow_if_expression_raw(&mut engine, value);
            cell_put(&h.cell, engine);
            Ok(())
        },
    }
}

/// Read whether `if`-expressions are allowed.
pub fn engine_allow_if_expression(h: &EngineResource) -> (r: Result<bool, RhaiRustlerError>)
    ensures
        r matches Err(e) ==> e == RhaiRustlerError::Contention,
{
    match cell_try_take(&h.cell) {
        None => Err(RhaiRustlerError::Contention),
        Some(engine) => {
            let value = raw::engine_allow_if_expression_raw(&engine);
            cell_put(&h.cell, engine);
            Ok(value)
        },
    }
}

/// Set whether loop expressions are allowed.
pub fn engine_set_allow_loop_expressions(h: &EngineResource, value: bool) -> (r: Result<(), RhaiRustlerError>)
    ensures
        r matches Err(e) ==> e == RhaiRustlerError::Contention,
{
    match cell_try_take(&h.cell) {
        None => Err(RhaiRustlerError::Contention),
        Some(mut engine) => {
            raw::engine_set_allow_loop_expressions_raw(&mut engine, value);
            cell_put(&h.cell, engine);
            Ok(())
        },
    }
}

/// Read whether loop expressions are allowed.
pub fn engine_allow_loop_expressions(h: &EngineResource) -> (r: Result<bool, RhaiRustlerError>)
    ensures
        r matches Err(e) ==> e == RhaiRustlerError::Contention,
{
    match cell_try_take(&h.cell) {
        None => Err(RhaiRustlerError::Contention),
        Some(engine) => {
            let value = raw::engine_allow_loop_expressions_raw(&engine);
            cell_put(&h.cell, engine);
            Ok(value)
        },
    }
}

/// Set whether looping is allowed at all.
pub fn engine_set_allow_looping(h: &EngineResource, value: bool) -> (r: Result<(), RhaiRustlerError>)
    ensures
        r matches Err(e) ==> e == RhaiRustlerError::Contention,
{
    match cell_try_take(&h.cell) {
        None => Err(RhaiRustlerError::Contention),
        Some(mut engine) => {
            raw::engine_set_allow_looping_raw(&mut engine, value);
            cell_put(&h.cell, engine);
            Ok(())
        },
    }
}

/// Read whether looping is allowed at all.
pub fn engine_allow_looping(h: &EngineResource) -> (r: Result<bool, RhaiRustlerError>)
    ensures
        r matches Err(e) ==> e == RhaiRustlerError::Contention,
{
    match cell_try_take(&h.cell) {
        None => Err(RhaiRustlerError::Contention),
        Some(engine) => {
            let value = raw::engine_allow_looping_raw(&engine);
            cell_put(&h.cell, engine);
            Ok(value)
        },
    }
}

/// Set whether variable shadowing is allowed.
pub fn engine_set_allow_shadowing(h: &EngineResource, value: bool) -> (r: Result<(), RhaiRustlerError>)
    ensures
        r matches Err(e) ==> e == RhaiRustlerError::Contention,
{
    match cell_try_take(&h.cell) {
        None => Err(RhaiRustlerError::Contention),
        Some(mut engine) => {
            raw::engine_set_allow_shadowing_raw(&mut engine, value);
            cell_put(&h.cell, engine);
            Ok(())
        },
    }
}

/// Read whether variable shadowing is allowed.
pub fn engine_allow_shadowing(h: &EngineResource) -> (r: Result<bool, RhaiRustlerError>)
    ensures
        r matches Err(e) ==> e == RhaiRustlerError::Contention,
{
    match cell_try_take(&h.cell) {
        None => Err(RhaiRustlerError::Contention),
        Some(engine) => {
            let value = raw::engine_allow_shadowing_raw(&engine);
            cell_put(&h.cell, engine);
            Ok(value)
        },
    }
}

/// Set whether statement expressions are allowed.
pub fn engine_set_allow_statement_expression(h: &EngineResource, value: bool) -> (r: Result<(), RhaiRustlerError>)
    ensures
        r matches Err(e) ==> e == RhaiRustlerError::Contention,
{
    match cell_try_take(&h.cell) {
        None => Err(RhaiRustlerError::Contention),
        Some(mut engine) => {
            raw::engine_set_allow_statement_expression_raw(&mut engine, value);
            cell_put(&h.cell, engine);
            Ok(())
        },
    }
}

/// Read whether statement expressions are allowed.
pub fn engine_allow_statement_expression(h: &EngineResource) -> (r: Result<bool, RhaiRustlerError>)
    ensures
        r matches Err(e) ==> e == RhaiRustlerError::Contention,
{
    match cell_try_take(&h.cell) {
        None => Err(RhaiRustlerError::Contention),
        Some(engine) => {
            let value = raw::engine_allow_statement_expression_raw(&engine);
            cell_put(&h.cell, engine);
            Ok(value)
        },
    }
}

/// Set whether `switch` expressions are allowed.
pub fn engine_set_allow_switch_expression(h: &EngineResource, value: bool) -> (r: Result<(), RhaiRustlerError>)
    ensures
        r matches Err(e) ==> e == RhaiRustlerError::Contention,
{
    match cell_try_take(&h.cell) {
        None => Err(RhaiRustlerError::Contention),
        Some(mut engine) => {
            raw::engine_set_allow_switch_expression_raw(&mut engine, value);
            cell_put(&h.cell, engine);
            Ok(())
        },
    }
}

/// Read whether `switch` expressions are allowed.
pub fn engine_allow_switch_expression(h: &EngineResource) -> (r: Result<bool, RhaiRustlerError>)
    ensures
        r matches Err(e) ==> e == RhaiRustlerError::Contention,
{
    match cell_try_take(&h.cell) {
        None => Err(RhaiRustlerError::Contention),
        Some(engine) => {
            let value = raw::engine_allow_switch_expression_raw(&engine);
            cell_put(&h.cell, engine);
            Ok(value)
        },
    }
}

/// Set whether reading a missing map property is an error.
pub fn engine_set_fail_on_invalid_map_property(h: &EngineResource, value: bool) -> (r: Result<(), RhaiRustlerError>)
    ensures
        r matches Err(e) ==> e == RhaiRustlerError::Contention,
{
    match cell_try_take(&h.cell) {
        None => Err(RhaiRustlerError::Contention),
        Some(mut engine) => {
            raw::engine_set_fail_on_invalid_map_property_raw(&mut engine, value);
            cell_put(&h.cell, engine);
            Ok(())
        },
    }
}

/// Read whether reading a missing map property is an error.
pub fn engine_fail_on_invalid_map_property(h: &EngineResource) -> (r: Result<bool, RhaiRustlerError>)
    ensures
        r matches Err(e) ==> e == RhaiRustlerError::Contention,
{
    match cell_try_take(&h.cell) {
        None => Err(RhaiRustlerError::Contention),
        Some(engine) => {
            let value = raw::engine_fail_on_invalid_map_property_raw(&engine);
            cell_put(&h.cell, engine);
            Ok(value)
        },
    }
}

/// Set whether the fast operator mode is on.
pub fn engine_set_fast_operators(h: &EngineResource, value: bool) -> (r: Result<(), RhaiRustlerError>)
    ensures
        r matches Err(e) ==> e == RhaiRustlerError::Contention,
{
    match cell_try_take(&h.cell) {
        None => Err(RhaiRustlerError::Contention),
        Some(mut engine) => {
            raw::engine_set_fast_operators_raw(&mut engine, value);
            cell_put(&h.cell, engine);
            Ok(())
        },
    }
}

/// Read whether the fast operator mode is on.
pub fn engine_fast_operators(h: &EngineResource) -> (r: Result<bool, RhaiRustlerError>)
    ensures
        r matches Err(e) ==> e == RhaiRustlerError::Contention,
{
    match cell_try_take(&h.cell) {
        None => Err(RhaiRustlerError::Contention),
        Some(engine) => {
            let value = raw::engine_fast_operators_raw(&engine);
            cell_put(&h.cell, engine);
            Ok(value)
        },
    }
}

/// Set whether undeclared variables are rejected.
pub fn engine_set_strict_variables(h: &EngineResource, value: bool) -> (r: Result<(), RhaiRustlerError>)
    ensures
        r matches Err(e) ==> e == RhaiRustlerError::Contention,
{
    match cell_try_take(&h.cell) {
        None => Err(RhaiRustlerError::Contention),
        Some(mut engine) => {
            raw::engine_set_strict_variables_raw(&mut engine, value);
            cell_put(&h.cell, engine);
            Ok(())
        },
    }
}

/// Read whether undeclared variables are rejected.
pub fn engine_strict_variables(h: &EngineResource) -> (r: Result<bool, RhaiRustlerError>)
    ensures
        r matches Err(e) ==> e == RhaiRustlerError::Contention,
{
    match cell_try_take(&h.cell) {
        None => Err(RhaiRustlerError::Contention),
        Some(engine) => {
            let value = raw::engine_strict_variables_raw(&engine);
            cell_put(&h.cell, engine);
            Ok(value)
        },
    }
}

/// Set the maximum length of arrays (0 for unlimited).
pub fn engine_set_max_array_size(h: &EngineResource, value: usize) -> (r: Result<(), RhaiRustlerError>)
    ensures
        r matches Err(e) ==> e == RhaiRustlerError::Contention,
{
    match cell_try_take(&h.cell) {
        None => Err(RhaiRustlerError::Contention),
        Some(mut engine) => {
            raw::engine_set_max_array_size_raw(&mut engine, value);
            cell_put(&h.cell, engine);
            Ok(())
        },
    }
}

/// Read the maximum length of arrays (0 for unlimited).
pub fn engine_max_array_size(h: &EngineResource) -> (r: Result<usize, RhaiRustlerError>)
    ensures
        r matches Err(e) ==> e == RhaiRustlerError::Contention,
{
    match cell_try_take(&h.cell) {
        None => Err(RhaiRustlerError::Contention),
        Some(engine) => {
            let value = raw::engine_max_array_size_raw(&engine);
            cell_put(&h.cell, engine);
            Ok(value)
        },
    }
}

/// Set the maximum levels of function calls.
pub fn engine_set_max_call_levels(h: &EngineResource, value: usize) -> (r: Result<(), RhaiRustlerError>)
    ensures
        r matches Err(e) ==> e == RhaiRustlerError::Contention,
{
    match cell_try_take(&h.cell) {
        None => Err(RhaiRustlerError::Contention),
        Some(mut engine) => {
            raw::engine_set_max_call_levels_raw(&mut engine, value);
            cell_put(&h.cell, engine);
            Ok(())
        },
    }
}

/// Read the maximum levels of function calls.
pub fn engine_max_call_levels(h: &EngineResource) -> (r: Result<usize, RhaiRustlerError>)
    ensures
        r matches Err(e) ==> e == RhaiRustlerError::Contention,
{
    match cell_try_take(&h.cell) {
        None => Err(RhaiRustlerError::Contention),
        Some(engine) => {
            let value = raw::engine_max_call_levels_raw(&engine);
            cell_put(&h.cell, engine);
            Ok(value)
        },
    }
}

/// Set the maximum size of object maps (0 for unlimited).
pub fn engine_set_max_map_size(h: &EngineResource, value: usize) -> (r: Result<(), RhaiRustlerError>)
    ensures
        r matches Err(e) ==> e == RhaiRustlerError::Contention,
{
    match cell_try_take(&h.cell) {
        None => Err(RhaiRustlerError::Contention),
        Some(mut engine) => {
            raw::engine_set_max_map_size_raw(&mut engine, value);
            cell_put(&h.cell, engine);
            Ok(())
        },
    }
}

/// Read the maximum size of object maps (0 for unlimited).
pub fn engine_max_map_size(h: &EngineResource) -> (r: Result<usize, RhaiRustlerError>)
    ensures
        r matches Err(e) ==> e == RhaiRustlerError::Contention,
{
    match cell_try_take(&h.cell) {
        None => Err(RhaiRustlerError::Contention),
        Some(engine) => {
            let value = raw::engine_max_map_size_raw(&engine);
            cell_put(&h.cell, engine);
            Ok(value)
        },
    }
}

/// Set the maximum number of imported modules.
pub fn engine_set_max_modules(h: &EngineResource, value: usize) -> (r: Result<(), RhaiRustlerError>)
    ensures
        r matches Err(e) ==> e == RhaiRustlerError::Contention,
{
    match cell_try_take(&h.cell) {
        None => Err(RhaiRustlerError::Contention),
        Some(mut engine) => {
            raw::engine_set_max_modules_raw(&mut engine, value);
            cell_put(&h.cell, engine);
            Ok(())
        },
    }
}

/// Read the maximum number of imported modules.
pub fn engine_max_modules(h: &EngineResource) -> (r: Result<usize, RhaiRustlerError>)
    ensures
        r matches Err(e) ==> e == RhaiRustlerError::Contention,
{
    match cell_try_take(&h.cell) {
        None => Err(RhaiRustlerError::Contention),
        Some(engine) => {
            let value = raw::engine_max_modules_raw(&engine);
            cell_put(&h.cell, engine);
            Ok(value)
        },
    }
}

/// Set the maximum number of operations for one run (0 for unlimited).
pub fn engine_set_max_operations(h: &EngineResource, value: u64) -> (r: Result<(), RhaiRustlerError>)
    ensures
        r matches Err(e) ==> e == RhaiRustlerError::Contention,
{
    match cell_try_take(&h.cell) {
        None => Err(RhaiRustlerError::Contention),
        Some(mut engine) => {
            raw::engine_set_max_operations_raw(&mut engine, value);
            cell_put(&h.cell, engine);
            Ok(())
        },
    }
}

/// Read the maximum number of operations for one run (0 for unlimited).
pub fn engine_max_operations(h: &EngineResource) -> (r: Result<u64, RhaiRustlerError>)
    ensures
        r matches Err(e) ==> e == RhaiRustlerError::Contention,
{
    match cell_try_take(&h.cell) {
        None => Err(RhaiRustlerError::Contention),
        Some(engine) => {
            let value = raw::engine_max_operations_raw(&engine);
            cell_put(&h.cell, engine);
            Ok(value)
        },
    }
}

/// Set the maximum length of strings in bytes (0 for unlimited).
pub fn engine_set_max_string_size(h: &EngineResource, value: usize) -> (r: Result<(), RhaiRustlerError>)
    ensures
        r matches Err(e) ==> e == RhaiRustlerError::Contention,
{
    match cell_try_take(&h.cell) {
        None => Err(RhaiRustlerError::Contention),
        Some(mut engine) => {
            raw::engine_set_max_string_size_raw(&mut engine, value);
            cell_put(&h.cell, engine);
            Ok(())
        },
    }
}

/// Read the maximum length of strings in bytes (0 for unlimited).
pub fn engine_max_string_size(h: &EngineResource) -> (r: Result<usize, RhaiRustlerError>)
    ensures
        r matches Err(e) ==> e == RhaiRustlerError::Contention,
{
    match cell_try_take(&h.cell) {
        None => Err(RhaiRustlerError::Contention),
        Some(engine) => {
            let value = raw::engine_max_string_size_raw(&engine);
            cell_put(&h.cell, engine);
            Ok(value)
        },
    }
}

/// Set the depth limits for expressions and for expressions inside
/// function bodies (0 for unlimited).
pub fn engine_set_max_expr_depths(
    h: &EngineResource,
    max_expr_depth: usize,
    max_function_expr_depth: usize,
) -> (r: Result<(), RhaiRustlerError>)
    ensures
        r matches Err(e) ==> e == RhaiRustlerError::Contention,
{
    match cell_try_take(&h.cell) {
        None => Err(RhaiRustlerError::Contention),
        Some(mut engine) => {
            raw::engine_set_max_expr_depths_raw(&mut engine, max_expr_depth, max_function_expr_depth);
            cell_put(&h.cell, engine);
            Ok(())
        },
    }
}

/// Read the depth limit for expressions (0 for unlimited).
pub fn engine_max_expr_depth(h: &EngineResource) -> (r: Result<usize, RhaiRustlerError>)
    ensures
        r matches Err(e) ==> e == RhaiRustlerError::Contention,
{
    match cell_try_take(&h.cell) {
        None => Err(RhaiRustlerError::Contention),
        Some(engine) => {
            let value = raw::engine_max_expr_depth_raw(&engine);
            cell_put(&h.cell, engine);
            Ok(value)
        },
    }
}

/// Read the depth limit for expressions inside functions (0 for unlimited).
pub fn engine_max_function_expr_depth(h: &EngineResource) -> (r: Result<usize, RhaiRustlerError>)
    ensures
        r matches Err(e) ==> e == RhaiRustlerError::Contention,
{
    match cell_try_take(&h.cell) {
        None => Err(RhaiRustlerError::Contention),
        Some(engine) => {
            let value = raw::engine_max_function_expr_depth_raw(&engine);
            cell_put(&h.cell, engine);
            Ok(value)
        },
    }
}

/// Set the engine's optimization level.
pub fn engine_set_optimization_level(h: &EngineResource, level: OptimizationLevel) -> (r: Result<
    (),
    RhaiRustlerError,
>)
    ensures
        r matches Err(e) ==> e == RhaiRustlerError::Contention,
{
    let encoded: u8 = match level {
        OptimizationLevel::Off => 0,
        OptimizationLevel::Simple => 1,
        OptimizationLevel::Full => 2,
    };
    match cell_try_take(&h.cell) {
        None => Err(RhaiRustlerError::Contention),
        Some(mut engine) => {
            raw::engine_set_optimization_level_raw(&mut engine, encoded);
            cell_put(&h.cell, engine);
            Ok(())
        },
    }
}

/// Read the engine's optimization level.
pub fn engine_optimization_level(h: &EngineResource) -> (r: Result<
    OptimizationLevel,
    RhaiRustlerError,
>)
    ensures
        r matches Err(e) ==> e == RhaiRustlerError::Contention,
{
    match cell_try_take(&h.cell) {
        None => Err(RhaiRustlerError::Contention),
        Some(engine) => {
            let encoded = raw::engine_optimization_level_raw(&engine);
            cell_put(&h.cell, engine);
            if encoded == 0 {
                Ok(OptimizationLevel::Off)
            } else if encoded == 1 {
                Ok(OptimizationLevel::Simple)
            } else {
                Ok(OptimizationLevel::Full)
            }
        },
    }
}

/// Disable a keyword or operator in the engine's language.
pub fn engine_disable_symbol(h: &EngineResource, symbol: &str) -> (r: Result<
    (),
    RhaiRustlerError,
>)
    ensures
        r matches Err(e) ==> e == RhaiRustlerError::Contention,
{
    match cell_try_take(&h.cell) {
        None => Err(RhaiRustlerError::Contention),
        Some(mut engine) => {
            raw::engine_disable_symbol_raw(&mut engine, symbol);
            cell_put(&h.cell, engine);
            Ok(())
        },
    }
}

/// Register a custom operator with its precedence; the engine rejects
/// unsuitable keywords or a zero precedence with its own message.
pub fn engine_register_custom_operator(
    h: &EngineResource,
    keyword: &str,
    precedence: u8,
) -> (r: Result<(), RhaiRustlerError>)
    ensures
        r matches Err(e) ==> e == RhaiRustlerError::Contention || e is CustomOperatorError,
{
    match cell_try_take(&h.cell) {
        None => Err(RhaiRustlerError::Contention),
        Some(mut engine) => {
            let result = raw::engine_register_custom_operator_raw(&mut engine, keyword, precedence);
            cell_put(&h.cell, engine);
            match result {
                Ok(_) => Ok(()),
                Err(message) => Err(RhaiRustlerError::CustomOperatorError { message }),
            }
        },
    }
}

/// Register one of the engine's built-in packages.
pub fn engine_register_package(h: &EngineResource, package: Package) -> (r: Result<
    (),
    RhaiRustlerError,
>)
    ensures
        r matches Err(e) ==> e == RhaiRustlerError::Contention,
{
    match cell_try_take(&h.cell) {
        None => Err(RhaiRustlerError::Contention),
        Some(mut engine) => {
            match package {
                Package::Arithmetic => raw::register_arithmetic_package(&mut engine),
                Package::BasicArray => raw::register_basic_array_package(&mut engine),
                Package::BasicBlob => raw::register_basic_blob_package(&mut engine),
                Package::BasicFn => raw::register_basic_fn_package(&mut engine),
                Package::BasicIterator => raw::register_basic_iterator_package(&mut engine),
                Package::BasicMap => raw::register_basic_map_package(&mut engine),
                Package::BasicMath => raw::register_basic_math_package(&mut engine),
                Package::BasicString => raw::register_basic_string_package(&mut engine),
                Package::BasicTime => raw::register_basic_time_package(&mut engine),
                Package::BitField => raw::register_bit_field_package(&mut engine),
                Package::Core => raw::register_core_package(&mut engine),
                Package::LanguageCore => raw::register_language_core_package(&mut engine),
                Package::Logic => raw::register_logic_package(&mut engine),
                Package::MoreString => raw::register_more_string_package(&mut engine),
                Package::Standard => raw::register_standard_package(&mut engine),
            }
            cell_put(&h.cell, engine);
            Ok(())
        },
    }
}

/// Replace the engine's module resolvers with the given chain, tried
/// in order.
pub fn engine_set_module_resolvers(h: &EngineResource, resolvers: &Vec<ModuleResolver>) -> (r:
    Result<(), RhaiRustlerError>)
    ensures
        r matches Err(e) ==> e == RhaiRustlerError::Contention,
{
    match cell_try_take(&h.cell) {
        None => Err(RhaiRustlerError::Contention),
        Some(mut engine) => {
            let mut collection = raw::resolvers_new();
            let mut i: usize = 0;
            while i < resolvers.len()
                decreases resolvers@.len() - i as int,
            {
                match resolvers[i] {
                    ModuleResolver::File => raw::resolvers_push_file(&mut collection),
                    ModuleResolver::Dylib => raw::resolvers_push_dylib(&mut collection),
                }
                i += 1;
            }
            raw::engine_set_module_resolver_raw(&mut engine, collection);
            cell_put(&h.cell, engine);
            Ok(())
        },
    }
}

/// Register an already-loaded module into the engine's global
/// namespace; loading the module from disk is the caller's business.
pub fn engine_register_global_module(h: &EngineResource, module: rhai::Shared<rhai::Module>) -> (r:
    Result<(), RhaiRustlerError>)
    ensures
        r matches Err(e) ==> e == RhaiRustlerError::Contention,
{
    match cell_try_take(&h.cell) {
        None => Err(RhaiRustlerError::Contention),
        Some(mut engine) => {
            raw::engine_register_global_module_raw(&mut engine, module);
            cell_put(&h.cell, engine);
            Ok(())
        },
    }
}

/// Register an already-loaded module under a namespace.
pub fn engine_register_static_module(
    h: &EngineResource,
    namespace: &str,
    module: rhai::Shared<rhai::Module>,
) -> (r: Result<(), RhaiRustlerError>)
    ensures
        r matches Err(e) ==> e == RhaiRustlerError::Contention,
{
    match cell_try_take(&h.cell) {
        None => Err(RhaiRustlerError::Contention),
        Some(mut engine) => {
            raw::engine_register_static_module_raw(&mut engine, namespace, module);
            cell_put(&h.cell, engine);
            Ok(())
        },
    }
}

/// Check a host value against the engine's configured size limits.
pub fn engine_ensure_data_size_within_limits(h: &EngineResource, value: &HostValue) -> (r: Result<
    (),
    RhaiRustlerError,
>)
    ensures
        r matches Err(e) ==> e == RhaiRustlerError::Contention || e is EvaluationError,
{
    match cell_try_take(&h.cell) {
        None => Err(RhaiRustlerError::Contention),
        Some(engine) => {
            let d = to_engine(&to_dynamic(value));
            let result = raw::engine_ensure_data_size_raw(&engine, &d);
            cell_put(&h.cell, engine);
            match result {
                Ok(_) => Ok(()),
                Err(e) => Err(eval_error_to_error(e)),
            }
        },
    }
}

/// Re-optimize a compiled program against a scope handle's bindings
/// at the given level, producing a new program handle.
pub fn engine_optimize_ast(
    engine_resource: &EngineResource,
    scope_resource: &ScopeResource,
    ast_resource: &ASTResource,
    level: OptimizationLevel,
) -> (r: Result<ASTResource, RhaiRustlerError>)
    ensures
        r matches Err(e) ==> e == RhaiRustlerError::Contention,
{
    let encoded: u8 = match level {
        OptimizationLevel::Off => 0,
        OptimizationLevel::Simple => 1,
        OptimizationLevel::Full => 2,
    };
    match cell_try_take(&engine_resource.cell) {
        None => Err(RhaiRustlerError::Contention),
        Some(engine) => {
            match scope_acquire(scope_resource) {
                Err(e) => {
                    cell_put(&engine_resource.cell, engine);
                    Err(e)
                },
                Ok(scope) => {
                    match ast_acquire(ast_resource) {
                        Err(e) => {
                            scope_release(scope_resource, scope);
                            cell_put(&engine_resource.cell, engine);
                            Err(e)
                        },
                        Ok(ast) => {
                            let es = materialize_scope(&scope);
                            let optimized = raw::engine_optimize_ast_raw(&engine, &es, &ast, encoded);
                            ast_release(ast_resource, ast);
                            scope_release(scope_resource, scope);
                            cell_put(&engine_resource.cell, engine);
                            Ok(ast_resource_from(optimized))
                        },
                    }
                },
            }
        },
    }
}

} // verus!
