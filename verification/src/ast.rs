//! The program handle: a compiled, reusable representation of source
//! text, shareable across call sites behind a non-blocking lock.

use vstd::prelude::*;

use crate::cell::{LockCell, cell_new, cell_put, cell_share, cell_try_take};
use crate::error::RhaiRustlerError;
use crate::raw;

verus! {

/// A shareable, lock-protected compiled program.
pub struct ASTResource {
    cell: LockCell<rhai::AST>,
}

/// Wrap a compiled program in a fresh handle.
pub(crate) fn ast_resource_from(ast: rhai::AST) -> (r: ASTResource) {
    ASTResource { cell: cell_new(ast) }
}

/// A handle holding an empty program.
pub fn ast_empty() -> (r: ASTResource) {
    ast_resource_from(raw::ast_empty_raw())
}

/// Another reference to the same program handle.
pub fn ast_share(h: &ASTResource) -> (r: ASTResource) {
    ASTResource { cell: cell_share(&h.cell) }
}

/// Take the program out of the handle; fails with `Contention` when
/// another caller holds it.
pub fn ast_acquire(h: &ASTResource) -> (r: Result<rhai::AST, RhaiRustlerError>)
    ensures
        r matches Err(e) ==> e == RhaiRustlerError::Contention,
{
    match cell_try_take(&h.cell) {
        Some(ast) => Ok(ast),
        None => Err(RhaiRustlerError::Contention),
    }
}

/// Put a program back into the handle, releasing it.
pub fn ast_release(h: &ASTResource, ast: rhai::AST) {
    cell_put(&h.cell, ast);
}

/// Attach source text metadata to the program.
pub fn ast_set_source(h: &ASTResource, source: &str) -> (r: Result<(), RhaiRustlerError>)
    ensures
        r matches Err(e) ==> e == RhaiRustlerError::Contention,
{
    match cell_try_take(&h.cell) {
        None => Err(RhaiRustlerError::Contention),
        Some(mut ast) => {
            raw::ast_set_source_raw(&mut ast, source);
            cell_put(&h.cell, ast);
            Ok(())
        },
    }
}

/// Remove the program's source text metadata.
pub fn ast_clear_source(h: &ASTResource) -> (r: Result<(), RhaiRustlerError>)
    ensures
        r matches Err(e) ==> e == RhaiRustlerError::Contention,
{
    match cell_try_take(&h.cell) {
        None => Err(RhaiRustlerError::Contention),
        Some(mut ast) => {
            raw::ast_clear_source_raw(&mut ast);
            cell_put(&h.cell, ast);
            Ok(())
        },
    }
}

/// The program's source text metadata, if any was attached.
pub fn ast_source(h: &ASTResource) -> (r: Result<Option<String>, RhaiRustlerError>)
    ensures
        r matches Err(e) ==> e == RhaiRustlerError::Contention,
{
    match cell_try_take(&h.cell) {
        None => Err(RhaiRustlerError::Contention),
        Some(ast) => {
            let source = raw::ast_source_raw(&ast);
            cell_put(&h.cell, ast);
            Ok(source)
        },
    }
}

/// A new handle on the merge of two programs; neither input changes.
pub fn ast_merge(h: &ASTResource, other: &ASTResource) -> (r: Result<
    ASTResource,
    RhaiRustlerError,
>)
    ensures
        r matches Err(e) ==> e == RhaiRustlerError::Contention,
{
    match cell_try_take(&h.cell) {
        None => Err(RhaiRustlerError::Contention),
        Some(ast) => {
            match cell_try_take(&other.cell) {
                None => {
                    cell_put(&h.cell, ast);
                    Err(RhaiRustlerError::Contention)
                },
                Some(other_ast) => {
                    let merged = raw::ast_merge_raw(&ast, &other_ast);
                    cell_put(&other.cell, other_ast);
                    cell_put(&h.cell, ast);
                    Ok(ast_resource_from(merged))
                },
            }
        },
    }
}

/// Combine the second program into the first (which keeps the
/// combined form) and hand the combined program back as a new handle.
pub fn ast_combine(h: &ASTResource, other: &ASTResource) -> (r: Result<
    ASTResource,
    RhaiRustlerError,
>)
    ensures
        r matches Err(e) ==> e == RhaiRustlerError::Contention,
{
    match cell_try_take(&h.cell) {
        None => Err(RhaiRustlerError::Contention),
        Some(mut ast) => {
            match cell_try_take(&other.cell) {
                None => {
                    cell_put(&h.cell, ast);
                    Err(RhaiRustlerError::Contention)
                },
                Some(other_ast) => {
                    let appended = raw::ast_clone_raw(&other_ast);
                    cell_put(&other.cell, other_ast);
                    raw::ast_combine_raw(&mut ast, appended);
                    let combined = raw::ast_clone_raw(&ast);
                    cell_put(&h.cell, ast);
                    Ok(ast_resource_from(combined))
                },
            }
        },
    }
}

/// Remove every function definition from the program.
pub fn ast_clear_functions(h: &ASTResource) -> (r: Result<(), RhaiRustlerError>)
    ensures
        r matches Err(e) ==> e == RhaiRustlerError::Contention,
{
    match cell_try_take(&h.cell) {
        None => Err(RhaiRustlerError::Contention),
        Some(mut ast) => {
            raw::ast_clear_functions_raw(&mut ast);
            cell_put(&h.cell, ast);
            Ok(())
        },
    }
}

/// Remove every top-level statement from the program.
pub fn ast_clear_statements(h: &ASTResource) -> (r: Result<(), RhaiRustlerError>)
    ensures
        r matches Err(e) ==> e == RhaiRustlerError::Contention,
{
    match cell_try_take(&h.cell) {
        None => Err(RhaiRustlerError::Contention),
        Some(mut ast) => {
            raw::ast_clear_statements_raw(&mut ast);
            cell_put(&h.cell, ast);
            Ok(())
        },
    }
}

/// A new handle holding only the program's function definitions.
pub fn ast_clone_functions_only(h: &ASTResource) -> (r: Result<ASTResource, RhaiRustlerError>)
    ensures
        r matches Err(e) ==> e == RhaiRustlerError::Contention,
{
    match cell_try_take(&h.cell) {
        None => Err(RhaiRustlerError::Contention),
        Some(ast) => {
            let functions = raw::ast_clone_functions_only_raw(&ast);
            cell_put(&h.cell, ast);
            Ok(ast_resource_from(functions))
        },
    }
}

/// Whether the program holds any function definition.
pub fn ast_has_functions(h: &ASTResource) -> (r: Result<bool, RhaiRustlerError>)
    ensures
        r matches Err(e) ==> e == RhaiRustlerError::Contention,
{
    match cell_try_take(&h.cell) {
        None => Err(RhaiRustlerError::Contention),
        Some(ast) => {
            let has = raw::ast_has_functions_raw(&ast);
            cell_put(&h.cell, ast);
            Ok(has)
        },
    }
}

} // verus!
