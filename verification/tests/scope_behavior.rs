use rhai_host::error::{ErrorKind, RhaiRustlerError, ScopeError, error_kind, kind_name};
use rhai_host::scope::{
    Scope, scope_acquire, scope_contains, scope_get_value, scope_is_constant, scope_len,
    scope_new, scope_pop, scope_push_constant_dynamic, scope_push_dynamic, scope_release,
    scope_remove, scope_set_value, scope_share, scope_with_capacity,
};
use rhai_host::value::{DynamicValue, HostValue};

#[test]
fn fresh_scope_is_empty() {
    let s = Scope::new();
    assert!(s.is_empty());
    assert_eq!(s.len(), 0);
    let s = Scope::with_capacity(16);
    assert!(s.is_empty());
}

#[test]
fn push_and_get() {
    let mut s = Scope::new();
    s.push_dynamic("x", DynamicValue::Int(42));
    assert!(s.contains("x"));
    assert!(!s.contains("y"));
    assert_eq!(s.get_value("x"), Some(DynamicValue::Int(42)));
    assert_eq!(s.get_value("y"), None);
    assert_eq!(s.is_constant("x"), Some(false));
    assert_eq!(s.is_constant("y"), None);
}

#[test]
fn shadowing_finds_most_recent_binding() {
    let mut s = Scope::new();
    s.push_dynamic("x", DynamicValue::Int(1));
    s.push_dynamic("x", DynamicValue::Int(2));
    assert_eq!(s.len(), 2);
    assert_eq!(s.get_value("x"), Some(DynamicValue::Int(2)));
    // Removing takes away only the most recent binding.
    assert_eq!(s.remove("x"), Some(DynamicValue::Int(2)));
    assert_eq!(s.get_value("x"), Some(DynamicValue::Int(1)));
}

#[test]
fn set_value_updates_or_pushes() {
    let mut s = Scope::new();
    assert!(s.set_value("x", DynamicValue::Int(1)).is_ok());
    assert_eq!(s.len(), 1);
    assert!(s.set_value("x", DynamicValue::Int(2)).is_ok());
    assert_eq!(s.len(), 1);
    assert_eq!(s.get_value("x"), Some(DynamicValue::Int(2)));
}

#[test]
fn constant_binding_rejects_update_and_keeps_value() {
    let mut s = Scope::new();
    s.push_constant_dynamic("x", DynamicValue::Int(1));
    let r = s.set_value("x", DynamicValue::Int(2));
    assert_eq!(
        r,
        Err(RhaiRustlerError::ScopeError(ScopeError::ErrorCannotUpdateValueOfConstant))
    );
    let e = r.unwrap_err();
    assert_eq!(error_kind(&e), ErrorKind::CannotUpdateValueOfConstant);
    assert_eq!(kind_name(error_kind(&e)), "cannot_update_value_of_constant");
    // The binding still holds its original value.
    assert_eq!(s.get_value("x"), Some(DynamicValue::Int(1)));
    assert_eq!(s.is_constant("x"), Some(true));
}

#[test]
fn rewind_truncates_and_clear_empties() {
    let mut s = Scope::new();
    s.push_dynamic("a", DynamicValue::Int(1));
    s.push_dynamic("b", DynamicValue::Int(2));
    s.push_dynamic("c", DynamicValue::Int(3));
    s.rewind(1);
    assert_eq!(s.len(), 1);
    assert!(s.contains("a"));
    assert!(!s.contains("b"));
    s.rewind(9);
    assert_eq!(s.len(), 1);
    s.clear();
    assert!(s.is_empty());
}

#[test]
fn pop_drops_last_and_errors_when_empty() {
    let mut s = Scope::new();
    assert_eq!(
        s.pop(),
        Err(RhaiRustlerError::ScopeError(ScopeError::ErrorScopeIsEmpty))
    );
    s.push_dynamic("a", DynamicValue::Int(1));
    s.push_dynamic("b", DynamicValue::Int(2));
    assert!(s.pop().is_ok());
    assert!(s.contains("a"));
    assert!(!s.contains("b"));
}

#[test]
fn clone_visible_keeps_last_instances_most_recent_first() {
    let mut s = Scope::new();
    s.push_dynamic("x", DynamicValue::Int(1));
    s.push_dynamic("y", DynamicValue::Int(2));
    s.push_dynamic("x", DynamicValue::Int(3));
    let copy = s.clone_visible();
    // The most recent binding of each name, walking backwards.
    assert_eq!(copy.len(), 2);
    assert_eq!(copy.get_value("x"), Some(DynamicValue::Int(3)));
    assert_eq!(copy.get_value("y"), Some(DynamicValue::Int(2)));
    let pairs = copy.iter_collect();
    assert_eq!(pairs[0].0, "x");
    assert_eq!(pairs[1].0, "y");
    // The original scope is untouched.
    assert_eq!(s.len(), 3);
}

#[test]
fn iter_collect_converts_in_order() {
    let mut s = Scope::new();
    s.push_dynamic("a", DynamicValue::Int(1));
    s.push_constant_dynamic("b", DynamicValue::Bool(true));
    let pairs = s.iter_collect();
    assert_eq!(
        pairs,
        vec![
            (String::from("a"), HostValue::Int(1)),
            (String::from("b"), HostValue::Bool(true)),
        ]
    );
}

#[test]
fn scope_handle_operations() {
    let h = scope_new();
    assert_eq!(scope_push_dynamic(&h, "x", &HostValue::Int(5)), Ok(()));
    assert_eq!(scope_contains(&h, "x"), Ok(true));
    assert_eq!(scope_get_value(&h, "x"), Ok(Some(HostValue::Int(5))));
    assert_eq!(scope_is_constant(&h, "x"), Ok(Some(false)));
    assert_eq!(scope_len(&h), Ok(1));
    assert_eq!(scope_remove(&h, "x"), Ok(Some(HostValue::Int(5))));
    assert_eq!(scope_len(&h), Ok(0));
    let h2 = scope_with_capacity(4);
    assert_eq!(scope_pop(&h2), Err(RhaiRustlerError::ScopeError(ScopeError::ErrorScopeIsEmpty)));
}

#[test]
fn constant_protection_through_handle() {
    let h = scope_new();
    assert_eq!(scope_push_constant_dynamic(&h, "x", &HostValue::Int(1)), Ok(()));
    let r = scope_set_value(&h, "x", &HostValue::Int(2));
    assert_eq!(
        r,
        Err(RhaiRustlerError::ScopeError(ScopeError::ErrorCannotUpdateValueOfConstant))
    );
    assert_eq!(scope_get_value(&h, "x"), Ok(Some(HostValue::Int(1))));
}

#[test]
fn contention_while_held_and_success_after_release() {
    let h = scope_new();
    let held = scope_acquire(&h).unwrap();
    // A second caller sharing the same handle is refused immediately.
    let alias = scope_share(&h);
    let refused = scope_len(&alias);
    assert_eq!(refused, Err(RhaiRustlerError::Contention));
    assert_eq!(error_kind(&refused.unwrap_err()), ErrorKind::Contention);
    assert_eq!(scope_acquire(&alias).unwrap_err(), RhaiRustlerError::Contention);
    // After release the same caller succeeds.
    scope_release(&h, held);
    assert_eq!(scope_len(&alias), Ok(0));
}
