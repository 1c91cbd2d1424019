use rhai_host::ast::{
    ast_clear_functions, ast_clear_source, ast_clone_functions_only, ast_combine, ast_empty,
    ast_has_functions, ast_merge, ast_set_source, ast_source,
};
use rhai_host::engine::{
    ModuleResolver, OptimizationLevel, Package, engine_acquire, engine_allow_anonymous_fn,
    engine_allow_if_expression, engine_allow_loop_expressions, engine_allow_looping,
    engine_allow_shadowing, engine_allow_statement_expression, engine_allow_switch_expression,
    engine_call_fn, engine_compact_script, engine_compile, engine_compile_expression,
    engine_compile_with_scope, engine_disable_symbol, engine_ensure_data_size_within_limits,
    engine_eval, engine_eval_ast, engine_eval_ast_with_scope, engine_eval_expression,
    engine_eval_expression_with_scope, engine_eval_with_scope, engine_fail_on_invalid_map_property,
    engine_fast_operators, engine_max_array_size, engine_max_call_levels, engine_max_expr_depth,
    engine_max_function_expr_depth, engine_max_map_size, engine_max_modules, engine_max_operations,
    engine_max_string_size, engine_new, engine_new_raw, engine_optimization_level,
    engine_optimize_ast, engine_register_custom_operator, engine_register_package, engine_release,
    engine_set_allow_anonymous_fn, engine_set_allow_if_expression,
    engine_set_allow_loop_expressions, engine_set_allow_looping, engine_set_allow_shadowing,
    engine_set_allow_statement_expression, engine_set_allow_switch_expression,
    engine_set_fail_on_invalid_map_property, engine_set_fast_operators, engine_set_max_array_size,
    engine_set_max_call_levels, engine_set_max_expr_depths, engine_set_max_map_size,
    engine_set_max_modules, engine_set_max_operations, engine_set_max_string_size,
    engine_set_module_resolvers, engine_set_optimization_level, engine_set_strict_variables,
    engine_share, engine_strict_variables, init_hashing_seed,
};
use rhai_host::error::{ErrorKind, EvalFault, EvaluationError, RhaiRustlerError, error_kind, kind_name};
use rhai_host::scope::{
    scope_get_value, scope_contains, scope_is_constant, scope_len, scope_new,
    scope_push_constant_dynamic, scope_push_dynamic,
};
use rhai_host::value::HostValue;

fn kind_of<T>(r: Result<T, RhaiRustlerError>) -> ErrorKind {
    match r {
        Ok(_) => panic!("expected an error"),
        Err(e) => error_kind(&e),
    }
}

#[test]
fn eval_scalar_results() {
    let h = engine_new();
    assert_eq!(engine_eval(&h, "40 + 2"), Ok(HostValue::Int(42)));
    assert_eq!(engine_eval(&h, "true && false"), Ok(HostValue::Bool(false)));
    assert_eq!(engine_eval(&h, "1.5"), Ok(HostValue::Float((1.5f64).to_bits())));
    assert_eq!(engine_eval(&h, "\"ab\" + \"c\""), Ok(HostValue::Str(String::from("abc"))));
    assert_eq!(engine_eval(&h, "'x'"), Ok(HostValue::Str(String::from("x"))));
    assert_eq!(engine_eval(&h, "()"), Ok(HostValue::Null));
}

#[test]
fn eval_structured_results() {
    let h = engine_new();
    assert_eq!(
        engine_eval(&h, "[1, 2, 3]"),
        Ok(HostValue::List(vec![HostValue::Int(1), HostValue::Int(2), HostValue::Int(3)]))
    );
    assert_eq!(
        engine_eval(&h, "#{b: 2, a: 1}"),
        Ok(HostValue::Mapping(vec![
            (String::from("a"), HostValue::Int(1)),
            (String::from("b"), HostValue::Int(2)),
        ]))
    );
}

#[test]
fn eval_with_scope_reads_and_writes_bindings() {
    let h = engine_new();
    let s = scope_new();
    scope_push_dynamic(&s, "x", &HostValue::Int(40)).unwrap();
    assert_eq!(engine_eval_with_scope(&h, &s, "x = x + 2; x"), Ok(HostValue::Int(42)));
    assert_eq!(scope_get_value(&s, "x"), Ok(Some(HostValue::Int(42))));
    // A variable the script declares stays visible in the scope.
    assert_eq!(engine_eval_with_scope(&h, &s, "let y = 7; y"), Ok(HostValue::Int(7)));
    assert_eq!(scope_contains(&s, "y"), Ok(true));
}

#[test]
fn constant_binding_is_constant_inside_the_engine() {
    let h = engine_new();
    let s = scope_new();
    scope_push_constant_dynamic(&s, "c", &HostValue::Int(5)).unwrap();
    let r = engine_eval_with_scope(&h, &s, "c = 6");
    assert_eq!(kind_of(r), ErrorKind::AssignmentToConstant);
    // The binding and its constant flag survive the failed call.
    assert_eq!(scope_get_value(&s, "c"), Ok(Some(HostValue::Int(5))));
    assert_eq!(scope_is_constant(&s, "c"), Ok(Some(true)));
}

#[test]
fn scope_values_survive_the_engine_round_trip() {
    let h = engine_new();
    let s = scope_new();
    let nested = || HostValue::List(vec![
        HostValue::Int(1),
        HostValue::Float((2.5f64).to_bits()),
        HostValue::Str(String::from("x")),
        HostValue::Bool(true),
        HostValue::Null,
        HostValue::List(vec![HostValue::Int(7)]),
    ]);
    scope_push_dynamic(&s, "v", &nested()).unwrap();
    // A call that does not touch `v` must hand it back unchanged
    // through the engine-side scope.
    assert_eq!(engine_eval_with_scope(&h, &s, "1"), Ok(HostValue::Int(1)));
    assert_eq!(scope_len(&s), Ok(1));
    assert_eq!(scope_get_value(&s, "v"), Ok(Some(nested())));
}

#[test]
fn compile_then_evaluate_matches_one_shot() {
    let h = engine_new();
    let one_shot = engine_eval(&h, "(1 + 2) * 3").unwrap();
    let program = engine_compile(&h, "(1 + 2) * 3").unwrap();
    assert_eq!(engine_eval_ast(&h, &program), Ok(one_shot));
}

#[test]
fn compile_with_scope_then_evaluate_matches_one_shot() {
    let h = engine_new();
    let s = scope_new();
    scope_push_dynamic(&s, "n", &HostValue::Int(20)).unwrap();
    let one_shot = engine_eval_with_scope(&h, &s, "n * 2 + 2").unwrap();
    let program = engine_compile_with_scope(&h, &s, "n * 2 + 2").unwrap();
    assert_eq!(engine_eval_ast_with_scope(&h, &s, &program), Ok(one_shot));
    // The same holds for a compiled single expression.
    let expr_one_shot = engine_eval_expression_with_scope(&h, &s, "n + 1").unwrap();
    let expr = engine_compile_expression(&h, "n + 1").unwrap();
    assert_eq!(engine_eval_ast_with_scope(&h, &s, &expr), Ok(expr_one_shot));
    assert_eq!(engine_eval_expression(&h, "3 + 4"), Ok(HostValue::Int(7)));
}

#[test]
fn operation_limit_is_enforced_then_lifted() {
    let h = engine_new();
    engine_set_max_operations(&h, 100).unwrap();
    assert_eq!(engine_max_operations(&h), Ok(100));
    let script = "let x = 0; while x < 10000 { x += 1; } x";
    let limited = engine_eval(&h, script);
    assert_eq!(kind_of(limited), ErrorKind::TooManyOperations);
    // Unlimited again: the same script succeeds.
    engine_set_max_operations(&h, 0).unwrap();
    assert_eq!(engine_eval(&h, script), Ok(HostValue::Int(10000)));
}

#[test]
fn contention_on_engine_handle() {
    let h = engine_new();
    let held = engine_acquire(&h).unwrap();
    let alias = engine_share(&h);
    let refused = engine_eval(&alias, "1");
    assert_eq!(refused, Err(RhaiRustlerError::Contention));
    assert_eq!(kind_name(ErrorKind::Contention), "contention");
    engine_release(&h, held);
    assert_eq!(engine_eval(&alias, "1"), Ok(HostValue::Int(1)));
}

#[test]
fn call_fn_invokes_compiled_function() {
    let h = engine_new();
    let s = scope_new();
    let program = engine_compile(&h, "fn add(a, b) { a + b }").unwrap();
    let args = vec![HostValue::Int(40), HostValue::Int(2)];
    assert_eq!(engine_call_fn(&h, &s, &program, "add", &args), Ok(HostValue::Int(42)));
    let missing = engine_call_fn(&h, &s, &program, "nope", &args);
    assert_eq!(kind_of(missing), ErrorKind::FunctionNotFound);
}

#[test]
fn parse_failure_reports_parsing_kind() {
    let h = engine_new();
    let r = engine_compile(&h, "fn (");
    assert_eq!(kind_of(r), ErrorKind::Parsing);
    let r = engine_eval(&h, "if {");
    // A one-shot evaluation wraps the parse failure as an evaluation error.
    assert_eq!(kind_of(r), ErrorKind::Parsing);
}

#[test]
fn missing_variable_reports_its_kind() {
    let h = engine_new();
    let r = engine_eval(&h, "no_such_variable");
    assert_eq!(kind_of(r), ErrorKind::VariableNotFound);
}

#[test]
fn data_size_limit_is_checked() {
    let h = engine_new();
    engine_set_max_array_size(&h, 2).unwrap();
    let big = HostValue::List(vec![HostValue::Int(1), HostValue::Int(2), HostValue::Int(3)]);
    let r = engine_ensure_data_size_within_limits(&h, &big);
    assert_eq!(kind_of(r), ErrorKind::DataTooLarge);
    engine_set_max_array_size(&h, 0).unwrap();
    let big = HostValue::List(vec![HostValue::Int(1), HostValue::Int(2), HostValue::Int(3)]);
    assert_eq!(engine_ensure_data_size_within_limits(&h, &big), Ok(()));
}

#[test]
fn custom_operator_registration() {
    let h = engine_new();
    assert_eq!(engine_register_custom_operator(&h, "#", 160), Ok(()));
    // Zero precedence is refused with the custom-operator kind.
    let r = engine_register_custom_operator(&h, "##", 0);
    assert_eq!(kind_of(r), ErrorKind::CustomOperator);
}

#[test]
fn raw_engine_needs_packages() {
    let h = engine_new_raw();
    // A bare engine has no built-in functions: `abs` is missing until
    // the arithmetic package is registered.
    let r = engine_eval(&h, "abs(0 - 42)");
    assert_eq!(kind_of(r), ErrorKind::FunctionNotFound);
    engine_register_package(&h, Package::Arithmetic).unwrap();
    assert_eq!(engine_eval(&h, "abs(0 - 42)"), Ok(HostValue::Int(42)));
    engine_register_package(&h, Package::Standard).unwrap();
    assert_eq!(engine_eval(&h, "[1, 2].len()"), Ok(HostValue::Int(2)));
}

#[test]
fn combine_appends_statements() {
    let h = engine_new();
    let a = engine_compile(&h, "21;").unwrap();
    let b = engine_compile(&h, "40 + 2").unwrap();
    let combined = ast_combine(&a, &b).unwrap();
    // The combined program runs both sides' statements in order, so
    // the second side's value is the result.
    assert_eq!(engine_eval_ast(&h, &combined), Ok(HostValue::Int(42)));
}

#[test]
fn clone_functions_only_drops_statements() {
    let h = engine_new();
    let s = scope_new();
    let program = engine_compile(&h, "fn f() { 7 } 99").unwrap();
    let functions = ast_clone_functions_only(&program).unwrap();
    assert_eq!(ast_has_functions(&functions), Ok(true));
    // Without the statements the program evaluates to unit, but its
    // functions stay callable.
    assert_eq!(engine_eval_ast(&h, &functions), Ok(HostValue::Null));
    let args: Vec<HostValue> = vec![];
    assert_eq!(engine_call_fn(&h, &s, &functions, "f", &args), Ok(HostValue::Int(7)));
}

#[test]
fn optimize_ast_keeps_meaning() {
    let h = engine_new();
    let s = scope_new();
    let program = engine_compile(&h, "(1 + 2) * 14").unwrap();
    let optimized = engine_optimize_ast(&h, &s, &program, OptimizationLevel::Full).unwrap();
    assert_eq!(engine_eval_ast(&h, &optimized), Ok(HostValue::Int(42)));
    assert_eq!(engine_eval_ast(&h, &program), Ok(HostValue::Int(42)));
}

#[test]
fn configuration_round_trips() {
    let h = engine_new();
    assert_eq!(engine_allow_shadowing(&h), Ok(true));
    engine_set_allow_shadowing(&h, false).unwrap();
    assert_eq!(engine_allow_shadowing(&h), Ok(false));
    assert_eq!(engine_optimization_level(&h), Ok(OptimizationLevel::Simple));
    engine_set_optimization_level(&h, OptimizationLevel::Full).unwrap();
    assert_eq!(engine_optimization_level(&h), Ok(OptimizationLevel::Full));
}

#[test]
fn boolean_options_round_trip() {
    let h = engine_new();
    engine_set_allow_anonymous_fn(&h, false).unwrap();
    assert_eq!(engine_allow_anonymous_fn(&h), Ok(false));
    engine_set_allow_if_expression(&h, false).unwrap();
    assert_eq!(engine_allow_if_expression(&h), Ok(false));
    engine_set_allow_loop_expressions(&h, false).unwrap();
    assert_eq!(engine_allow_loop_expressions(&h), Ok(false));
    engine_set_allow_looping(&h, false).unwrap();
    assert_eq!(engine_allow_looping(&h), Ok(false));
    engine_set_allow_statement_expression(&h, false).unwrap();
    assert_eq!(engine_allow_statement_expression(&h), Ok(false));
    engine_set_allow_switch_expression(&h, false).unwrap();
    assert_eq!(engine_allow_switch_expression(&h), Ok(false));
    engine_set_fail_on_invalid_map_property(&h, true).unwrap();
    assert_eq!(engine_fail_on_invalid_map_property(&h), Ok(true));
    engine_set_fast_operators(&h, false).unwrap();
    assert_eq!(engine_fast_operators(&h), Ok(false));
    engine_set_strict_variables(&h, true).unwrap();
    assert_eq!(engine_strict_variables(&h), Ok(true));
}

#[test]
fn limit_options_round_trip() {
    let h = engine_new();
    engine_set_max_array_size(&h, 11).unwrap();
    assert_eq!(engine_max_array_size(&h), Ok(11));
    engine_set_max_call_levels(&h, 12).unwrap();
    assert_eq!(engine_max_call_levels(&h), Ok(12));
    engine_set_max_map_size(&h, 13).unwrap();
    assert_eq!(engine_max_map_size(&h), Ok(13));
    engine_set_max_modules(&h, 14).unwrap();
    assert_eq!(engine_max_modules(&h), Ok(14));
    engine_set_max_string_size(&h, 15).unwrap();
    assert_eq!(engine_max_string_size(&h), Ok(15));
    engine_set_max_expr_depths(&h, 40, 20).unwrap();
    assert_eq!(engine_max_expr_depth(&h), Ok(40));
    assert_eq!(engine_max_function_expr_depth(&h), Ok(20));
}

#[test]
fn disabled_symbol_no_longer_parses() {
    let h = engine_new();
    assert_eq!(engine_eval(&h, "2 + 2"), Ok(HostValue::Int(4)));
    engine_disable_symbol(&h, "+").unwrap();
    let r = engine_eval(&h, "2 + 2");
    assert_eq!(kind_of(r), ErrorKind::Parsing);
}

#[test]
fn compact_script_strips_whitespace() {
    let h = engine_new();
    let compact = engine_compact_script(&h, "let   x =   1; x").unwrap();
    assert!(compact.len() < "let   x =   1; x".len());
    let r = engine_compact_script(&h, "fn (");
    assert_eq!(kind_of(r), ErrorKind::Parsing);
}

#[test]
fn ast_source_metadata() {
    let program = ast_empty();
    assert_eq!(ast_source(&program), Ok(None));
    ast_set_source(&program, "my_source").unwrap();
    assert_eq!(ast_source(&program), Ok(Some(String::from("my_source"))));
    ast_clear_source(&program).unwrap();
    assert_eq!(ast_source(&program), Ok(None));
}

#[test]
fn ast_merge_and_functions() {
    let h = engine_new();
    let a = engine_compile(&h, "fn a() { 1 }").unwrap();
    let b = engine_compile(&h, "fn b() { 2 }").unwrap();
    let merged = ast_merge(&a, &b).unwrap();
    assert_eq!(ast_has_functions(&merged), Ok(true));
    ast_clear_functions(&merged).unwrap();
    assert_eq!(ast_has_functions(&merged), Ok(false));
    // The inputs are unchanged.
    assert_eq!(ast_has_functions(&a), Ok(true));
    assert_eq!(ast_has_functions(&b), Ok(true));
}

#[test]
fn missing_module_reports_its_kind() {
    let h = engine_new();
    engine_set_module_resolvers(&h, &vec![ModuleResolver::File]).unwrap();
    let r = engine_eval(&h, "import \"no_such_module\" as m; 1");
    assert_eq!(kind_of(r), ErrorKind::ModuleNotFound);
}

#[test]
fn arithmetic_failure_reports_its_kind() {
    let h = engine_new();
    let r = engine_eval(&h, "1 / 0");
    assert_eq!(kind_of(r), ErrorKind::Arithmetic);
}

#[test]
fn runaway_recursion_reports_stack_overflow() {
    let h = engine_new();
    let r = engine_eval(&h, "fn f(n) { f(n + 1) } f(0)");
    assert_eq!(kind_of(r), ErrorKind::StackOverflow);
}

#[test]
fn hashing_seed_is_set_once() {
    // The first call may or may not be the very first in the process,
    // but a second call in the same process is always a non-fatal no.
    let _ = init_hashing_seed(1, 3, 3, 7);
    assert!(!init_hashing_seed(1, 3, 3, 7));
}

#[test]
fn evaluation_error_carries_fault_and_message() {
    let h = engine_new();
    let e = engine_eval(&h, "no_such_variable").unwrap_err();
    match &e {
        RhaiRustlerError::EvaluationError(EvaluationError { fault, message }) => {
            assert_eq!(*fault, EvalFault::VariableNotFound);
            assert!(message.contains("no_such_variable"));
        },
        other => panic!("unexpected error: {other:?}"),
    }
}
