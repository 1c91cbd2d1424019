use rhai_host::error::{
    ErrorKind, EvalFault, EvaluationError, RhaiRustlerError, ScopeError, error_kind,
    error_message, fault_kind, kind_name, to_reason_pair,
};

fn eval_error(fault: EvalFault, message: &str) -> RhaiRustlerError {
    RhaiRustlerError::EvaluationError(EvaluationError {
        fault,
        message: String::from(message),
    })
}

#[test]
fn every_fault_maps_to_one_kind() {
    let cases = [
        (EvalFault::System, ErrorKind::System),
        (EvalFault::Parsing, ErrorKind::Parsing),
        (EvalFault::VariableExists, ErrorKind::VariableExists),
        (EvalFault::ForbiddenVariable, ErrorKind::ForbiddenVariable),
        (EvalFault::VariableNotFound, ErrorKind::VariableNotFound),
        (EvalFault::PropertyNotFound, ErrorKind::PropertyNotFound),
        (EvalFault::IndexNotFound, ErrorKind::IndexNotFound),
        (EvalFault::FunctionNotFound, ErrorKind::FunctionNotFound),
        (EvalFault::ModuleNotFound, ErrorKind::ModuleNotFound),
        (EvalFault::InFunctionCall, ErrorKind::InFunctionCall),
        (EvalFault::InModule, ErrorKind::InModule),
        (EvalFault::UnboundThis, ErrorKind::UnboundThis),
        (EvalFault::MismatchDataType, ErrorKind::MismatchDataType),
        (EvalFault::MismatchOutputType, ErrorKind::MismatchOutputType),
        (EvalFault::IndexingType, ErrorKind::IndexingType),
        (EvalFault::ArrayBounds, ErrorKind::ArrayBounds),
        (EvalFault::StringBounds, ErrorKind::StringBounds),
        (EvalFault::BitFieldBounds, ErrorKind::BitFieldBounds),
        (EvalFault::For, ErrorKind::For),
        (EvalFault::DataRace, ErrorKind::DataRace),
        (EvalFault::AssignmentToConstant, ErrorKind::AssignmentToConstant),
        (EvalFault::DotExpr, ErrorKind::DotExpr),
        (EvalFault::Arithmetic, ErrorKind::Arithmetic),
        (EvalFault::TooManyOperations, ErrorKind::TooManyOperations),
        (EvalFault::TooManyModules, ErrorKind::TooManyModules),
        (EvalFault::StackOverflow, ErrorKind::StackOverflow),
        (EvalFault::DataTooLarge, ErrorKind::DataTooLarge),
        (EvalFault::Terminated, ErrorKind::Terminated),
        (EvalFault::CustomSyntax, ErrorKind::CustomSyntax),
        (EvalFault::Runtime, ErrorKind::Runtime),
        (
            EvalFault::NonPureMethodCallOnConstant,
            ErrorKind::NonPureMethodCallOnConstant,
        ),
        // Anything the engine adds later degrades to the generic kind.
        (EvalFault::Unrecognized, ErrorKind::System),
    ];
    for (fault, kind) in cases {
        assert_eq!(fault_kind(fault), kind);
    }
}

#[test]
fn kind_names_are_stable() {
    assert_eq!(kind_name(ErrorKind::System), "system");
    assert_eq!(kind_name(ErrorKind::Parsing), "parsing");
    assert_eq!(kind_name(ErrorKind::For), "for");
    assert_eq!(kind_name(ErrorKind::TooManyOperations), "too_many_operations");
    assert_eq!(kind_name(ErrorKind::ScopeIsEmpty), "scope_is_empty");
    assert_eq!(
        kind_name(ErrorKind::CannotUpdateValueOfConstant),
        "cannot_update_value_of_constant"
    );
    assert_eq!(kind_name(ErrorKind::CustomOperator), "custom_operator");
    assert_eq!(kind_name(ErrorKind::Contention), "contention");
    assert_eq!(
        kind_name(ErrorKind::NonPureMethodCallOnConstant),
        "non_pure_method_call_on_constant"
    );
}

#[test]
fn whole_errors_map_to_kinds() {
    assert_eq!(
        error_kind(&eval_error(EvalFault::Arithmetic, "division by zero")),
        ErrorKind::Arithmetic
    );
    assert_eq!(
        error_kind(&RhaiRustlerError::ParseError(String::from("unexpected end"))),
        ErrorKind::Parsing
    );
    assert_eq!(
        error_kind(&RhaiRustlerError::ScopeError(ScopeError::ErrorScopeIsEmpty)),
        ErrorKind::ScopeIsEmpty
    );
    assert_eq!(
        error_kind(&RhaiRustlerError::ScopeError(ScopeError::ErrorCannotUpdateValueOfConstant)),
        ErrorKind::CannotUpdateValueOfConstant
    );
    assert_eq!(
        error_kind(&RhaiRustlerError::CustomOperatorError { message: String::from("bad") }),
        ErrorKind::CustomOperator
    );
    assert_eq!(error_kind(&RhaiRustlerError::Contention), ErrorKind::Contention);
}

#[test]
fn messages_survive_verbatim() {
    let e = eval_error(EvalFault::Runtime, "custom runtime text");
    assert_eq!(error_message(&e), "custom runtime text");
    let e = RhaiRustlerError::ParseError(String::from("line 3: oops"));
    assert_eq!(error_message(&e), "line 3: oops");
    let e = RhaiRustlerError::ScopeError(ScopeError::ErrorScopeIsEmpty);
    assert_eq!(error_message(&e), "The Scope is empty.");
    let e = RhaiRustlerError::ScopeError(ScopeError::ErrorCannotUpdateValueOfConstant);
    assert_eq!(error_message(&e), "Cannot update the value of a constant.");
}

#[test]
fn reason_pairs_combine_kind_and_message() {
    let (kind, message) = to_reason_pair(&eval_error(EvalFault::StackOverflow, "too deep"));
    assert_eq!(kind, "stack_overflow");
    assert_eq!(message, "too deep");
    let (kind, _) = to_reason_pair(&RhaiRustlerError::Contention);
    assert_eq!(kind, "contention");
}
