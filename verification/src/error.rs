//! The error taxonomy: every internal failure surfaces as one stable
//! kind tag out of a closed enumeration, plus the engine's own rendered
//! message, preserved verbatim for diagnostics.
//!
//! The mapping is total: an engine failure that matches no enumerated
//! fault degrades to the generic system kind instead of crashing.

use vstd::prelude::*;

verus! {

/// Failures raised by the scope operations themselves.
#[derive(Debug, Clone, Copy, PartialEq, Eq, Structural)]
pub enum ScopeError {
    ErrorScopeIsEmpty,
    ErrorCannotUpdateValueOfConstant,
}

/// The engine's evaluation-failure categories, one variant per failure
/// the embedded engine distinguishes; `Unrecognized` stands for any
/// variant the engine may add in the future.
#[derive(Debug, Clone, Copy, PartialEq, Eq, Structural)]
pub enum EvalFault {
    System,
    Parsing,
    VariableExists,
    ForbiddenVariable,
    VariableNotFound,
    PropertyNotFound,
    IndexNotFound,
    FunctionNotFound,
    ModuleNotFound,
    InFunctionCall,
    InModule,
    UnboundThis,
    MismatchDataType,
    MismatchOutputType,
    IndexingType,
    ArrayBounds,
    StringBounds,
    BitFieldBounds,
    For,
    DataRace,
    AssignmentToConstant,
    DotExpr,
    Arithmetic,
    TooManyOperations,
    TooManyModules,
    StackOverflow,
    DataTooLarge,
    Terminated,
    CustomSyntax,
    Runtime,
    NonPureMethodCallOnConstant,
    Unrecognized,
}

/// An evaluation failure: the engine's fault category plus the engine's
/// rendered description of it.
#[derive(Debug, PartialEq)]
pub struct EvaluationError {
    pub fault: EvalFault,
    pub message: String,
}

/// Everything an operation on a handle can fail with.
#[derive(Debug, PartialEq)]
pub enum RhaiRustlerError {
    EvaluationError(EvaluationError),
    /// The source text was not syntactically valid; the message is the
    /// engine's description of the parse failure.
    ParseError(String),
    ScopeError(ScopeError),
    CustomOperatorError { message: String },
    /// The handle's lock was already held by another caller.
    Contention,
}

/// The closed set of kind tags a failed call reports to the host.
#[derive(Debug, Clone, Copy, PartialEq, Eq, Structural)]
pub enum ErrorKind {
    System,
    Parsing,
    VariableExists,
    ForbiddenVariable,
    VariableNotFound,
    PropertyNotFound,
    IndexNotFound,
    FunctionNotFound,
    ModuleNotFound,
    InFunctionCall,
    InModule,
    UnboundThis,
    MismatchDataType,
    MismatchOutputType,
    IndexingType,
    ArrayBounds,
    StringBounds,
    BitFieldBounds,
    For,
    DataRace,
    AssignmentToConstant,
    DotExpr,
    Arithmetic,
    TooManyOperations,
    TooManyModules,
    StackOverflow,
    DataTooLarge,
    Terminated,
    CustomSyntax,
    Runtime,
    NonPureMethodCallOnConstant,
    ScopeIsEmpty,
    CannotUpdateValueOfConstant,
    CustomOperator,
    Contention,
}

/// The kind tag of each engine fault. Faults the taxonomy does not
/// recognize fall back to the generic system kind.
pub open spec fn fault_kind_spec(f: EvalFault) -> ErrorKind {
    match f {
        EvalFault::System => ErrorKind::System,
        EvalFault::Parsing => ErrorKind::Parsing,
        EvalFault::VariableExists => ErrorKind::VariableExists,
        EvalFault::ForbiddenVariable => ErrorKind::ForbiddenVariable,
        EvalFault::VariableNotFound => ErrorKind::VariableNotFound,
        EvalFault::PropertyNotFound => ErrorKind::PropertyNotFound,
        EvalFault::IndexNotFound => ErrorKind::IndexNotFound,
        EvalFault::FunctionNotFound => ErrorKind::FunctionNotFound,
        EvalFault::ModuleNotFound => ErrorKind::ModuleNotFound,
        EvalFault::InFunctionCall => ErrorKind::InFunctionCall,
        EvalFault::InModule => ErrorKind::InModule,
        EvalFault::UnboundThis => ErrorKind::UnboundThis,
        EvalFault::MismatchDataType => ErrorKind::MismatchDataType,
        EvalFault::MismatchOutputType => ErrorKind::MismatchOutputType,
        EvalFault::IndexingType => ErrorKind::IndexingType,
        EvalFault::ArrayBounds => ErrorKind::ArrayBounds,
        EvalFault::StringBounds => ErrorKind::StringBounds,
        EvalFault::BitFieldBounds => ErrorKind::BitFieldBounds,
        EvalFault::For => ErrorKind::For,
        EvalFault::DataRace => ErrorKind::DataRace,
        EvalFault::AssignmentToConstant => ErrorKind::AssignmentToConstant,
        EvalFault::DotExpr => ErrorKind::DotExpr,
        EvalFault::Arithmetic => ErrorKind::Arithmetic,
        EvalFault::TooManyOperations => ErrorKind::TooManyOperations,
        EvalFault::TooManyModules => ErrorKind::TooManyModules,
        EvalFault::StackOverflow => ErrorKind::StackOverflow,
        EvalFault::DataTooLarge => ErrorKind::DataTooLarge,
        EvalFault::Terminated => ErrorKind::Terminated,
        EvalFault::CustomSyntax => ErrorKind::CustomSyntax,
        EvalFault::Runtime => ErrorKind::Runtime,
        EvalFault::NonPureMethodCallOnConstant => ErrorKind::NonPureMethodCallOnConstant,
        EvalFault::Unrecognized => ErrorKind::System,
    }
}

/// Map an engine fault to its kind tag; total over every fault.
pub fn fault_kind(f: EvalFault) -> (k: ErrorKind)
    ensures
        k == fault_kind_spec(f),
{
    match f {
        EvalFault::System => ErrorKind::System,
        EvalFault::Parsing => ErrorKind::Parsing,
        EvalFault::VariableExists => ErrorKind::VariableExists,
        EvalFault::ForbiddenVariable => ErrorKind::ForbiddenVariable,
        EvalFault::VariableNotFound => ErrorKind::VariableNotFound,
        EvalFault::PropertyNotFound => ErrorKind::PropertyNotFound,
        EvalFault::IndexNotFound => ErrorKind::IndexNotFound,
        EvalFault::FunctionNotFound => ErrorKind::FunctionNotFound,
        EvalFault::ModuleNotFound => ErrorKind::ModuleNotFound,
        EvalFault::InFunctionCall => ErrorKind::InFunctionCall,
        EvalFault::InModule => ErrorKind::InModule,
        EvalFault::UnboundThis => ErrorKind::UnboundThis,
        EvalFault::MismatchDataType => ErrorKind::MismatchDataType,
        EvalFault::MismatchOutputType => ErrorKind::MismatchOutputType,
        EvalFault::IndexingType => ErrorKind::IndexingType,
        EvalFault::ArrayBounds => ErrorKind::ArrayBounds,
        EvalFault::StringBounds => ErrorKind::StringBounds,
        EvalFault::BitFieldBounds => ErrorKind::BitFieldBounds,
        EvalFault::For => ErrorKind::For,
        EvalFault::DataRace => ErrorKind::DataRace,
        EvalFault::AssignmentToConstant => ErrorKind::AssignmentToConstant,
        EvalFault::DotExpr => ErrorKind::DotExpr,
        EvalFault::Arithmetic => ErrorKind::Arithmetic,
        EvalFault::TooManyOperations => ErrorKind::TooManyOperations,
        EvalFault::TooManyModules => ErrorKind::TooManyModules,
        EvalFault::StackOverflow => ErrorKind::StackOverflow,
        EvalFault::DataTooLarge => ErrorKind::DataTooLarge,
        EvalFault::Terminated => ErrorKind::Terminated,
        EvalFault::CustomSyntax => ErrorKind::CustomSyntax,
        EvalFault::Runtime => ErrorKind::Runtime,
        EvalFault::NonPureMethodCallOnConstant => ErrorKind::NonPureMethodCallOnConstant,
        EvalFault::Unrecognized => ErrorKind::System,
    }
}

/// The kind tag of a whole error value.
pub open spec fn error_kind_spec(e: RhaiRustlerError) -> ErrorKind {
    match e {
        RhaiRustlerError::EvaluationError(ee) => fault_kind_spec(ee.fault),
        RhaiRustlerError::ParseError(_) => ErrorKind::Parsing,
        RhaiRustlerError::ScopeError(ScopeError::ErrorScopeIsEmpty) => ErrorKind::ScopeIsEmpty,
        RhaiRustlerError::ScopeError(ScopeError::ErrorCannotUpdateValueOfConstant)
            => ErrorKind::CannotUpdateValueOfConstant,
        RhaiRustlerError::CustomOperatorError { .. } => ErrorKind::CustomOperator,
        RhaiRustlerError::Contention => ErrorKind::Contention,
    }
}

/// Map an error to its kind tag; total over every error.
pub fn error_kind(e: &RhaiRustlerError) -> (k: ErrorKind)
    ensures
        k == error_kind_spec(*e),
{
    match e {
        RhaiRustlerError::EvaluationError(ee) => fault_kind(ee.fault),
        RhaiRustlerError::ParseError(_) => ErrorKind::Parsing,
        RhaiRustlerError::ScopeError(ScopeError::ErrorScopeIsEmpty) => ErrorKind::ScopeIsEmpty,
        RhaiRustlerError::ScopeError(ScopeError::ErrorCannotUpdateValueOfConstant)
            => ErrorKind::CannotUpdateValueOfConstant,
        RhaiRustlerError::CustomOperatorError { .. } => ErrorKind::CustomOperator,
        RhaiRustlerError::Contention => ErrorKind::Contention,
    }
}

/// The stable text tag of each kind, as the host reports it.
pub open spec fn kind_name_spec(k: ErrorKind) -> Seq<char> {
    match k {
        ErrorKind::System => "system"@,
        ErrorKind::Parsing => "parsing"@,
        ErrorKind::VariableExists => "variable_exists"@,
        ErrorKind::ForbiddenVariable => "forbidden_variable"@,
        ErrorKind::VariableNotFound => "variable_not_found"@,
        ErrorKind::PropertyNotFound => "property_not_found"@,
        ErrorKind::IndexNotFound => "index_not_found"@,
        ErrorKind::FunctionNotFound => "function_not_found"@,
        ErrorKind::ModuleNotFound => "module_not_found"@,
        ErrorKind::InFunctionCall => "in_function_call"@,
        ErrorKind::InModule => "in_module"@,
        ErrorKind::UnboundThis => "unbound_this"@,
        ErrorKind::MismatchDataType => "mismatch_data_type"@,
        ErrorKind::MismatchOutputType => "mismatch_output_type"@,
        ErrorKind::IndexingType => "indexing_type"@,
        ErrorKind::ArrayBounds => "array_bounds"@,
        ErrorKind::StringBounds => "string_bounds"@,
        ErrorKind::BitFieldBounds => "bit_field_bounds"@,
        ErrorKind::For => "for"@,
        ErrorKind::DataRace => "data_race"@,
        ErrorKind::AssignmentToConstant => "assignment_to_constant"@,
        ErrorKind::DotExpr => "dot_expr"@,
        ErrorKind::Arithmetic => "arithmetic"@,
        ErrorKind::TooManyOperations => "too_many_operations"@,
        ErrorKind::TooManyModules => "too_many_modules"@,
        ErrorKind::StackOverflow => "stack_overflow"@,
        ErrorKind::DataTooLarge => "data_too_large"@,
        ErrorKind::Terminated => "terminated"@,
        ErrorKind::CustomSyntax => "custom_syntax"@,
        ErrorKind::Runtime => "runtime"@,
        ErrorKind::NonPureMethodCallOnConstant => "non_pure_method_call_on_constant"@,
        ErrorKind::ScopeIsEmpty => "scope_is_empty"@,
        ErrorKind::CannotUpdateValueOfConstant => "cannot_update_value_of_constant"@,
        ErrorKind::CustomOperator => "custom_operator"@,
        ErrorKind::Contention => "contention"@,
    }
}

/// The stable text tag of a kind.
pub fn kind_name(k: ErrorKind) -> (r: &'static str)
    ensures
        r@ == kind_name_spec(k),
{
    match k {
        ErrorKind::System => "system",
        ErrorKind::Parsing => "parsing",
        ErrorKind::VariableExists => "variable_exists",
        ErrorKind::ForbiddenVariable => "forbidden_variable",
        ErrorKind::VariableNotFound => "variable_not_found",
        ErrorKind::PropertyNotFound => "property_not_found",
        ErrorKind::IndexNotFound => "index_not_found",
        ErrorKind::FunctionNotFound => "function_not_found",
        ErrorKind::ModuleNotFound => "module_not_found",
        ErrorKind::InFunctionCall => "in_function_call",
        ErrorKind::InModule => "in_module",
        ErrorKind::UnboundThis => "unbound_this",
        ErrorKind::MismatchDataType => "mismatch_data_type",
        ErrorKind::MismatchOutputType => "mismatch_output_type",
        ErrorKind::IndexingType => "indexing_type",
        ErrorKind::ArrayBounds => "array_bounds",
        ErrorKind::StringBounds => "string_bounds",
        ErrorKind::BitFieldBounds => "bit_field_bounds",
        ErrorKind::For => "for",
        ErrorKind::DataRace => "data_race",
        ErrorKind::AssignmentToConstant => "assignment_to_constant",
        ErrorKind::DotExpr => "dot_expr",
        ErrorKind::Arithmetic => "arithmetic",
        ErrorKind::TooManyOperations => "too_many_operations",
        ErrorKind::TooManyModules => "too_many_modules",
        ErrorKind::StackOverflow => "stack_overflow",
        ErrorKind::DataTooLarge => "data_too_large",
        ErrorKind::Terminated => "terminated",
        ErrorKind::CustomSyntax => "custom_syntax",
        ErrorKind::Runtime => "runtime",
        ErrorKind::NonPureMethodCallOnConstant => "non_pure_method_call_on_constant",
        ErrorKind::ScopeIsEmpty => "scope_is_empty",
        ErrorKind::CannotUpdateValueOfConstant => "cannot_update_value_of_constant",
        ErrorKind::CustomOperator => "custom_operator",
        ErrorKind::Contention => "contention",
    }
}

/// The human-readable message of an error, preserved verbatim from the
/// engine where the engine produced one.
pub fn error_message(e: &RhaiRustlerError) -> (r: String)
    ensures
        e matches RhaiRustlerError::EvaluationError(ee) ==> r@ == ee.message@,
        e matches RhaiRustlerError::ParseError(m) ==> r@ == m@,
        e matches RhaiRustlerError::ScopeError(ScopeError::ErrorScopeIsEmpty) ==> r@
            == "The Scope is empty."@,
        e matches RhaiRustlerError::ScopeError(ScopeError::ErrorCannotUpdateValueOfConstant) ==> r@
            == "Cannot update the value of a constant."@,
        e matches RhaiRustlerError::CustomOperatorError { message } ==> r@ == message@,
        e matches RhaiRustlerError::Contention ==> r@ == "The handle is locked by another caller."@,
{
    match e {
        RhaiRustlerError::EvaluationError(ee) => ee.message.clone(),
        RhaiRustlerError::ParseError(m) => m.clone(),
        RhaiRustlerError::ScopeError(ScopeError::ErrorScopeIsEmpty) => String::from_str(
            "The Scope is empty.",
        ),
        RhaiRustlerError::ScopeError(ScopeError::ErrorCannotUpdateValueOfConstant)
            => String::from_str("Cannot update the value of a constant."),
        RhaiRustlerError::CustomOperatorError { message } => message.clone(),
        RhaiRustlerError::Contention => String::from_str("The handle is locked by another caller."),
    }
}

/// A failed call reports the pair the host pattern-matches on: the kind
/// tag's stable text and the diagnostic message.
pub fn to_reason_pair(e: &RhaiRustlerError) -> (r: (String, String))
    ensures
        r.0@ == kind_name_spec(error_kind_spec(*e)),
        e matches RhaiRustlerError::EvaluationError(ee) ==> r.1@ == ee.message@,
        e matches RhaiRustlerError::ParseError(m) ==> r.1@ == m@,
        e matches RhaiRustlerError::ScopeError(ScopeError::ErrorScopeIsEmpty) ==> r.1@
            == "The Scope is empty."@,
        e matches RhaiRustlerError::ScopeError(ScopeError::ErrorCannotUpdateValueOfConstant)
            ==> r.1@ == "Cannot update the value of a constant."@,
        e matches RhaiRustlerError::CustomOperatorError { message } ==> r.1@ == message@,
        e matches RhaiRustlerError::Contention ==> r.1@
            == "The handle is locked by another caller."@,
{
    let kind = error_kind(e);
    let name = kind_name(kind);
    (String::from_str(name), error_message(e))
}

} // verus!
