//! Typed error values the compiler raises.
//!
//! The core raises error kinds with structured fields and source
//! spans; rendering human-readable messages out of them is the
//! diagnostics collaborator's concern, so none of these types formats
//! text.

use vstd::prelude::*;

use crate::types::Span;

verus! {

/// Declares `anyhow::Error`, the opaque error value the guest-code
/// emission collaborator reports; the core only carries it.
#[verifier::external_type_specification]
#[verifier::external_body]
pub struct ExAnyhowError(anyhow::Error);

/// Declares `bincode::ErrorKind`, the error the serialization
/// collaborator reports for a malformed compiled-rules file; the core
/// only carries it.
#[verifier::external_type_specification]
#[verifier::external_body]
pub struct ExBincodeErrorKind(bincode::ErrorKind);

/// Declares `std::io::Error`, the error of a failed read or write of
/// a compiled-rules file; the core only carries it.
#[verifier::external_type_specification]
#[verifier::external_body]
pub struct ExIoError(std::io::Error);

/// Errors returned while serializing or deserializing compiled rules.
pub enum SerializationError {
    /// The data read is not a compiled-rules file.
    InvalidFormat,
    /// The compiled-rules file is recognized but malformed.
    InvalidEncoding(Box<bincode::ErrorKind>),
    /// The underlying read or write failed.
    IoError(std::io::Error),
}

impl From<Box<bincode::ErrorKind>> for SerializationError {
    fn from(e: Box<bincode::ErrorKind>) -> (r: Self) {
        SerializationError::InvalidEncoding(e)
    }
}

impl vstd::std_specs::convert::FromSpecImpl<Box<bincode::ErrorKind>> for SerializationError {
    open spec fn obeys_from_spec() -> bool {
        true
    }

    open spec fn from_spec(e: Box<bincode::ErrorKind>) -> Self {
        SerializationError::InvalidEncoding(e)
    }
}

impl From<std::io::Error> for SerializationError {
    fn from(e: std::io::Error) -> (r: Self) {
        SerializationError::IoError(e)
    }
}

impl vstd::std_specs::convert::FromSpecImpl<std::io::Error> for SerializationError {
    open spec fn obeys_from_spec() -> bool {
        true
    }

    open spec fn from_spec(e: std::io::Error) -> Self {
        SerializationError::IoError(e)
    }
}

/// Error returned when emitting compiled rules as a guest-code module
/// fails.
pub struct EmitWasmError(anyhow::Error);

impl From<anyhow::Error> for EmitWasmError {
    fn from(e: anyhow::Error) -> (r: Self) {
        EmitWasmError(e)
    }
}

impl vstd::std_specs::convert::FromSpecImpl<anyhow::Error> for EmitWasmError {
    open spec fn obeys_from_spec() -> bool {
        true
    }

    closed spec fn from_spec(e: anyhow::Error) -> Self {
        EmitWasmError(e)
    }
}

/// The error the parsing collaborator reports when rule source cannot
/// be turned into a syntax tree. The core does not parse; it only
/// carries the value through.
#[derive(Debug)]
pub struct ParseError {
    /// Structured data describing the syntax error.
    pub detailed_report: String,
    /// Where in the source the error was found.
    pub span: Span,
}

/// Errors returned by the compiler.
pub enum CompilerError {
    /// The rule source could not be parsed.
    ParseError(ParseError),
    /// The rules parsed but did not compile.
    CompileError(CompileError),
}

impl From<ParseError> for CompilerError {
    fn from(e: ParseError) -> (r: Self) {
        CompilerError::ParseError(e)
    }
}

impl vstd::std_specs::convert::FromSpecImpl<ParseError> for CompilerError {
    open spec fn obeys_from_spec() -> bool {
        true
    }

    open spec fn from_spec(e: ParseError) -> Self {
        CompilerError::ParseError(e)
    }
}

impl From<CompileError> for CompilerError {
    fn from(e: CompileError) -> (r: Self) {
        CompilerError::CompileError(e)
    }
}

impl vstd::std_specs::convert::FromSpecImpl<CompileError> for CompilerError {
    open spec fn obeys_from_spec() -> bool {
        true
    }

    open spec fn from_spec(e: CompileError) -> Self {
        CompilerError::CompileError(e)
    }
}

/// Error produced while compiling rules: the kind and its structured
/// fields, boxed to keep the value small on the paths that carry it.
pub struct CompileError(Box<CompileErrorInfo>);

impl CompileError {
    /// The information this error carries.
    pub closed spec fn spec_info(self) -> CompileErrorInfo {
        *self.0
    }

    /// Returns additional information about the error.
    pub fn info(&self) -> (r: &CompileErrorInfo)
        ensures
            *r == self.spec_info(),
    {
        &*self.0
    }
}

impl From<CompileErrorInfo> for CompileError {
    fn from(e: CompileErrorInfo) -> (r: Self)
        ensures
            r.spec_info() == e,
    {
        CompileError(Box::new(e))
    }
}

impl vstd::std_specs::convert::FromSpecImpl<CompileErrorInfo> for CompileError {
    open spec fn obeys_from_spec() -> bool {
        true
    }

    closed spec fn from_spec(e: CompileErrorInfo) -> Self {
        CompileError(Box::new(e))
    }
}

/// An error that occurred during the compilation process: the kind
/// with the structured data the diagnostics collaborator needs to
/// render it.
#[non_exhaustive]
pub enum CompileErrorInfo {
    /// An expression has a type other than the ones the construct
    /// around it accepts.
    WrongType { detailed_report: String, expected_types: String, actual_type: String, expression_span: Span },
    /// Two expressions that must agree in type do not.
    MismatchingTypes {
        detailed_report: String,
        type1: String,
        type2: String,
        type1_span: Span,
        type2_span: Span,
    },
    /// A call passes arguments no signature of the callee accepts.
    WrongArguments { detailed_report: String, args_span: Span, note: Option<String> },
    /// An iteration binds a different number of values than the
    /// iterable produces.
    AssignmentMismatch {
        detailed_report: String,
        expected_values: u8,
        actual_values: u8,
        iterable_span: Span,
        error_span: Span,
    },
    /// A number that must not be negative is.
    UnexpectedNegativeNumber { detailed_report: String, span: Span },
    /// A number falls outside the allowed range.
    NumberOutOfRange { detailed_report: String, min: i64, max: i64, span: Span },
    /// An identifier has not been declared.
    UnknownIdentifier {
        detailed_report: String,
        identifier: String,
        span: Span,
        note: Option<String>,
    },
    /// A module of the given name does not exist.
    UnknownModule { detailed_report: String, identifier: String, span: Span },
    /// A range's higher bound is below its lower bound.
    InvalidRange { detailed_report: String, span: Span },
    /// A rule is declared twice.
    DuplicateRule {
        detailed_report: String,
        new_rule: String,
        new_rule_span: Span,
        existing_rule_span: Span,
    },
    /// A rule's identifier is already taken by a module or global
    /// variable.
    ConflictingRuleIdentifier { detailed_report: String, ident: String, ident_span: Span },
    /// A global rule depends on a non-global one.
    WrongRuleDependency {
        detailed_report: String,
        global_rule: String,
        non_global_rule: String,
        global_rule_span: Span,
        non_global_rule_span: Span,
        non_global_rule_usage_span: Span,
    },
    /// A regular expression does not compile.
    InvalidRegexp { detailed_report: String, error: String, span: Span },
    /// A regular expression mixes greedy and non-greedy quantifiers.
    MixedGreediness {
        detailed_report: String,
        quantifier1_greediness: String,
        quantifier2_greediness: String,
        quantifier1_span: Span,
        quantifier2_span: Span,
    },
    /// A pattern set matches no pattern of the rule.
    EmptyPatternSet { detailed_report: String, span: Span, note: Option<String> },
}

} // verus!
