use yara_x_core::errors::{
    CompileError, CompileErrorInfo, CompilerError, EmitWasmError, ParseError,
    SerializationError,
};
use yara_x_core::types::Span;

#[test]
fn compile_error_carries_its_info() {
    let info = CompileErrorInfo::InvalidRange {
        detailed_report: "higher bound below lower bound".to_string(),
        span: Span { start: 12, end: 20 },
    };
    let err = CompileError::from(info);
    match err.info() {
        CompileErrorInfo::InvalidRange { detailed_report, span } => {
            assert_eq!(detailed_report, "higher bound below lower bound");
            assert_eq!(*span, Span { start: 12, end: 20 });
        }
        _ => panic!("wrong error kind"),
    }
}

#[test]
fn compiler_error_wraps_both_stages() {
    let parse = ParseError {
        detailed_report: "unexpected token".to_string(),
        span: Span { start: 0, end: 1 },
    };
    let e = CompilerError::from(parse);
    assert!(matches!(e, CompilerError::ParseError(_)));

    let compile = CompileError::from(CompileErrorInfo::EmptyPatternSet {
        detailed_report: "no pattern in this set".to_string(),
        span: Span { start: 4, end: 9 },
        note: None,
    });
    let e = CompilerError::from(compile);
    assert!(matches!(e, CompilerError::CompileError(_)));
}

#[test]
fn serialization_errors_carry_their_causes() {
    let from_io = SerializationError::from(std::io::Error::new(
        std::io::ErrorKind::UnexpectedEof,
        "truncated file",
    ));
    assert!(matches!(from_io, SerializationError::IoError(_)));

    let from_bincode = SerializationError::from(Box::new(bincode::ErrorKind::SizeLimit));
    assert!(matches!(from_bincode, SerializationError::InvalidEncoding(_)));

    let bad_magic = SerializationError::InvalidFormat;
    assert!(matches!(bad_magic, SerializationError::InvalidFormat));
}

#[test]
fn emit_error_wraps_the_emitters_report() {
    let cause = anyhow::Error::msg("guest module too large");
    let _e = EmitWasmError::from(cause);
}
