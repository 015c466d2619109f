use yara_x_core::export::{RegistrationError, WasmExportArgs, WasmExports};
use yara_x_core::signature::{FuncSignature, TypeExpr};
use yara_x_core::types::Span;

fn span() -> Span {
    Span { start: 0, end: 0 }
}

fn ident(name: &str) -> TypeExpr {
    TypeExpr::Ident { name: name.to_string(), span: span() }
}

fn caller() -> TypeExpr {
    ident("Caller")
}

fn no_attr() -> WasmExportArgs {
    WasmExportArgs { name: None, public: false }
}

fn add_signature() -> FuncSignature {
    FuncSignature {
        args: vec![caller(), ident("i64"), ident("i64")],
        ret: Some(ident("i64")),
    }
}

#[test]
fn registration_builds_the_descriptor() {
    let mut registry = WasmExports::new();
    registry
        .register("add", &no_attr(), "host::math", &add_signature(), 17)
        .unwrap();
    let e = registry.find("host::math", "add", "add@ii@i").unwrap();
    assert_eq!(e.name, "add");
    assert_eq!(e.mangled_name, "add@ii@i");
    assert_eq!(e.rust_module_path, "host::math");
    assert!(!e.public);
    // One trampoline shape per arity: two parameters besides the
    // context handle.
    assert_eq!(e.func.arity, 2);
    assert_eq!(e.func.host_fn, 17);
}

#[test]
fn export_name_can_be_overridden() {
    let mut registry = WasmExports::new();
    let attr = WasmExportArgs { name: Some("sum".to_string()), public: true };
    registry
        .register("add", &attr, "host::math", &add_signature(), 0)
        .unwrap();
    let e = registry.find("host::math", "sum", "sum@ii@i").unwrap();
    assert_eq!(e.name, "sum");
    assert!(e.public);
    assert!(registry.find("host::math", "add", "add@ii@i").is_none());
}

#[test]
fn duplicate_triple_is_rejected_but_overloads_coexist() {
    let mut registry = WasmExports::new();
    registry
        .register("add", &no_attr(), "host::math", &add_signature(), 0)
        .unwrap();

    // The identical (module path, name, encoded signature) triple is
    // refused...
    let r = registry.register("add", &no_attr(), "host::math", &add_signature(), 1);
    match r {
        Err(RegistrationError::Duplicate { rust_module_path, mangled_name }) => {
            assert_eq!(rust_module_path, "host::math");
            assert_eq!(mangled_name, "add@ii@i");
        }
        other => panic!("expected a duplicate error, got {:?}", other),
    }

    // ...the same name under another module path is a different
    // export...
    registry
        .register("add", &no_attr(), "host::text", &add_signature(), 2)
        .unwrap();

    // ...and the same name with another signature is an overload; both
    // remain independently resolvable.
    let overload = FuncSignature { args: vec![caller(), ident("f64")], ret: Some(ident("f64")) };
    registry
        .register("add", &no_attr(), "host::math", &overload, 3)
        .unwrap();
    assert!(registry.find("host::math", "add", "add@ii@i").is_some());
    assert!(registry.find("host::math", "add", "add@f@f").is_some());
    assert!(registry.find("host::text", "add", "add@ii@i").is_some());
}

#[test]
fn failed_registrations_name_the_function() {
    let mut registry = WasmExports::new();

    let r = registry.register(
        "orphan",
        &no_attr(),
        "host::math",
        &FuncSignature { args: vec![], ret: None },
        0,
    );
    match r {
        Err(RegistrationError::MissingContextParam { function }) => {
            assert_eq!(function, "orphan")
        }
        other => panic!("expected a missing-context error, got {:?}", other),
    }

    let r = registry.register(
        "bad",
        &no_attr(),
        "host::math",
        &FuncSignature { args: vec![caller(), ident("String")], ret: None },
        0,
    );
    match r {
        Err(RegistrationError::UnsupportedType { function, name, .. }) => {
            assert_eq!(function, "bad");
            assert_eq!(name, "String");
        }
        other => panic!("expected an unsupported-type error, got {:?}", other),
    }

    // Nothing was inserted by the failed attempts.
    assert!(registry.find("host::math", "orphan", "orphan@@").is_none());
    assert!(registry.find("host::math", "bad", "bad@s@").is_none());
}
