use yara_x_core::signature::{mangled_signature, FuncSignature, SignatureError, TypeExpr};
use yara_x_core::types::Span;

fn span() -> Span {
    Span { start: 0, end: 0 }
}

fn ident(name: &str) -> TypeExpr {
    TypeExpr::Ident { name: name.to_string(), span: span() }
}

fn caller() -> TypeExpr {
    ident("Caller")
}

fn optional(inner: TypeExpr) -> TypeExpr {
    TypeExpr::Optional { inner: Box::new(inner), span: span() }
}

fn tuple(elems: Vec<TypeExpr>) -> TypeExpr {
    TypeExpr::Tuple { elems, span: span() }
}

fn encode(args: Vec<TypeExpr>, ret: Option<TypeExpr>) -> String {
    mangled_signature(&FuncSignature { args, ret }).unwrap()
}

#[test]
fn func_signature_parser() {
    // fn foo(caller: Caller<'_, ScanContext>) { }
    assert_eq!(encode(vec![caller()], None), "@@");

    // fn foo(caller: Caller<'_, ScanContext>) -> i32 { 0 }
    assert_eq!(encode(vec![caller()], Some(ident("i32"))), "@@i");

    // fn foo(caller: Caller<'_, ScanContext>) -> (i32, i32) { (0,0) }
    assert_eq!(
        encode(vec![caller()], Some(tuple(vec![ident("i32"), ident("i32")]))),
        "@@ii"
    );

    // fn foo(caller: Caller<'_, ScanContext>, a: i32, b: i32) -> i32 { a + b }
    assert_eq!(
        encode(vec![caller(), ident("i32"), ident("i32")], Some(ident("i32"))),
        "@ii@i"
    );

    // fn foo(caller: Caller<'_, ScanContext>) -> Option<()> { None }
    assert_eq!(encode(vec![caller()], Some(optional(tuple(vec![])))), "@@u");

    // fn foo(caller: Caller<'_, ScanContext>) -> Option<i64> { None }
    assert_eq!(encode(vec![caller()], Some(optional(ident("i64")))), "@@iu");

    // fn foo(caller: Caller<'_, ScanContext>) -> Option<i64> { None }
    assert_eq!(encode(vec![caller()], Some(optional(ident("i64")))), "@@iu");

    // fn foo(caller: Caller<'_, ScanContext>) -> Option<(i64, f64)> { None }
    assert_eq!(
        encode(
            vec![caller()],
            Some(optional(tuple(vec![ident("i64"), ident("f64")])))
        ),
        "@@ifu"
    );

    // fn foo(caller: Caller<'_, ScanContext>) { }
    assert_eq!(encode(vec![caller()], None), "@@");

    // fn foo(caller: Caller<'_, ScanContext>) -> (i64, RuntimeString) { }
    assert_eq!(
        encode(
            vec![caller()],
            Some(tuple(vec![ident("i64"), ident("RuntimeString")]))
        ),
        "@@is"
    );
}

#[test]
fn whole_alphabet_round_trips() {
    // Every row of the encoding table maps to exactly one code.
    let rows = [
        ("i32", "i"),
        ("i64", "i"),
        ("f32", "f"),
        ("f64", "f"),
        ("bool", "b"),
        ("PatternId", "i"),
        ("RuleId", "i"),
        ("RegexpId", "r"),
        ("RuntimeString", "s"),
    ];
    for (name, code) in rows {
        assert_eq!(
            encode(vec![caller(), ident(name)], None),
            format!("@{}@", code)
        );
        // Nullable-of-T round-trips to the base code plus the `u`
        // suffix.
        assert_eq!(
            encode(vec![caller()], Some(optional(ident(name)))),
            format!("@@{}u", code)
        );
    }
}

#[test]
fn encoding_is_deterministic() {
    let make = || {
        (
            vec![caller(), ident("bool"), optional(ident("RegexpId"))],
            Some(tuple(vec![ident("i64"), ident("f64")])),
        )
    };
    let (a1, r1) = make();
    let (a2, r2) = make();
    assert_eq!(encode(a1, r1), encode(a2, r2));
}

#[test]
fn unsupported_type_is_rejected() {
    let s = Span { start: 3, end: 9 };
    let bad = TypeExpr::Ident { name: "String".to_string(), span: s };
    let r = mangled_signature(&FuncSignature { args: vec![caller(), bad], ret: None });
    match r {
        Err(SignatureError::UnsupportedType { name, span }) => {
            assert_eq!(name, "String");
            assert_eq!(span, s);
        }
        other => panic!("expected an unsupported-type error, got {:?}", other),
    }
}

#[test]
fn nullable_of_nullable_is_rejected() {
    let r = mangled_signature(&FuncSignature {
        args: vec![caller()],
        ret: Some(optional(optional(ident("i64")))),
    });
    match r {
        Err(SignatureError::UnsupportedType { name, .. }) => assert_eq!(name, "Option"),
        other => panic!("expected an unsupported-type error, got {:?}", other),
    }
}

#[test]
fn missing_context_param_is_rejected() {
    // No parameters at all.
    let r = mangled_signature(&FuncSignature { args: vec![], ret: None });
    assert!(matches!(r, Err(SignatureError::MissingContextParam)));

    // A first parameter of the wrong type.
    let r = mangled_signature(&FuncSignature {
        args: vec![ident("i64")],
        ret: Some(ident("i64")),
    });
    assert!(matches!(r, Err(SignatureError::MissingContextParam)));
}
