//! Canonical encoding of a host function's signature.
//!
//! Every host function exported to the guest gets a mangled name: its
//! export name followed by `@<parameter codes>@<return codes>`, one
//! code per type drawn from a fixed alphabet. Equal type lists always
//! produce equal encodings, so the encoded suffix doubles as an
//! overload-discriminating key: the guest's import name is the ABI
//! contract, with no separate lookup table at the boundary.
//!
//! The first declared parameter of every exported function is the
//! mandatory execution-context handle; it is checked and excluded from
//! the encoding. Any other parameter or return element whose type is
//! not in the alphabet fails encoding, as does a nullable wrapper
//! around another nullable wrapper.

use vstd::prelude::*;
use vstd::string::StringExecFns;

use crate::types::Span;

verus! {

/// A host function's parameter or return type, as the registrar sees
/// it: a plain type by the identifier of its last path segment, a
/// nullable wrapper, or a tuple of types.
#[derive(Debug)]
pub enum TypeExpr {
    /// A plain type, named by its identifier (`i64`, `bool`, ...).
    Ident { name: String, span: Span },
    /// A nullable wrapper around another type.
    Optional { inner: Box<TypeExpr>, span: Span },
    /// An ordered tuple of types; the empty tuple is the unit type.
    Tuple { elems: Vec<TypeExpr>, span: Span },
}

/// A host function's full signature: its parameters in declaration
/// order (the leading execution-context handle included) and its
/// return type, if it returns anything.
#[derive(Debug)]
pub struct FuncSignature {
    pub args: Vec<TypeExpr>,
    pub ret: Option<TypeExpr>,
}

/// Why a signature failed to encode.
#[derive(Debug)]
pub enum SignatureError {
    /// A parameter or return element's type is not in the encoding
    /// table. Carries the offending type's name and source location
    /// for the diagnostics collaborator.
    UnsupportedType { name: String, span: Span },
    /// The mandatory leading execution-context parameter is missing or
    /// of the wrong type.
    MissingContextParam,
}

/// The encoding table: the code of a plain type, by name, or `None`
/// for a type outside the fixed alphabet. Pattern and rule handles are
/// represented as plain integers at the ABI level and share the
/// integer code.
pub open spec fn ident_code(name: Seq<char>) -> Option<Seq<char>> {
    if name == "i32"@ || name == "i64"@ {
        Some("i"@)
    } else if name == "f32"@ || name == "f64"@ {
        Some("f"@)
    } else if name == "bool"@ {
        Some("b"@)
    } else if name == "PatternId"@ || name == "RuleId"@ {
        Some("i"@)
    } else if name == "RegexpId"@ {
        Some("r"@)
    } else if name == "RuntimeString"@ {
        Some("s"@)
    } else {
        None
    }
}

/// The code of one type expression: a table code, a base code with the
/// nullable suffix `u` (one level deep only: nullable-of-nullable is
/// not a modeled case and does not encode), or the concatenated codes
/// of a tuple's elements.
pub open spec fn type_code(t: TypeExpr) -> Option<Seq<char>>
    decreases t, 0int,
{
    match t {
        TypeExpr::Ident { name, .. } => ident_code(name@),
        TypeExpr::Optional { inner, .. } => {
            if *inner matches TypeExpr::Optional { .. } {
                None
            } else {
                match type_code(*inner) {
                    Some(code) => Some(code + "u"@),
                    None => None,
                }
            }
        },
        TypeExpr::Tuple { elems, .. } => types_code(elems@, 0),
    }
}

/// The concatenated codes of `elems[i..]`, in declaration order with
/// no separator; `None` as soon as any element fails to encode.
pub open spec fn types_code(elems: Seq<TypeExpr>, i: int) -> Option<Seq<char>>
    decreases elems, elems.len() - i,
{
    if i < 0 || i >= elems.len() {
        Some(Seq::empty())
    } else {
        match (type_code(elems[i]), types_code(elems, i + 1)) {
            (Some(code), Some(rest)) => Some(code + rest),
            _ => None,
        }
    }
}

/// The code of a return type: empty when the function returns nothing.
pub open spec fn ret_code(ret: Option<TypeExpr>) -> Option<Seq<char>> {
    match ret {
        None => Some(Seq::<char>::empty()),
        Some(t) => type_code(t),
    }
}

/// Whether the first declared parameter is the mandatory
/// execution-context handle.
pub open spec fn has_context_param(args: Seq<TypeExpr>) -> bool {
    args.len() >= 1 && (args[0] matches TypeExpr::Ident { name, .. } && name@ == "Caller"@)
}

/// The encoded signature: `@` + parameter codes (context handle
/// excluded) + `@` + return codes. `None` when the context handle is
/// missing or any type falls outside the alphabet.
pub open spec fn sig_code(sig: FuncSignature) -> Option<Seq<char>> {
    if !has_context_param(sig.args@) {
        None
    } else {
        match (types_code(sig.args@, 1), ret_code(sig.ret)) {
            (Some(params), Some(rets)) => Some("@"@ + params + "@"@ + rets),
            _ => None,
        }
    }
}

/// The name and source location of the type that makes `t` fail to
/// encode, the first one in the order the encoder walks the
/// expression; `None` when `t` encodes. A nullable wrapper around a
/// nullable wrapper is reported under the wrapper's own name.
pub open spec fn first_unsupported(t: TypeExpr) -> Option<(Seq<char>, Span)>
    decreases t, 0int,
{
    match t {
        TypeExpr::Ident { name, span } => {
            if ident_code(name@) is None {
                Some((name@, span))
            } else {
                None
            }
        },
        TypeExpr::Optional { inner, span } => {
            if *inner matches TypeExpr::Optional { .. } {
                Some(("Option"@, span))
            } else {
                first_unsupported(*inner)
            }
        },
        TypeExpr::Tuple { elems, .. } => firsts_unsupported(elems@, 0),
    }
}

/// The first of `elems[i..]` that fails to encode, reported as
/// [`first_unsupported`] reports it; `None` when all encode.
pub open spec fn firsts_unsupported(elems: Seq<TypeExpr>, i: int) -> Option<(Seq<char>, Span)>
    decreases elems, elems.len() - i,
{
    if i < 0 || i >= elems.len() {
        None
    } else if type_code(elems[i]) is None {
        first_unsupported(elems[i])
    } else {
        firsts_unsupported(elems, i + 1)
    }
}

/// The offending type a whole signature's encoding failure reports:
/// the first unencodable parameter, or failing that the unencodable
/// part of the return type.
pub open spec fn sig_unsupported(sig: FuncSignature) -> Option<(Seq<char>, Span)> {
    if types_code(sig.args@, 1) is None {
        firsts_unsupported(sig.args@, 1)
    } else {
        match sig.ret {
            None => None,
            Some(t) => first_unsupported(t),
        }
    }
}

/// Character-sequence equality of two string slices.
pub(crate) fn str_eq(a: &str, b: &str) -> (r: bool)
    ensures
        r == (a@ == b@),
{
    let x: String = a.to_owned();
    let y: String = b.to_owned();
    x == y
}

/// Looks a plain type's name up in the encoding table.
fn mangled_ident(name: &str) -> (r: Option<&'static str>)
    ensures
        r matches Some(code) ==> ident_code(name@) == Some(code@),
        r is None ==> ident_code(name@) is None,
{
    if str_eq(name, "i32") || str_eq(name, "i64") {
        Some("i")
    } else if str_eq(name, "f32") || str_eq(name, "f64") {
        Some("f")
    } else if str_eq(name, "bool") {
        Some("b")
    } else if str_eq(name, "PatternId") || str_eq(name, "RuleId") {
        Some("i")
    } else if str_eq(name, "RegexpId") {
        Some("r")
    } else if str_eq(name, "RuntimeString") {
        Some("s")
    } else {
        None
    }
}

/// Encodes one type expression, or reports the type that kept it from
/// encoding.
pub fn mangled_type(t: &TypeExpr) -> (r: Result<String, SignatureError>)
    ensures
        r matches Ok(code) ==> type_code(*t) == Some(code@),
        r is Err ==> type_code(*t) is None,
        r matches Err(SignatureError::UnsupportedType { name, span }) ==> first_unsupported(*t)
            == Some((name@, span)),
        r is Err ==> r matches Err(SignatureError::UnsupportedType { .. }),
    decreases *t, 0int,
{
    match t {
        TypeExpr::Ident { name, span } => match mangled_ident(name.as_str()) {
            Some(code) => Ok(code.to_owned()),
            None => Err(
                SignatureError::UnsupportedType { name: name.clone(), span: *span },
            ),
        },
        TypeExpr::Optional { inner, span } => {
            if let TypeExpr::Optional { .. } = &**inner {
                // Nullable-of-nullable is not a modeled case.
                Err(
                    SignatureError::UnsupportedType {
                        name: "Option".to_owned(),
                        span: *span,
                    },
                )
            } else {
                match mangled_type(&**inner) {
                    Ok(code) => Ok(code.concat("u")),
                    Err(e) => Err(e),
                }
            }
        },
        TypeExpr::Tuple { elems, .. } => mangled_types(elems, 0),
    }
}

/// Encodes the type expressions `elems[i..]`, concatenating their
/// codes in declaration order.
fn mangled_types(elems: &Vec<TypeExpr>, i: usize) -> (r: Result<String, SignatureError>)
    requires
        i <= elems@.len(),
    ensures
        r matches Ok(code) ==> types_code(elems@, i as int) == Some(code@),
        r is Err ==> types_code(elems@, i as int) is None,
        r matches Err(SignatureError::UnsupportedType { name, span }) ==> firsts_unsupported(
            elems@,
            i as int,
        ) == Some((name@, span)),
        r is Err ==> r matches Err(SignatureError::UnsupportedType { .. }),
    decreases elems@, elems@.len() - i,
{
    if i >= elems.len() {
        Ok(String::new())
    } else {
        let code = match mangled_type(&elems[i]) {
            Ok(c) => c,
            Err(e) => {
                return Err(e);
            },
        };
        let rest = match mangled_types(elems, i + 1) {
            Ok(c) => c,
            Err(e) => {
                return Err(e);
            },
        };
        Ok(code.concat(rest.as_str()))
    }
}

/// Encodes a return type; a function that returns nothing contributes
/// no codes.
pub fn mangled_return_type(ret: &Option<TypeExpr>) -> (r: Result<String, SignatureError>)
    ensures
        r matches Ok(code) ==> ret_code(*ret) == Some(code@),
        r is Err ==> ret_code(*ret) is None,
        r matches Err(SignatureError::UnsupportedType { name, span }) ==> (*ret matches Some(t)
            && first_unsupported(t) == Some((name@, span))),
        r is Err ==> r matches Err(SignatureError::UnsupportedType { .. }),
{
    match ret {
        None => Ok(String::new()),
        Some(t) => mangled_type(t),
    }
}

/// Encodes a full signature into the canonical `@<args>@<rets>` form,
/// after checking that the first declared parameter is the mandatory
/// execution-context handle; the handle itself is excluded from the
/// encoding.
pub fn mangled_signature(sig: &FuncSignature) -> (r: Result<String, SignatureError>)
    ensures
        r matches Ok(code) ==> sig_code(*sig) == Some(code@),
        r is Err ==> sig_code(*sig) is None,
        r matches Err(SignatureError::MissingContextParam) <==> !has_context_param(sig.args@),
        r matches Err(SignatureError::UnsupportedType { name, span }) ==> sig_unsupported(*sig)
            == Some((name@, span)),
{
    let context_ok = if sig.args.len() >= 1 {
        match &sig.args[0] {
            TypeExpr::Ident { name, .. } => str_eq(name.as_str(), "Caller"),
            _ => false,
        }
    } else {
        false
    };
    if !context_ok {
        return Err(SignatureError::MissingContextParam);
    }
    let params = match mangled_types(&sig.args, 1) {
        Ok(c) => c,
        Err(e) => {
            return Err(e);
        },
    };
    let rets = match mangled_return_type(&sig.ret) {
        Ok(c) => c,
        Err(e) => {
            return Err(e);
        },
    };
    let mut out: String = "@".to_owned();
    out.append(params.as_str());
    out.append("@");
    out.append(rets.as_str());
    Ok(out)
}

/// Encoding determinism: the encoded signature is a pure function of
/// the signature value, so equal type lists always encode to the same
/// string.
pub proof fn lemma_encoding_deterministic(a: FuncSignature, b: FuncSignature)
    requires
        a == b,
    ensures
        sig_code(a) == sig_code(b),
{
}

/// Alphabet exhaustiveness: a plain type encodes exactly when its name
/// stands in the table, each table row maps to exactly one code, and
/// every code is a single character.
pub proof fn lemma_alphabet(name: Seq<char>)
    ensures
        ident_code(name) is Some <==> (name == "i32"@ || name == "i64"@ || name == "f32"@
            || name == "f64"@ || name == "bool"@ || name == "PatternId"@ || name == "RuleId"@
            || name == "RegexpId"@ || name == "RuntimeString"@),
        name == "i32"@ || name == "i64"@ ==> ident_code(name) == Some("i"@),
        name == "f32"@ || name == "f64"@ ==> ident_code(name) == Some("f"@),
        name == "bool"@ ==> ident_code(name) == Some("b"@),
        name == "PatternId"@ || name == "RuleId"@ ==> ident_code(name) == Some("i"@),
        name == "RegexpId"@ ==> ident_code(name) == Some("r"@),
        name == "RuntimeString"@ ==> ident_code(name) == Some("s"@),
        ident_code(name) matches Some(code) ==> code.len() == 1,
{
    reveal_strlit("i32");
    reveal_strlit("i64");
    reveal_strlit("f32");
    reveal_strlit("f64");
    reveal_strlit("bool");
    reveal_strlit("PatternId");
    reveal_strlit("RuleId");
    reveal_strlit("RegexpId");
    reveal_strlit("RuntimeString");
    reveal_strlit("i");
    reveal_strlit("f");
    reveal_strlit("b");
    reveal_strlit("r");
    reveal_strlit("s");
    assert(("i32"@).len() == 3 && ("i32"@)[0] == 'i' && ("i32"@)[1] == '3');
    assert(("i64"@).len() == 3 && ("i64"@)[0] == 'i' && ("i64"@)[1] == '6');
    assert(("f32"@).len() == 3 && ("f32"@)[0] == 'f' && ("f32"@)[1] == '3');
    assert(("f64"@).len() == 3 && ("f64"@)[0] == 'f' && ("f64"@)[1] == '6');
    assert(("bool"@).len() == 4);
    assert(("PatternId"@).len() == 9);
    assert(("RuleId"@).len() == 6);
    assert(("RegexpId"@).len() == 8);
    assert(("RuntimeString"@).len() == 13);
    assert(("i"@).len() == 1);
    assert(("f"@).len() == 1);
    assert(("b"@).len() == 1);
    assert(("r"@).len() == 1);
    assert(("s"@).len() == 1);
}

/// Nullable round-trip: wrapping any encodable, not-itself-nullable
/// type appends exactly the suffix `u` to the base type's code.
pub proof fn lemma_nullable_suffix(t: TypeExpr, span: Span)
    requires
        !(t matches TypeExpr::Optional { .. }),
        type_code(t) is Some,
    ensures
        type_code(TypeExpr::Optional { inner: Box::new(t), span }) == Some(
            type_code(t)->Some_0 + "u"@,
        ),
{
}

} // verus!
