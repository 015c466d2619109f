//! The registry of exported host functions.
//!
//! During process initialization, before any compilation begins, every
//! host-implemented built-in function is registered here exactly once:
//! the registrar encodes the function's signature, builds one
//! immutable descriptor, and inserts it. After that the registry is
//! read-only; the virtual-machine linker resolves a generated import
//! by looking its `(module path, name, mangled name)` triple up and
//! treats a missing entry as a fatal load-time error.
//!
//! The triple is unique across the registry: an exact duplicate is a
//! registration-time error, while two exports that share a name but
//! differ in encoded signature are distinct overloads and coexist.

use vstd::prelude::*;
use vstd::string::StringExecFns;

use crate::signature::str_eq;
use crate::signature::{has_context_param, mangled_signature, sig_code, sig_unsupported};
use crate::signature::{FuncSignature, SignatureError};
use crate::types::Span;

verus! {

/// Options given with a function's export mark: an optional export
/// name replacing the function's own identifier, and whether the
/// function is callable directly from rule source or only from other
/// host/guest plumbing.
#[derive(Debug)]
pub struct WasmExportArgs {
    pub name: Option<String>,
    pub public: bool,
}

/// The type-erased adapter through which the guest's untyped calling
/// convention invokes a statically typed host function. One adapter
/// shape exists per parameter count, each unpacking a fixed number of
/// raw guest values into the exact typed call; `host_fn` identifies
/// the concrete adapter instance on the host side.
#[derive(Clone, Copy, Debug, PartialEq, Eq, Structural)]
pub struct Trampoline {
    /// Parameter count the adapter unpacks, the context handle
    /// excluded.
    pub arity: usize,
    /// Host-side handle of the adapter bound to the target function.
    pub host_fn: usize,
}

/// One exported host function, as the virtual-machine linker sees it.
/// Descriptors are immutable once registered and live for the process
/// lifetime.
#[derive(Debug)]
pub struct WasmExport {
    /// The function's public identifier.
    pub name: String,
    /// The function's link-time symbol: its export name followed by
    /// the encoded signature.
    pub mangled_name: String,
    /// Whether rule source may call the function directly.
    pub public: bool,
    /// Path of the built-in module declaring the function,
    /// disambiguating same-named functions of different modules.
    pub rust_module_path: String,
    /// The invocation adapter bound to the function.
    pub func: Trampoline,
}

/// Why a registration was rejected. All of these surface during
/// process initialization, before any rule is compiled; none is ever
/// observable as a run-time condition.
#[derive(Debug)]
pub enum RegistrationError {
    /// The function declares no parameters, or its first parameter is
    /// not the mandatory execution-context handle.
    MissingContextParam { function: String },
    /// A parameter or return type of the function is outside the
    /// encoding alphabet; carries the function, the offending type's
    /// name and its source location.
    UnsupportedType { function: String, name: String, span: Span },
    /// A function with the same module path, name and encoded
    /// signature is already registered.
    Duplicate { rust_module_path: String, mangled_name: String },
}

/// Whether an export's key triple is exactly the given one.
pub open spec fn key_matches(
    e: WasmExport,
    rust_module_path: Seq<char>,
    name: Seq<char>,
    mangled_name: Seq<char>,
) -> bool {
    &&& e.rust_module_path@ == rust_module_path
    &&& e.name@ == name
    &&& e.mangled_name@ == mangled_name
}

/// Whether two exports collide on the key triple.
pub open spec fn same_key(a: WasmExport, b: WasmExport) -> bool {
    key_matches(a, b.rust_module_path@, b.name@, b.mangled_name@)
}

/// Whether some registered export carries the given key triple.
pub open spec fn has_key(
    s: Seq<WasmExport>,
    rust_module_path: Seq<char>,
    name: Seq<char>,
    mangled_name: Seq<char>,
) -> bool {
    exists|i: int|
        0 <= i < s.len() && key_matches(#[trigger] s[i], rust_module_path, name, mangled_name)
}

/// The registry invariant: no two exports share a key triple.
pub open spec fn unique_keys(s: Seq<WasmExport>) -> bool {
    forall|i: int, j: int| #![trigger s[i], s[j]] 0 <= i < j < s.len() ==> !same_key(s[i], s[j])
}

/// The export name a registration uses: the override given with the
/// export mark, or the function's own identifier.
pub open spec fn export_name_spec(attr: WasmExportArgs, fn_name: Seq<char>) -> Seq<char> {
    match attr.name {
        Some(n) => n@,
        None => fn_name,
    }
}

/// Appending an export with a fresh key triple keeps the keys unique.
pub proof fn lemma_push_unique(s: Seq<WasmExport>, e: WasmExport)
    requires
        unique_keys(s),
        !has_key(s, e.rust_module_path@, e.name@, e.mangled_name@),
    ensures
        unique_keys(s.push(e)),
{
    let t = s.push(e);
    assert forall|i: int, j: int| 0 <= i < j < t.len() implies !same_key(t[i], t[j]) by {
        if j < s.len() {
            assert(t[i] == s[i] && t[j] == s[j]);
        } else {
            assert(t[j] == e);
            assert(t[i] == s[i]);
        }
    }
}

/// Overloads coexist: after registering two exports whose key triples
/// are fresh and mutually distinct — in particular two functions with
/// the same name but different encoded signatures — the registry's
/// keys stay unique and each export remains resolvable by its own
/// triple.
pub proof fn lemma_overloads_coexist(s: Seq<WasmExport>, e1: WasmExport, e2: WasmExport)
    requires
        unique_keys(s),
        !has_key(s, e1.rust_module_path@, e1.name@, e1.mangled_name@),
        !has_key(s.push(e1), e2.rust_module_path@, e2.name@, e2.mangled_name@),
    ensures
        unique_keys(s.push(e1).push(e2)),
        has_key(s.push(e1).push(e2), e1.rust_module_path@, e1.name@, e1.mangled_name@),
        has_key(s.push(e1).push(e2), e2.rust_module_path@, e2.name@, e2.mangled_name@),
{
    lemma_push_unique(s, e1);
    lemma_push_unique(s.push(e1), e2);
    let t = s.push(e1).push(e2);
    assert(t[s.len() as int] == e1);
    assert(t[s.len() as int + 1] == e2);
}

/// The process-wide export registry: populated during initialization,
/// read-only thereafter.
pub struct WasmExports {
    exports: Vec<WasmExport>,
}

impl WasmExports {
    /// The registered descriptors, in registration order.
    pub closed spec fn exports(self) -> Seq<WasmExport> {
        self.exports@
    }

    /// The registry invariant: key triples are unique.
    pub open spec fn wf(self) -> bool {
        unique_keys(self.exports())
    }

    /// Creates an empty registry.
    pub fn new() -> (r: Self)
        ensures
            r.exports() == Seq::<WasmExport>::empty(),
            r.wf(),
    {
        WasmExports { exports: Vec::new() }
    }

    /// Read-only lookup by the `(module path, name, mangled name)`
    /// triple, as the virtual-machine linker performs it when
    /// resolving an import. `None` means an unresolved import, which
    /// the linker treats as fatal for the compiled artifact.
    pub fn find(&self, rust_module_path: &str, name: &str, mangled_name: &str) -> (r: Option<
        &WasmExport,
    >)
        ensures
            r is Some <==> has_key(self.exports(), rust_module_path@, name@, mangled_name@),
            r matches Some(e) ==> {
                &&& key_matches(*e, rust_module_path@, name@, mangled_name@)
                &&& self.exports().contains(*e)
            },
    {
        let n = self.exports.len();
        let mut i: usize = 0;
        while i < n
            invariant
                i <= n,
                n == self.exports@.len(),
                forall|j: int|
                    0 <= j < i ==> !key_matches(
                        #[trigger] self.exports@[j],
                        rust_module_path@,
                        name@,
                        mangled_name@,
                    ),
            decreases n - i,
        {
            let e = &self.exports[i];
            if str_eq(e.rust_module_path.as_str(), rust_module_path) && str_eq(
                e.name.as_str(),
                name,
            ) && str_eq(e.mangled_name.as_str(), mangled_name) {
                return Some(e);
            }
            i = i + 1;
        }
        None
    }

    /// Registers one host function: encodes its signature, builds the
    /// descriptor and inserts it.
    ///
    /// Registration fails, naming the function, when the mandatory
    /// context parameter is missing or a type falls outside the
    /// encoding alphabet; it fails with [`RegistrationError::Duplicate`]
    /// exactly when an export with the same `(module path, name,
    /// encoded signature)` triple is already present. On failure the
    /// registry is unchanged.
    pub fn register(
        &mut self,
        fn_name: &str,
        attr: &WasmExportArgs,
        rust_module_path: &str,
        signature: &FuncSignature,
        host_fn: usize,
    ) -> (r: Result<(), RegistrationError>)
        requires
            old(self).wf(),
        ensures
            final(self).wf(),
            r is Err ==> *final(self) == *old(self),
            ({
                let ename = export_name_spec(*attr, fn_name@);
                match r {
                    Ok(_) => {
                        &&& sig_code(*signature) is Some
                        &&& !has_key(
                            old(self).exports(),
                            rust_module_path@,
                            ename,
                            ename + sig_code(*signature)->Some_0,
                        )
                        &&& final(self).exports().drop_last() == old(self).exports()
                        &&& final(self).exports().len() == old(self).exports().len() + 1
                        &&& ({
                            let e = final(self).exports().last();
                            &&& e.name@ == ename
                            &&& e.mangled_name@ == ename + sig_code(*signature)->Some_0
                            &&& e.public == attr.public
                            &&& e.rust_module_path@ == rust_module_path@
                            &&& e.func.arity == signature.args@.len() - 1
                            &&& e.func.host_fn == host_fn
                        })
                    },
                    Err(RegistrationError::MissingContextParam { function }) => {
                        &&& !has_context_param(signature.args@)
                        &&& function@ == fn_name@
                    },
                    Err(RegistrationError::UnsupportedType { function, name, span }) => {
                        &&& has_context_param(signature.args@)
                        &&& sig_code(*signature) is None
                        &&& function@ == fn_name@
                        &&& sig_unsupported(*signature) == Some((name@, span))
                    },
                    Err(RegistrationError::Duplicate { rust_module_path: m, mangled_name }) => {
                        &&& sig_code(*signature) is Some
                        &&& has_key(
                            old(self).exports(),
                            rust_module_path@,
                            ename,
                            ename + sig_code(*signature)->Some_0,
                        )
                        &&& m@ == rust_module_path@
                        &&& mangled_name@ == ename + sig_code(*signature)->Some_0
                    },
                }
            }),
    {
        let code = match mangled_signature(signature) {
            Ok(c) => c,
            Err(SignatureError::MissingContextParam) => {
                return Err(RegistrationError::MissingContextParam { function: fn_name.to_owned() });
            },
            Err(SignatureError::UnsupportedType { name, span }) => {
                return Err(
                    RegistrationError::UnsupportedType {
                        function: fn_name.to_owned(),
                        name,
                        span,
                    },
                );
            },
        };
        let name: String = match &attr.name {
            Some(n) => n.clone(),
            None => fn_name.to_owned(),
        };
        let mut mangled: String = name.clone();
        mangled.append(code.as_str());
        if self.find(rust_module_path, name.as_str(), mangled.as_str()).is_some() {
            return Err(
                RegistrationError::Duplicate {
                    rust_module_path: rust_module_path.to_owned(),
                    mangled_name: mangled,
                },
            );
        }
        // One trampoline shape per arity: the parameters besides the
        // mandatory context handle.
        let arity = signature.args.len() - 1;
        let export = WasmExport {
            name,
            mangled_name: mangled,
            public: attr.public,
            rust_module_path: rust_module_path.to_owned(),
            func: Trampoline { arity, host_fn },
        };
        proof {
            lemma_push_unique(self.exports@, export);
        }
        self.exports.push(export);
        proof {
            assert(self.exports@.drop_last() =~= old(self).exports());
        }
        Ok(())
    }
}

} // verus!
