//! The host functions registered under the `debug` import namespace, and the
//! values they hand the guest.
//!
//! The demonstration import returns four 32-bit integers, in two calling
//! conventions bound to the same values: a dynamically-typed variant (an
//! untyped value vector, with the signature declared separately) and a
//! statically-typed variant (a native tuple the runtime marshals itself).

use vstd::prelude::*;
use crate::wasm_env::WasmEnv;
use crate::runtime::store_ident;

verus! {

/// What the registrar binds under a namespace-qualified import name: the
/// dynamically-typed multivalue host function (an untyped value vector, the
/// signature declared separately as no parameters and four 32-bit-integer
/// results, delivering `dynamic_import_values`), the statically-typed one (a
/// native tuple the runtime marshals, delivering `static_import_values`), or
/// the embedder-built print function.
pub enum ImportBinding {
    MultivalueDynamic,
    MultivalueStatic,
    Print,
}

/// The contents of an import table: what is bound under each namespace and
/// name. Names the table that instantiation consumes.
pub uninterp spec fn imports_map(i: wasmer::Imports) -> Map<(Seq<char>, Seq<char>), ImportBinding>;

/// An import table with no entries.
pub open spec fn imports_empty(m: Map<(Seq<char>, Seq<char>), ImportBinding>) -> bool {
    m == Map::<(Seq<char>, Seq<char>), ImportBinding>::empty()
}

/// The four values the dynamically-typed import variant hands the guest.
pub open spec fn dynamic_import_values() -> Seq<i32> {
    seq![1i32, 2i32, 3i32, 4i32]
}

/// The four values the statically-typed import variant hands the guest.
pub open spec fn static_import_values() -> (i32, i32, i32, i32) {
    (1i32, 2i32, 3i32, 4i32)
}

/// The value vector for the dynamically-typed import variant.
pub fn test_multivalue_dynamic_values() -> (r: Vec<i32>)
    ensures
        r@ == dynamic_import_values(),
{
    let r: Vec<i32> = vec![1, 2, 3, 4];
    assert(r@ =~= dynamic_import_values());
    r
}

/// The native tuple for the statically-typed import variant.
pub fn test_multivalue_static_values() -> (r: (i32, i32, i32, i32))
    ensures
        r == static_import_values(),
{
    (1, 2, 3, 4)
}

/// Law: the dynamically-typed and the statically-typed import variants hand
/// the guest numerically identical values.
pub proof fn lemma_import_variants_agree()
    ensures
        dynamic_import_values() == seq![
            static_import_values().0,
            static_import_values().1,
            static_import_values().2,
            static_import_values().3,
        ],
{
    assert(dynamic_import_values() =~= seq![
        static_import_values().0,
        static_import_values().1,
        static_import_values().2,
        static_import_values().3,
    ]);
}

/// Relies on wasmer::Function::new and wasmer::Imports::define: binds, under
/// the given namespace and name, a dynamically-typed host function whose
/// declared signature is no parameters and four 32-bit-integer results, and
/// whose body hands back `test_multivalue_dynamic_values` as a value vector.
/// Imports::define inserts into a map keyed by namespace and name; a store's
/// identity never changes.
#[verifier::external_body]
fn define_dynamic_multivalue(store: &mut wasmer::Store, imports: &mut wasmer::Imports, ns: &str, name: &str)
    ensures
        store_ident(*final(store)) == store_ident(*old(store)),
        imports_map(*final(imports)) == imports_map(*old(imports))
            .insert((ns@, name@), ImportBinding::MultivalueDynamic),
{
    let ty = wasmer::FunctionType::new(
        [],
        [wasmer::Type::I32, wasmer::Type::I32, wasmer::Type::I32, wasmer::Type::I32],
    );
    let f = wasmer::Function::new(store, ty, |_args| {
        Ok(test_multivalue_dynamic_values().into_iter().map(wasmer::Value::I32).collect())
    });
    imports.define(ns, name, f);
}

/// Relies on wasmer::Function::new_typed and wasmer::Imports::define: binds,
/// under the given namespace and name, a statically-typed host function from
/// no parameters to a native tuple of four 32-bit integers, whose body hands
/// back `test_multivalue_static_values`.
#[verifier::external_body]
fn define_static_multivalue(store: &mut wasmer::Store, imports: &mut wasmer::Imports, ns: &str, name: &str)
    ensures
        store_ident(*final(store)) == store_ident(*old(store)),
        imports_map(*final(imports)) == imports_map(*old(imports))
            .insert((ns@, name@), ImportBinding::MultivalueStatic),
{
    let f = wasmer::Function::new_typed(store, || test_multivalue_static_values());
    imports.define(ns, name, f);
}

/// Relies on wasmer::Imports::define: binds the embedder-built print function
/// under the given namespace and name. Nothing is assumed of the function's
/// behaviour; the entry is recorded as the print binding.
#[verifier::external_body]
fn define_print(imports: &mut wasmer::Imports, ns: &str, name: &str, print: wasmer::Function)
    ensures
        imports_map(*final(imports)) == imports_map(*old(imports))
            .insert((ns@, name@), ImportBinding::Print),
{
    imports.define(ns, name, print);
}

impl WasmEnv {
    /// Binds the imports of the `debug` namespace: the multivalue host
    /// function in both calling conventions, and the string-print import when
    /// the embedder hands one in. The print function's body writes to the
    /// console, so the embedder constructs it — from `read_guest_string` and
    /// `WasmEnv::handle_error` — against the same store, and the library
    /// binds it under its name.
    pub fn register_debug_wasm_imports(&self, store: &mut wasmer::Store, imports: &mut wasmer::Imports,
        print: Option<wasmer::Function>)
        ensures
            store_ident(*final(store)) == store_ident(*old(store)),
            print is Some ==> imports_map(*final(imports)) == imports_map(*old(imports))
                .insert(("debug"@, "print"@), ImportBinding::Print)
                .insert(("debug"@, "test_multivalue_dynamic"@), ImportBinding::MultivalueDynamic)
                .insert(("debug"@, "test_multivalue_static"@), ImportBinding::MultivalueStatic),
            print is None ==> imports_map(*final(imports)) == imports_map(*old(imports))
                .insert(("debug"@, "test_multivalue_dynamic"@), ImportBinding::MultivalueDynamic)
                .insert(("debug"@, "test_multivalue_static"@), ImportBinding::MultivalueStatic),
    {
        match print {
            Some(f) => define_print(imports, "debug", "print", f),
            None => (),
        }
        define_dynamic_multivalue(store, imports, "debug", "test_multivalue_dynamic");
        define_static_multivalue(store, imports, "debug", "test_multivalue_static");
    }
}

} // verus!
