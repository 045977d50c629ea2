//! Declarations of the WebAssembly runtime's types that appear in this
//! library's signatures. Each is opaque to verification; the wrappers that
//! call into the runtime state what its documentation promises.

use vstd::prelude::*;

verus! {

#[verifier::external_type_specification]
#[verifier::external_body]
pub struct ExStore(wasmer::Store);

#[verifier::external_type_specification]
#[verifier::external_body]
pub struct ExModule(wasmer::Module);

#[verifier::external_type_specification]
#[verifier::external_body]
pub struct ExInstance(wasmer::Instance);

#[verifier::external_type_specification]
#[verifier::external_body]
pub struct ExImports(wasmer::Imports);

#[verifier::external_type_specification]
#[verifier::external_body]
pub struct ExMemory(wasmer::Memory);

#[verifier::external_type_specification]
#[verifier::external_body]
#[verifier::reject_recursive_types(Args)]
#[verifier::reject_recursive_types(Rets)]
pub struct ExTypedFunction<Args, Rets>(wasmer::TypedFunction<Args, Rets>);

#[verifier::external_type_specification]
#[verifier::external_body]
pub struct ExFunction(wasmer::Function);

/// The identity of a store. Every runtime object is owned by the store it was
/// created in and may be used only with that store; the identity never
/// changes, and the wrappers that mutate a store say so.
pub uninterp spec fn store_ident(s: wasmer::Store) -> int;

/// The identity of the store that owns an instance.
pub uninterp spec fn store_of_instance(i: wasmer::Instance) -> int;

/// The identity of the store that owns a memory.
pub uninterp spec fn store_of_memory(m: wasmer::Memory) -> int;

/// The identity of the store that owns a zero-argument, zero-result function
/// handle.
pub uninterp spec fn store_of_func0(f: wasmer::TypedFunction<(), ()>) -> int;

/// Relies on wasmer::Memory::clone: another handle to the same linear memory,
/// owned by the same store.
pub assume_specification [<wasmer::Memory as std::clone::Clone>::clone](m: &wasmer::Memory) -> (r: wasmer::Memory)
    ensures
        store_of_memory(r) == store_of_memory(*m),
;

/// Relies on wasmer::TypedFunction::clone: another handle to the same function.
pub assume_specification<Args, Rets> [<wasmer::TypedFunction<Args, Rets> as std::clone::Clone>::clone](
    f: &wasmer::TypedFunction<Args, Rets>,
) -> wasmer::TypedFunction<Args, Rets>
    where
        Args: std::clone::Clone,
        Rets: std::clone::Clone,
;

#[verifier::external_type_specification]
#[verifier::external_body]
pub struct ExCompileError(wasmer::CompileError);

#[verifier::external_type_specification]
#[verifier::external_body]
pub struct ExInstantiationError(wasmer::InstantiationError);

#[verifier::external_type_specification]
#[verifier::external_body]
pub struct ExExportError(wasmer::ExportError);

#[verifier::external_type_specification]
#[verifier::external_body]
pub struct ExRuntimeError(wasmer::RuntimeError);

#[verifier::external_type_specification]
#[verifier::external_body]
pub struct ExMemoryAccessError(wasmer::MemoryAccessError);

#[verifier::external_type_specification]
#[verifier::external_body]
pub struct ExMemoryError(wasmer::MemoryError);

#[verifier::external_type_specification]
#[verifier::external_body]
pub struct ExIoError(std::io::Error);

#[verifier::external_type_specification]
#[verifier::external_body]
pub struct ExUtf8Error(std::str::Utf8Error);

} // verus!
