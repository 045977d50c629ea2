//! The instance wrapper: compiles a binary module, enforces the single-memory
//! invariant, registers the debug imports, instantiates, and exposes one
//! operation — invoke an exported zero-argument, zero-result function by name.

use vstd::prelude::*;
use vstd::string::*;
use crate::debug_imports::{imports_empty, imports_map};
use crate::errors::{WasmError, export_error_context};
use crate::wasm_env::WasmEnv;
use crate::runtime::{store_ident, store_of_func0, store_of_instance, store_of_memory};

verus! {

/// A guest program as compiled bytes, embedded at build time.
pub struct Wasm {
    pub bytes: &'static [u8],
}

pub struct NewWasmInstanceOptions<'a> {
    pub config_path: &'a str,
    /// The store the instance will live in; the embedder creates it (see
    /// `new_store`) so that it can build the print import against it.
    pub store: wasmer::Store,
    /// The embedder-built print function, registered under `debug`.`print`
    /// when present. It must be created in the store above; one from another
    /// store makes instantiation fail with a link error. It must not panic:
    /// the runtime resumes a host function's panic across the guest boundary,
    /// so a panicking import makes instantiation or `run` panic.
    pub print: Option<wasmer::Function>,
}

/// A running guest program: the store that holds its execution state, the
/// instantiated module, and the environment its imports share. Exactly one
/// invocation may use the store at a time; `run` takes it exclusively.
pub struct WasmModuleInstance {
    pub store: wasmer::Store,
    pub instance: wasmer::Instance,
    pub env: WasmEnv,
}

impl WasmModuleInstance {
    /// The pairing discipline: the instance, and the bound memory if any,
    /// belong to this instance's own store. `new_wasm_instance` establishes
    /// it and `run` keeps it; a value assembled from parts of two instances
    /// does not satisfy it, and no method accepts such a value.
    pub open spec fn wf(self) -> bool {
        &&& store_of_instance(self.instance) == store_ident(self.store)
        &&& (self.env.memory matches Some(m) ==> store_of_memory(m) == store_ident(self.store))
    }
}

/// The names of the memories a module's export section lists, in order.
/// Names the contents of the compiled module's export table.
pub uninterp spec fn exported_memory_list(m: wasmer::Module) -> Seq<Seq<char>>;

/// Whether an instance's export table lists a function of this name whose
/// type is no parameters and no results. Names the contents of the
/// instance's export table.
pub uninterp spec fn has_export_fn0(i: wasmer::Instance, name: Seq<char>) -> bool;

/// Whether an instance's export table lists a memory of this name. Names the
/// contents of the instance's export table.
pub uninterp spec fn has_memory_export(i: wasmer::Instance, name: Seq<char>) -> bool;

/// Whether the given store's engine compiles and validates these module
/// bytes. The engine — its feature set included — is part of the store value,
/// and compilation takes the store by shared reference, so success is a
/// function of the two.
pub uninterp spec fn compiles(s: wasmer::Store, bytes: Seq<u8>) -> bool;

/// The names of the exported memories of the module these bytes compile to
/// under the given store's engine, in the export section's order.
pub uninterp spec fn exported_memories_of(s: wasmer::Store, bytes: Seq<u8>) -> Seq<Seq<char>>;

/// Relies on wasmer::Store::new: a fresh store whose engine uses the default
/// compiler, with memory reservations bounded so that a linear memory does
/// not reserve gigabytes of address space up front. Public so that the
/// embedder can create the store an instance will live in and build the print
/// import against it.
#[verifier::external_body]
pub fn new_store() -> wasmer::Store {
    let mut engine = wasmer::Engine::default();
    let tunables = wasmer::sys::BaseTunables {
        static_memory_bound: wasmer::Pages(256),
        static_memory_offset_guard_size: 0x1_0000,
        dynamic_memory_offset_guard_size: 0x1_0000,
    };
    wasmer::sys::NativeEngineExt::set_tunables(&mut engine, tunables);
    wasmer::Store::new(engine)
}

/// Relies on wasmer::Module::new: compiles and validates a binary module —
/// deterministically in the bytes and the store's engine — or fails with a
/// CompileError. The compiled module, its export table included, is likewise
/// determined by the two.
#[verifier::external_body]
fn compile_module(store: &wasmer::Store, bytes: &[u8]) -> (r: Result<wasmer::Module, wasmer::CompileError>)
    ensures
        (r is Ok) <==> compiles(*store, bytes@),
        r is Ok ==> exported_memory_list(r->Ok_0) == exported_memories_of(*store, bytes@),
{
    wasmer::Module::new(store, bytes)
}

/// Relies on wasmer::Module::exports: the module's exported memories, by
/// name, in the export section's order.
#[verifier::external_body]
fn exported_memory_names(module: &wasmer::Module) -> (r: Vec<String>)
    ensures
        r@.map_values(|s: String| s@) == exported_memory_list(*module),
{
    module.exports().memories().map(|m| m.name().to_string()).collect()
}

/// Relies on wasmer::Imports::new: an empty import table.
#[verifier::external_body]
fn new_imports() -> (r: wasmer::Imports)
    ensures
        imports_empty(imports_map(r)),
{
    wasmer::Imports::new()
}

/// Relies on wasmer::Instance::new: instantiates the module against the
/// import table; a missing or cross-store import is a link error, an error of
/// the module's start function a start error. The instance lives in the given
/// store, whose identity does not change.
#[verifier::external_body]
fn instantiate(store: &mut wasmer::Store, module: &wasmer::Module, imports: &wasmer::Imports)
    -> (r: Result<wasmer::Instance, wasmer::InstantiationError>)
    ensures
        store_ident(*final(store)) == store_ident(*old(store)),
        r is Ok ==> store_of_instance(r->Ok_0) == store_ident(*final(store)),
{
    wasmer::Instance::new(store, module, imports)
}

/// Relies on wasmer::Exports::get_memory: succeeds exactly when the
/// instance's export table lists a memory of this name, and then returns a
/// handle to it, owned by the instance's own store. A table lookup; it does
/// not touch the store.
#[verifier::external_body]
fn get_exported_memory(instance: &wasmer::Instance, name: &str) -> (r: Result<wasmer::Memory, wasmer::ExportError>)
    ensures
        (r is Ok) <==> has_memory_export(*instance, name@),
        r is Ok ==> store_of_memory(r->Ok_0) == store_of_instance(*instance),
{
    match instance.exports.get_memory(name) {
        Ok(m) => Ok(m.clone()),
        Err(e) => Err(e),
    }
}

/// Relies on wasmer::Exports::get_typed_function: succeeds exactly when the
/// instance exports a function of this name typed with no parameters and no
/// results, and then returns a handle to it, owned by the same store. The
/// instance must be used with the store that owns it; on any other store the
/// runtime's type check does not return.
#[verifier::external_body]
fn get_typed_func0(instance: &wasmer::Instance, store: &wasmer::Store, name: &str)
    -> (r: Result<wasmer::TypedFunction<(), ()>, wasmer::ExportError>)
    requires
        store_of_instance(*instance) == store_ident(*store),
    ensures
        (r is Ok) <==> has_export_fn0(*instance, name@),
        r is Ok ==> store_of_func0(r->Ok_0) == store_ident(*store),
{
    instance.exports.get_typed_function(store, name)
}

/// Relies on wasmer::TypedFunction::call: runs the exported function with
/// exclusive use of the store; a guest trap surfaces as a RuntimeError. The
/// function must be used with the store that owns it; on any other store the
/// runtime does not return. The store's identity does not change.
#[verifier::external_body]
fn call_func0(f: &wasmer::TypedFunction<(), ()>, store: &mut wasmer::Store) -> (r: Result<(), wasmer::RuntimeError>)
    requires
        store_of_func0(*f) == store_ident(*old(store)),
    ensures
        store_ident(*final(store)) == store_ident(*old(store)),
{
    f.call(store)
}

/// Enforces the single-memory invariant: a module must export exactly one
/// linear memory. Returns that memory's name, for the lookup after
/// instantiation; a module with no exported memory or with several is
/// rejected before any import is registered.
pub fn check_exported_memories(names: &Vec<String>) -> (r: Result<&String, WasmError>)
    ensures
        (r is Ok) <==> names@.len() == 1,
        r is Ok ==> r->Ok_0@ == names@[0]@,
        names@.len() == 0 ==> (r->Err_0 matches WasmError::Unspecified(msg)
            && msg@ == "Module does not exports memory"@),
        names@.len() > 1 ==> (r->Err_0 matches WasmError::Unspecified(msg)
            && msg@ == "Module exports multiple memories"@),
{
    if names.len() == 0 {
        Err(WasmError::Unspecified(String::from_str("Module does not exports memory")))
    } else if names.len() > 1 {
        Err(WasmError::Unspecified(String::from_str("Module exports multiple memories")))
    } else {
        Ok(&names[0])
    }
}

impl Wasm {
    /// Compiles the embedded bytes, rejects a module that does not export
    /// exactly one linear memory, registers the debug imports, instantiates,
    /// and binds the exported memory into a fresh environment.
    pub fn new_wasm_instance(&self, options: NewWasmInstanceOptions<'_>)
        -> (r: Result<WasmModuleInstance, WasmError>)
        ensures
            (r is Err && r->Err_0 is Compile) <==> !compiles(options.store, self.bytes@),
            (r is Err && (r->Err_0 matches WasmError::Unspecified(msg)
                && msg@ == "Module does not exports memory"@))
                <==> (compiles(options.store, self.bytes@)
                    && exported_memories_of(options.store, self.bytes@).len() == 0),
            (r is Err && (r->Err_0 matches WasmError::Unspecified(msg)
                && msg@ == "Module exports multiple memories"@))
                <==> (compiles(options.store, self.bytes@)
                    && exported_memories_of(options.store, self.bytes@).len() > 1),
            r is Err ==> (r->Err_0 is Compile || r->Err_0 is Unspecified
                || r->Err_0 is Instantiation || r->Err_0 is Export),
            r is Err ==> (r->Err_0 matches WasmError::Export { original, context }
                ==> context@ == "memory"@),
            r is Err ==> (r->Err_0 matches WasmError::Unspecified(msg)
                ==> msg@ == "Module does not exports memory"@
                    || msg@ == "Module exports multiple memories"@),
            r is Err && (r->Err_0 is Instantiation || r->Err_0 is Export)
                ==> (compiles(options.store, self.bytes@)
                    && exported_memories_of(options.store, self.bytes@).len() == 1),
            r is Ok ==> (compiles(options.store, self.bytes@)
                && exported_memories_of(options.store, self.bytes@).len() == 1),
            r is Ok ==> r->Ok_0.wf(),
            r is Ok ==> r->Ok_0.env.memory is Some,
            r is Ok ==> r->Ok_0.env.error is None,
            r is Ok ==> r->Ok_0.env.allocation is None,
    {
        proof {
            reveal_strlit("Module does not exports memory");
            reveal_strlit("Module exports multiple memories");
            assert("Module does not exports memory"@.len() == 30);
            assert("Module exports multiple memories"@.len() == 32);
            assert("Module does not exports memory"@ != "Module exports multiple memories"@);
        }

        let NewWasmInstanceOptions { config_path: _, store, print } = options;
        let mut store = store;
        let wasm_mod = match compile_module(&store, self.bytes) {
            Ok(m) => m,
            Err(e) => {
                return Err(WasmError::Compile(e));
            },
        };

        let memory_names = exported_memory_names(&wasm_mod);
        proof {
            assert(memory_names@.map_values(|s: String| s@).len() == memory_names@.len());
            assert(memory_names@.len() == exported_memories_of(options.store, self.bytes@).len());
        }
        let memory_name = match check_exported_memories(&memory_names) {
            Ok(n) => n,
            Err(e) => {
                return Err(e);
            },
        };

        let mut import_object = new_imports();

        let mut env = WasmEnv::new();

        env.register_imports(&mut store, &mut import_object, print);

        let instance = match instantiate(&mut store, &wasm_mod, &import_object) {
            Ok(i) => i,
            Err(e) => {
                return Err(WasmError::Instantiation(e));
            },
        };

        let memory = match get_exported_memory(&instance, memory_name.as_str()) {
            Ok(m) => m,
            Err(original) => {
                return Err(export_error_context(original, String::from_str("memory")));
            },
        };

        env.set_memory(memory);

        Ok(WasmModuleInstance { store, instance, env })
    }
}

impl WasmModuleInstance {
    /// Looks up the exported zero-argument, zero-result function of this name
    /// and invokes it with exclusive use of the store. A failed lookup
    /// surfaces as an export error with context "run", and then nothing ran:
    /// the whole instance is unchanged. A guest trap surfaces as a runtime
    /// error.
    pub fn run(&mut self, name: &str) -> (r: Result<(), WasmError>)
        requires
            old(self).wf(),
        ensures
            final(self).wf(),
            final(self).instance == old(self).instance,
            final(self).env == old(self).env,
            (r is Err && r->Err_0 is Export) <==> !has_export_fn0(old(self).instance, name@),
            r is Err && r->Err_0 is Export ==> *final(self) == *old(self),
            r is Err ==> (r->Err_0 matches WasmError::Export { original, context }
                ==> context@ == "run"@),
            r is Err ==> (r->Err_0 is Export || r->Err_0 is Runtime),
    {
        let fun: wasmer::TypedFunction<(), ()> =
            match get_typed_func0(&self.instance, &self.store, name) {
                Ok(f) => f,
                Err(original) => {
                    return Err(WasmError::Export { original, context: String::from_str("run") });
                },
            };

        match call_func0(&fun, &mut self.store) {
            Ok(()) => Ok(()),
            Err(e) => Err(WasmError::from(e)),
        }
    }

    /// The error slot as this instance value holds it. An embedder-built
    /// import records into the slot its closure captured — the embedder's
    /// own, fed through `WasmEnv::handle_error` and inspected by the embedder
    /// after a guest call returns. An instance whose imports are only the
    /// library's multivalue bindings, which cannot fail, keeps this slot
    /// empty.
    pub fn captured_error(&self) -> (r: &Option<WasmError>)
        ensures
            r == &self.env.error,
    {
        &self.env.error
    }
}

} // verus!
