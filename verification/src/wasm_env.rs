//! Shared host-side context for a single instance: a write-once error slot,
//! the instance's linear memory once it is bound, and optional allocator
//! handles.
//!
//! The error slot realizes the boundary policy: a host-implemented import
//! never interrupts guest execution; its failure is recorded through
//! `handle_error`, first writer wins, and the driver inspects the slot after
//! the guest call returns. An embedder-built import records into the slot its
//! closure captured, which is the embedder's own; callers that guard such a
//! slot with a lock map an abandoned lock to `WasmError::MutexPoisoned` and
//! treat a contended lock as an occupied slot (the contender is recording)
//! before reaching these functions.

use vstd::prelude::*;
use crate::errors::WasmError;
use crate::guest_memory::{make_view, mem_bytes, view_bytes};
use crate::debug_imports::{imports_map, ImportBinding};
use crate::runtime::{store_ident, store_of_memory};

verus! {

/// Handles to the guest's exported allocator, once bound: an allocating entry
/// point from a byte count to a guest pointer, a deallocating entry point
/// from a guest pointer and byte count, and the memory the pointers refer to.
#[derive(Clone)]
pub struct Allocation {
    pub alloc: wasmer::TypedFunction<i32, u32>,
    pub dealloc: wasmer::TypedFunction<(u32, i32), ()>,
    pub memory: wasmer::Memory,
}

/// The context every host-implemented import of one instance shares.
pub struct WasmEnv {
    pub error: Option<WasmError>,
    pub memory: Option<wasmer::Memory>,
    pub allocation: Option<Allocation>,
}

impl WasmEnv {
    /// Fresh state: no error recorded, no memory bound, no allocator bound.
    pub fn new() -> (r: Self)
        ensures
            r.error is None,
            r.memory is None,
            r.allocation is None,
    {
        Self { error: None, memory: None, allocation: None }
    }

    /// Binds the instance's linear memory, once instantiation has succeeded.
    pub fn set_memory(&mut self, memory: wasmer::Memory)
        ensures
            final(self).memory == Some(memory),
            final(self).error == old(self).error,
            final(self).allocation == old(self).allocation,
    {
        self.memory = Some(memory);
    }

    /// Binds every import this environment supplies into the import table:
    /// the two multivalue variants, and the embedder-built print function if
    /// one is handed in (its body writes to the console, so the embedder
    /// constructs it and the library binds it).
    pub fn register_imports(&self, store: &mut wasmer::Store, imports: &mut wasmer::Imports,
        print: Option<wasmer::Function>)
        ensures
            store_ident(*final(store)) == store_ident(*old(store)),
            print is Some ==> imports_map(*final(imports)) == imports_map(*old(imports))
                .insert(("debug"@, "print"@), ImportBinding::Print)
                .insert(("debug"@, "test_multivalue_dynamic"@), ImportBinding::MultivalueDynamic)
                .insert(("debug"@, "test_multivalue_static"@), ImportBinding::MultivalueStatic),
            print is None ==> imports_map(*final(imports)) == imports_map(*old(imports))
                .insert(("debug"@, "test_multivalue_dynamic"@), ImportBinding::MultivalueDynamic)
                .insert(("debug"@, "test_multivalue_static"@), ImportBinding::MultivalueStatic),
    {
        self.register_debug_wasm_imports(store, imports, print);
    }

    /// A view over the bound memory, or `NoMemory` if none is bound yet. The
    /// bound memory must belong to the given store. Callers that guard the
    /// slot with a lock map an abandoned lock to `MutexPoisoned` before the
    /// call; callers inside an import, which hold only the runtime's borrowed
    /// store context, build the view from that context instead.
    pub fn memory_view<'a>(memory: &Option<wasmer::Memory>, store: &'a wasmer::Store)
        -> (r: Result<wasmer::MemoryView<'a>, WasmError>)
        requires
            memory matches Some(m) ==> store_of_memory(*m) == store_ident(*store),
        ensures
            (r is Ok) <==> memory is Some,
            r is Err ==> r->Err_0 is NoMemory,
            r is Ok ==> (memory matches Some(m) && view_bytes(r->Ok_0) == mem_bytes(*m, *store)),
    {
        match memory {
            Some(m) => Ok(make_view(m, store)),
            None => Err(WasmError::NoMemory),
        }
    }

    /// Unwraps an import's result at the guest boundary. A success passes
    /// through untouched. A failure is recorded into the slot only if the
    /// slot is empty: the first recorded error is never overwritten, a later
    /// one is discarded, not queued, not merged.
    pub fn handle_error<T>(error: &mut Option<WasmError>, result: Result<T, WasmError>) -> (r: Option<T>)
        ensures
            result is Ok ==> r == Some(result->Ok_0) && *final(error) == *old(error),
            result is Err ==> r is None,
            result is Err ==> *final(error) == record_error(*old(error), result->Err_0),
    {
        let wasm_err = match result {
            Ok(x) => {
                return Some(x);
            },
            Err(x) => x,
        };

        if error.is_some() {
            return None;
        }

        *error = Some(wasm_err);

        None
    }
}

/// What one failing report does to the error slot, as `WasmEnv::handle_error`
/// ensures it: an occupied slot is left untouched, an empty one takes the
/// reported error.
pub open spec fn record_error(slot: Option<WasmError>, e: WasmError) -> Option<WasmError> {
    if slot is Some {
        slot
    } else {
        Some(e)
    }
}

/// The error slot after a sequence of failing reports, each recorded as
/// `WasmEnv::handle_error` records one.
pub open spec fn slot_after_reports(slot: Option<WasmError>, errors: Seq<WasmError>) -> Option<WasmError>
    decreases errors.len(),
{
    if errors.len() == 0 {
        slot
    } else {
        slot_after_reports(record_error(slot, errors.first()), errors.drop_first())
    }
}

/// Law: however many reports follow one another, the first recorded error
/// survives unchanged; every later report is discarded.
///
/// Starting from an empty slot, a first failing report fills the slot with
/// its error, and any sequence of later failing reports leaves it unchanged.
pub proof fn lemma_first_error_wins(first: WasmError, later: Seq<WasmError>)
    ensures
        slot_after_reports(Some(first), later) == Some(first),
        slot_after_reports(None, seq![first].add(later)) == Some(first),
    decreases later.len(),
{
    assert(seq![first].add(later).first() == first);
    assert(seq![first].add(later).drop_first() =~= later);
    if later.len() > 0 {
        lemma_first_error_wins(first, later.drop_first());
    }
}

} // verus!
