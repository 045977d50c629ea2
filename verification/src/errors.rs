//! The library's error type. Variants that carry a runtime-level error hold it
//! as the opaque value the runtime returned; contracts speak of the variant.

use vstd::prelude::*;

verus! {

/// Every failure the host-side wrapper can surface: errors of the runtime
/// (compile, instantiate, export lookup, trap, memory access), errors of the
/// environment (no memory bound, no allocator bound, an abandoned lock, a
/// second report into an occupied error slot), and invariant violations
/// carried as free text.
#[derive(Debug)]
pub enum WasmError {
    AlreadyErrored,
    Io(std::io::Error),
    Compile(wasmer::CompileError),
    Instantiation(wasmer::InstantiationError),
    Memory(wasmer::MemoryError),
    Export { original: wasmer::ExportError, context: String },
    Runtime(wasmer::RuntimeError),
    MemoryAccess(wasmer::MemoryAccessError),
    Utf8(std::str::Utf8Error),
    MutexPoisoned,
    NoMemory,
    NoAllocation,
    Unspecified(String),
}

/// Wraps an export-lookup failure together with free-text context naming the
/// lookup that failed.
pub fn export_error_context(original: wasmer::ExportError, context: String) -> (r: WasmError)
    ensures
        r == (WasmError::Export { original, context }),
{
    WasmError::Export { original, context }
}

impl From<wasmer::MemoryAccessError> for WasmError {
    fn from(value: wasmer::MemoryAccessError) -> (r: Self) {
        Self::MemoryAccess(value)
    }
}

impl vstd::std_specs::convert::FromSpecImpl<wasmer::MemoryAccessError> for WasmError {
    open spec fn obeys_from_spec() -> bool {
        true
    }

    open spec fn from_spec(value: wasmer::MemoryAccessError) -> Self {
        Self::MemoryAccess(value)
    }
}

impl From<wasmer::RuntimeError> for WasmError {
    fn from(value: wasmer::RuntimeError) -> (r: Self) {
        Self::Runtime(value)
    }
}

impl vstd::std_specs::convert::FromSpecImpl<wasmer::RuntimeError> for WasmError {
    open spec fn obeys_from_spec() -> bool {
        true
    }

    open spec fn from_spec(value: wasmer::RuntimeError) -> Self {
        Self::Runtime(value)
    }
}

} // verus!
