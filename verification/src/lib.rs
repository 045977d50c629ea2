//! Host-side wrapper around a WebAssembly runtime: environment state shared by
//! host-implemented imports, an import registrar for multivalue host functions,
//! a single-memory instance wrapper, and bounds-checked guest-memory reads.

pub mod runtime;
pub mod errors;
pub mod guest_memory;
pub mod wasm_env;
pub mod debug_imports;
pub mod instance;
pub mod guest;
