//! The write-once error slot: a success passes through, the first failure is
//! recorded, every later failure is discarded — also when the reports come
//! from host imports racing at the guest boundary of a live instance.

use std::sync::{Arc, Mutex};

use wasmer::{Function, FunctionEnv, FunctionEnvMut, Memory};
use wasmer_host::errors::WasmError;
use wasmer_host::guest_memory::read_guest_string;
use wasmer_host::instance::{new_store, NewWasmInstanceOptions, Wasm};
use wasmer_host::wasm_env::WasmEnv;

#[test]
fn success_passes_through_and_leaves_the_slot_alone() {
    let mut slot: Option<WasmError> = None;
    let out = WasmEnv::handle_error(&mut slot, Ok(7u8));
    assert_eq!(out, Some(7));
    assert!(slot.is_none());
}

#[test]
fn first_error_wins_later_ones_are_discarded() {
    let mut slot: Option<WasmError> = None;

    let out = WasmEnv::handle_error::<u8>(&mut slot, Err(WasmError::NoMemory));
    assert_eq!(out, None);
    assert!(matches!(slot, Some(WasmError::NoMemory)));

    let out = WasmEnv::handle_error::<u8>(&mut slot, Err(WasmError::AlreadyErrored));
    assert_eq!(out, None);
    assert!(matches!(slot, Some(WasmError::NoMemory)));

    let out = WasmEnv::handle_error::<u8>(&mut slot, Err(WasmError::MutexPoisoned));
    assert_eq!(out, None);
    assert!(matches!(slot, Some(WasmError::NoMemory)));

    // a success after a recorded failure passes through and changes nothing
    let out = WasmEnv::handle_error(&mut slot, Ok("fine"));
    assert_eq!(out, Some("fine"));
    assert!(matches!(slot, Some(WasmError::NoMemory)));
}

struct PrintEnv {
    error: Arc<Mutex<Option<WasmError>>>,
    memory: Arc<Mutex<Option<Memory>>>,
    printed: Arc<Mutex<Vec<String>>>,
}

fn print(mut env_mut: FunctionEnvMut<PrintEnv>, ptr: i32, len: i32) {
    let (env, store) = env_mut.data_and_store_mut();
    let result = (|| {
        let memory = env.memory.lock().map_err(|_| WasmError::MutexPoisoned)?;
        // inside an import only the runtime's borrowed store context exists,
        // so the view is built from it directly
        let view = match memory.as_ref() {
            Some(m) => m.view(&store),
            None => return Err(WasmError::NoMemory),
        };
        let s = read_guest_string(&view, ptr as u32, len as u32)?;
        env.printed.lock().map_err(|_| WasmError::MutexPoisoned)?.push(s);
        Ok(())
    })();
    let mut slot = match env.error.try_lock() {
        Ok(slot) => slot,
        // a contended lock means another report is being recorded: discard
        Err(_) => return,
    };
    WasmEnv::handle_error(&mut slot, result).unwrap_or(());
}

// `run` reports "hi", then a region beyond the one-page bound, then an
// invalid UTF-8 region, then "hi" again; only the first failure may survive
const REPORTING_MODULE: &str = r#"
(module
  (import "debug" "print" (func $print (param i32 i32)))
  (memory (export "memory") 1)
  (data (i32.const 0) "hi")
  (data (i32.const 8) "\ff\fe")
  (func (export "run")
    (call $print (i32.const 0) (i32.const 2))
    (call $print (i32.const 0) (i32.const 70000))
    (call $print (i32.const 8) (i32.const 2))
    (call $print (i32.const 0) (i32.const 2))))
"#;

#[test]
fn import_failures_never_interrupt_the_guest_and_first_error_survives() {
    let bytes = wasmer::wat2wasm(REPORTING_MODULE.as_bytes())
        .expect("valid wat")
        .into_owned();

    // the embedder builds the print function against the store the instance
    // will live in, and the library registers it under debug.print
    let mut store = new_store();
    let error = Arc::new(Mutex::new(None));
    let memory = Arc::new(Mutex::new(None));
    let printed = Arc::new(Mutex::new(Vec::new()));
    let env = FunctionEnv::new(
        &mut store,
        PrintEnv { error: error.clone(), memory: memory.clone(), printed: printed.clone() },
    );
    let print_fn = Function::new_typed_with_env(&mut store, &env, print);

    let wasm = Wasm { bytes: Box::leak(bytes.into_boxed_slice()) };
    let mut instance = wasm
        .new_wasm_instance(NewWasmInstanceOptions {
            config_path: "",
            store,
            print: Some(print_fn),
        })
        .expect("module with the print import instantiates through the library");

    // share the instance's bound memory with the print import
    let bound: Option<Memory> = instance.env.memory.clone();
    *memory.lock().unwrap() = bound;

    // the guest runs to completion: no import failure unwinds into it
    instance.run("run").expect("guest run completes");

    // both in-bounds reports got through, before and after the failures
    assert_eq!(*printed.lock().unwrap(), vec!["hi".to_string(), "hi".to_string()]);

    // the first failure (out of bounds) survives; the UTF-8 one was discarded
    let slot = error.lock().unwrap();
    assert!(matches!(*slot, Some(WasmError::MemoryAccess(_))));
}
