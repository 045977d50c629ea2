//! Instantiation, the single-memory invariant, export lookup, and the guest
//! entry point, driven through the library against the real runtime.

use wasmer_host::errors::WasmError;
use wasmer_host::instance::{
    check_exported_memories, new_store, NewWasmInstanceOptions, Wasm, WasmModuleInstance,
};

fn wat_bytes(wat: &str) -> &'static [u8] {
    let bytes = wasmer::wat2wasm(wat.as_bytes()).expect("valid wat").into_owned();
    Box::leak(bytes.into_boxed_slice())
}

fn instantiate(wat: &str) -> Result<WasmModuleInstance, WasmError> {
    let wasm = Wasm { bytes: wat_bytes(wat) };
    wasm.new_wasm_instance(NewWasmInstanceOptions {
        config_path: "",
        store: new_store(),
        print: None,
    })
}

const MODULE_OK: &str = r#"
(module
  (memory (export "memory") 1)
  (func (export "run")))
"#;

#[test]
fn instantiates_and_runs_single_memory_module() {
    let mut instance = instantiate(MODULE_OK).expect("single-memory module instantiates");
    instance.run("run").expect("exported run succeeds");
    assert!(instance.captured_error().is_none());
    // the store is free again once the call returned: a second run succeeds
    instance.run("run").expect("a later run succeeds too");
    assert!(instance.captured_error().is_none());
}

#[test]
fn export_error_context_carries_both_parts() {
    let err = wasmer_host::errors::export_error_context(
        wasmer::ExportError::IncompatibleType,
        "run".to_string(),
    );
    match err {
        WasmError::Export { original, context } => {
            assert_eq!(context, "run");
            assert!(matches!(original, wasmer::ExportError::IncompatibleType));
        }
        _ => panic!("expected an export error"),
    }
}

#[test]
fn rejects_module_without_exported_memory() {
    let err = instantiate("(module (func (export \"run\")))").err().expect("must be rejected");
    match err {
        WasmError::Unspecified(msg) => assert_eq!(msg, "Module does not exports memory"),
        _ => panic!("expected the module-memory unspecified error"),
    }
}

#[test]
fn rejects_zero_and_multiple_memory_names() {
    let none: Vec<String> = vec![];
    match check_exported_memories(&none) {
        Err(WasmError::Unspecified(msg)) => assert_eq!(msg, "Module does not exports memory"),
        _ => panic!("expected the module-memory unspecified error"),
    }

    let two = vec!["m1".to_string(), "m2".to_string()];
    match check_exported_memories(&two) {
        Err(WasmError::Unspecified(msg)) => assert_eq!(msg, "Module exports multiple memories"),
        _ => panic!("expected the module-memory unspecified error"),
    }

    let one = vec!["memory".to_string()];
    assert_eq!(check_exported_memories(&one).unwrap(), "memory");
}

#[test]
fn missing_export_fails_with_run_context() {
    let mut instance = instantiate(MODULE_OK).expect("single-memory module instantiates");
    let err = instance.run("nonexistent").unwrap_err();
    match err {
        WasmError::Export { original, context } => {
            assert_eq!(context, "run");
            assert!(matches!(original, wasmer::ExportError::Missing(_)));
        }
        _ => panic!("expected an export error"),
    }
}

#[test]
fn wrongly_typed_export_fails_with_run_context() {
    // `run` exists but returns a value, so the zero-result lookup must fail
    let wat = r#"
(module
  (memory (export "memory") 1)
  (func (export "run") (result i32) (i32.const 5)))
"#;
    let mut instance = instantiate(wat).expect("module instantiates");
    let err = instance.run("run").unwrap_err();
    match err {
        WasmError::Export { original, context } => {
            assert_eq!(context, "run");
            assert!(matches!(original, wasmer::ExportError::IncompatibleType));
        }
        _ => panic!("expected an export error"),
    }
}

#[test]
fn guest_can_call_registered_multivalue_imports() {
    // the registrar binds both multivalue variants; a guest may link either
    let wat = r#"
(module
  (import "debug" "test_multivalue_dynamic" (func $d (result i32 i32 i32 i32)))
  (import "debug" "test_multivalue_static" (func $s (result i32 i32 i32 i32)))
  (memory (export "memory") 1)
  (func (export "run")
    (call $d) (drop) (drop) (drop) (drop)
    (call $s) (drop) (drop) (drop) (drop)))
"#;
    let mut instance = instantiate(wat).expect("module with debug imports instantiates");
    instance.run("run").expect("guest call through both imports succeeds");
    assert!(instance.captured_error().is_none());
}

#[test]
fn unknown_import_fails_at_instantiation() {
    let wat = r#"
(module
  (import "debug" "no_such_import" (func $f))
  (memory (export "memory") 1)
  (func (export "run") (call $f)))
"#;
    let err = instantiate(wat).err().expect("must be rejected");
    assert!(matches!(err, WasmError::Instantiation(_)));
}
