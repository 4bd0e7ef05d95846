//! The execution layer against real compiled modules: loading, export
//! listing, signatures, typed calls, and discovery over them.

use wasmforge::capability::{format_calc_reply, ToolError};
use wasmforge::config::{ModuleConfig, ModuleSource};
use wasmforge::discovery::ToolDiscovery;
use wasmforge::executor::WasmExecutor;
use wasmforge::manager::build_local_metadata;
use wasmforge::signature::ValueType;

/// One section: id, single-byte size, payload (all test payloads are
/// under 128 bytes).
fn section(id: u8, payload: Vec<u8>) -> Vec<u8> {
    assert!(payload.len() < 128);
    let mut out = vec![id, payload.len() as u8];
    out.extend(payload);
    out
}

fn export_entry(name: &[u8], kind: u8, index: u8) -> Vec<u8> {
    assert!(name.len() < 128);
    let mut out = vec![name.len() as u8];
    out.extend(name);
    out.push(kind);
    out.push(index);
    out
}

fn func_body(code: &[u8]) -> Vec<u8> {
    let mut body = vec![0u8]; // no locals
    body.extend(code);
    let mut out = vec![body.len() as u8];
    out.extend(body);
    out
}

/// A module exporting `add: (i32, i32) -> i32`, `validate_url`
/// (pointer/length shaped, always 1), `answer: () -> i32` (42), and its
/// linear memory.
fn main_module() -> Vec<u8> {
    let mut m = vec![0x00, 0x61, 0x73, 0x6d, 0x01, 0x00, 0x00, 0x00];
    // Types: (i32, i32) -> i32 and () -> i32.
    let mut types = vec![0x02];
    types.extend([0x60, 0x02, 0x7f, 0x7f, 0x01, 0x7f]);
    types.extend([0x60, 0x00, 0x01, 0x7f]);
    m.extend(section(1, types));
    m.extend(section(3, vec![0x03, 0x00, 0x00, 0x01]));
    m.extend(section(5, vec![0x01, 0x00, 0x01]));
    let mut exports = vec![0x04];
    exports.extend(export_entry(b"add", 0x00, 0));
    exports.extend(export_entry(b"validate_url", 0x00, 1));
    exports.extend(export_entry(b"answer", 0x00, 2));
    exports.extend(export_entry(b"memory", 0x02, 0));
    m.extend(section(7, exports));
    let mut code = vec![0x03];
    code.extend(func_body(&[0x20, 0x00, 0x20, 0x01, 0x6a, 0x0b])); // add
    code.extend(func_body(&[0x41, 0x01, 0x0b])); // always 1
    code.extend(func_body(&[0x41, 0x2a, 0x0b])); // 42
    m.extend(section(10, code));
    m
}

/// A module exporting both halves of the legacy fetch pair.
fn fetch_module() -> Vec<u8> {
    let mut m = vec![0x00, 0x61, 0x73, 0x6d, 0x01, 0x00, 0x00, 0x00];
    let mut types = vec![0x01];
    types.extend([0x60, 0x02, 0x7f, 0x7f, 0x01, 0x7f]);
    m.extend(section(1, types));
    m.extend(section(3, vec![0x02, 0x00, 0x00]));
    m.extend(section(5, vec![0x01, 0x00, 0x01]));
    let mut exports = vec![0x03];
    exports.extend(export_entry(b"validate_url", 0x00, 0));
    exports.extend(export_entry(b"process_response", 0x00, 1));
    exports.extend(export_entry(b"memory", 0x02, 0));
    m.extend(section(7, exports));
    let mut code = vec![0x02];
    code.extend(func_body(&[0x41, 0x01, 0x0b])); // always 1
    code.extend(func_body(&[0x41, 0xc8, 0x01, 0x0b])); // always 200
    m.extend(section(10, code));
    m
}

fn loaded_executor(name: &[u8], bytes: &[u8]) -> WasmExecutor {
    let cfg = ModuleConfig {
        name: name.to_vec(),
        version: Some(b"0.1.0".to_vec()),
        description: None,
        source: ModuleSource::Local { path: b"test.wasm".to_vec() },
        enabled: true,
        tools: None,
        metadata: None,
    };
    let meta = build_local_metadata(&cfg, b"test.wasm".to_vec(), bytes, 0).unwrap();
    let mut ex = WasmExecutor::new();
    ex.load_module_from_bytes(meta, bytes).unwrap();
    ex
}

#[test]
fn loads_and_lists_exported_functions() {
    let ex = loaded_executor(b"test-module", &main_module());
    assert!(ex.is_module_loaded(b"test-module"));
    assert!(!ex.is_module_loaded(b"other"));
    let funcs = ex.get_module_functions(b"test-module").unwrap();
    assert_eq!(funcs, vec![b"add".to_vec(), b"validate_url".to_vec(), b"answer".to_vec()]);
    let all = ex.get_all_functions();
    assert_eq!(all.len(), 1);
    assert_eq!(all[0].0, b"test-module".to_vec());
}

#[test]
fn signature_lookup_succeeds_exactly_for_listed_functions() {
    let ex = loaded_executor(b"test-module", &main_module());
    let funcs = ex.get_module_functions(b"test-module").unwrap();
    for f in &funcs {
        assert!(ex.get_function_signature(b"test-module", f).is_ok());
    }
    assert!(ex.get_function_signature(b"test-module", b"missing").is_err());
    assert!(ex.get_function_signature(b"other", b"add").is_err());
    let sig = ex.get_function_signature(b"test-module", b"add").unwrap();
    assert_eq!(sig.params, vec![ValueType::I32, ValueType::I32]);
    assert_eq!(sig.results, vec![ValueType::I32]);
    let sig2 = ex.get_function_signature(b"test-module", b"answer").unwrap();
    assert!(sig2.params.is_empty());
}

#[test]
fn arithmetic_call_through_the_engine() {
    let mut ex = loaded_executor(b"test-module", &main_module());
    let r = ex.call_function_i32_i32_to_i32(b"test-module", b"add", 2, 3).unwrap();
    assert_eq!(r, 5);
    let reply = format_calc_reply(r, b"test-module", b"add");
    let text = String::from_utf8(reply).unwrap();
    assert!(text.contains("result: 5"));
}

#[test]
fn no_params_call_through_the_engine() {
    let mut ex = loaded_executor(b"test-module", &main_module());
    let r = ex.call_function_no_params_to_i32(b"test-module", b"answer").unwrap();
    assert_eq!(r, 42);
}

#[test]
fn ptr_len_call_writes_memory_and_returns_verdict() {
    let mut ex = loaded_executor(b"test-module", &main_module());
    let r = ex
        .call_function_ptr_len_to_i32(b"test-module", b"validate_url", b"https://example.com/")
        .unwrap();
    assert_eq!(r, 1);
}

#[test]
fn calls_on_missing_modules_fail() {
    let mut ex = WasmExecutor::new();
    assert!(ex.call_function_i32_i32_to_i32(b"none", b"add", 1, 2).is_err());
    assert!(ex.call_function_ptr_len_to_i32(b"none", b"f", b"x").is_err());
    assert!(ex.call_function_no_params_to_i32(b"none", b"f").is_err());
}

#[test]
fn unload_removes_the_module() {
    let mut ex = loaded_executor(b"test-module", &main_module());
    assert!(ex.unload_module(b"test-module").is_ok());
    assert!(!ex.is_module_loaded(b"test-module"));
    assert!(ex.unload_module(b"test-module").is_err());
}

#[test]
fn fetch_validation_through_the_guest() {
    let mut ex = loaded_executor(b"fetcher", &fetch_module());
    assert!(ex.fetch_url_with_validation(b"fetcher", b"https://example.com/").is_ok());
    let reply = ex.finish_fetch(b"fetcher", b"https://example.com/", b"hi").unwrap();
    let text = String::from_utf8(reply).unwrap();
    assert!(text.contains("hi"));
    assert!(text.contains("https://example.com/"));
}

#[test]
fn missing_capability_function_is_an_execution_error() {
    let mut ex = loaded_executor(b"test-module", &main_module());
    let r = ex.http_get_with_validation(b"test-module", b"https://example.com/");
    assert!(matches!(r, Err(ToolError::Exec(_))));
}

#[test]
fn discovery_over_loaded_modules() {
    let mut ex = loaded_executor(b"test-module", &main_module());
    let cfg = ModuleConfig {
        name: b"fetcher".to_vec(),
        version: None,
        description: None,
        source: ModuleSource::Local { path: b"f.wasm".to_vec() },
        enabled: true,
        tools: None,
        metadata: None,
    };
    let fm = fetch_module();
    let meta = build_local_metadata(&cfg, b"f.wasm".to_vec(), &fm, 0).unwrap();
    ex.load_module_from_bytes(meta, &fm).unwrap();

    let mut d = ToolDiscovery::new();
    let count = d.discover_tools_from_executor(&ex);
    // test-module: add, validate_url, answer; fetcher: validate_url,
    // process_response, plus the synthetic fetch.
    assert_eq!(count, 6);
    assert_eq!(d.get_tool_count(), 6);
    assert!(d.get_tool(b"fetch").is_some());
    assert!(d.get_tool(b"test-module::add").is_some());
    assert!(d.get_tool(b"fetcher::process_response").is_some());
    assert!(d.find_tool_by_name(b"fetcher_validate_url").is_some());
    let list = d.get_mcp_tools_schema();
    assert_eq!(list.len(), 6);
}
