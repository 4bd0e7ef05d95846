//! Classification, naming, schemas, overrides, and routing.

use wasmforge::config::{ModuleConfig, ModuleSource, ToolConfig};
use wasmforge::discovery::{
    generate_description_with, tool_key_of, tool_name_of, DiscoveredTool, ToolDiscovery, ToolSchema,
};
use wasmforge::dispatch::{route_method, select_handler, HandlerKind, MethodKind};
use wasmforge::signature::{FuncSignature, Pattern, ValueType};

fn sig(params: Vec<ValueType>, results: Vec<ValueType>) -> FuncSignature {
    FuncSignature { params, results }
}

fn pair_sig() -> FuncSignature {
    sig(vec![ValueType::I32, ValueType::I32], vec![ValueType::I32])
}

#[test]
fn matches_pattern_shapes() {
    let two = pair_sig();
    assert!(two.matches_pattern(Pattern::I32I32ToI32));
    assert!(two.matches_pattern(Pattern::PtrLenToI32));
    assert!(!two.matches_pattern(Pattern::NoParamsToI32));
    let none = sig(vec![], vec![ValueType::I32]);
    assert!(none.matches_pattern(Pattern::NoParamsToI32));
    assert!(!none.matches_pattern(Pattern::I32I32ToI32));
    let odd = sig(vec![ValueType::I64], vec![ValueType::I32]);
    assert!(!odd.matches_pattern(Pattern::I32I32ToI32));
    assert_eq!(two.param_count(), 2);
    assert_eq!(two.result_count(), 1);
}

#[test]
fn analyze_classifies_add_as_integer_pair() {
    let d = ToolDiscovery::new();
    let t = d.analyze_function(b"test-module", b"add", pair_sig()).unwrap();
    assert_eq!(t.pattern, Pattern::I32I32ToI32);
    assert_eq!(t.name, b"add".to_vec());
    assert!(matches!(t.schema, ToolSchema::IntPair));
    assert_eq!(
        t.description,
        b"Add two numbers using WebAssembly (from module: test-module)".to_vec()
    );
}

#[test]
fn analyze_namespaces_other_modules() {
    let d = ToolDiscovery::new();
    let t = d.analyze_function(b"my-mod", b"add", pair_sig()).unwrap();
    assert_eq!(t.name, b"my_mod_add".to_vec());
}

#[test]
fn analyze_skips_reserved_names() {
    let d = ToolDiscovery::new();
    assert!(d.analyze_function(b"m", b"_internal", pair_sig()).is_none());
}

#[test]
fn analyze_skips_unsupported_signatures() {
    let d = ToolDiscovery::new();
    assert!(d.analyze_function(b"m", b"f", sig(vec![ValueType::F64], vec![])).is_none());
}

#[test]
fn analyze_recognises_known_validators_as_ptr_len() {
    let d = ToolDiscovery::new();
    let t = d.analyze_function(b"m", b"prepare_http_get", pair_sig()).unwrap();
    assert_eq!(t.pattern, Pattern::PtrLenToI32);
    assert!(matches!(t.schema, ToolSchema::Url));
    let t2 = d.analyze_function(b"m", b"prepare_file_write", pair_sig()).unwrap();
    assert!(matches!(t2.schema, ToolSchema::PathContent));
    let t3 = d.analyze_function(b"m", b"validate_url", pair_sig()).unwrap();
    assert!(matches!(t3.schema, ToolSchema::Data));
}

#[test]
fn analyze_applies_configured_overrides() {
    let mut d = ToolDiscovery::new();
    let modules = vec![ModuleConfig {
        name: b"m".to_vec(),
        version: None,
        description: None,
        source: ModuleSource::Local { path: b"m.wasm".to_vec() },
        enabled: true,
        tools: Some(vec![ToolConfig {
            name: b"add".to_vec(),
            description: Some(b"Adds things".to_vec()),
            function_name: b"add".to_vec(),
            parameters: Some(b"{\"type\":\"object\"}".to_vec()),
            security: None,
        }]),
        metadata: None,
    }];
    d.load_tool_configs(&modules);
    let t = d.analyze_function(b"m", b"add", pair_sig()).unwrap();
    assert_eq!(t.description, b"Adds things".to_vec());
    match t.schema {
        ToolSchema::Custom(raw) => assert_eq!(raw, b"{\"type\":\"object\"}".to_vec()),
        _ => panic!("expected the configured schema"),
    }
}

#[test]
fn overrides_are_keyed_by_function_name() {
    let mut d = ToolDiscovery::new();
    let modules = vec![ModuleConfig {
        name: b"m".to_vec(),
        version: None,
        description: None,
        source: ModuleSource::Local { path: b"m.wasm".to_vec() },
        enabled: true,
        tools: Some(vec![
            ToolConfig {
                name: b"other".to_vec(),
                description: Some(b"Custom add".to_vec()),
                function_name: b"add".to_vec(),
                parameters: None,
                security: None,
            },
            ToolConfig {
                name: b"mul".to_vec(),
                description: Some(b"Never used".to_vec()),
                function_name: b"zzz".to_vec(),
                parameters: None,
                security: None,
            },
        ]),
        metadata: None,
    }];
    d.load_tool_configs(&modules);
    // The entry describing export `add` applies even under another public
    // name; the entry describing `zzz` applies to no analyzed export.
    let t = d.analyze_function(b"m", b"add", pair_sig()).unwrap();
    assert_eq!(t.description, b"Custom add".to_vec());
    let u = d.analyze_function(b"m", b"mul", pair_sig()).unwrap();
    assert_eq!(u.description, b"Multiply two numbers using WebAssembly (from module: m)".to_vec());
}

#[test]
fn description_table_and_keywords() {
    assert_eq!(
        generate_description_with(b"m", b"encrypt", b"dflt"),
        b"Encrypt data using WebAssembly (from module: m)".to_vec()
    );
    assert_eq!(
        generate_description_with(b"m", b"my_validate_thing", b"dflt"),
        b"Validate input data using WebAssembly (from module: m)".to_vec()
    );
    assert_eq!(generate_description_with(b"m", b"other", b"dflt"), b"dflt (from module: m)".to_vec());
}

#[test]
fn naming_rules() {
    assert_eq!(tool_name_of(b"test-module", b"f"), b"f".to_vec());
    assert_eq!(tool_name_of(b"my-cool-mod", b"f"), b"my_cool_mod_f".to_vec());
    assert_eq!(tool_key_of(b"m", b"f"), b"m::f".to_vec());
}

#[test]
fn routing_table() {
    assert_eq!(route_method(b"initialize"), MethodKind::Initialize);
    assert_eq!(route_method(b"tools/list"), MethodKind::ToolsList);
    assert_eq!(route_method(b"tools/call"), MethodKind::ToolsCall);
    assert_eq!(route_method(b"nope"), MethodKind::Unknown);
}

fn tool(fname: &[u8], public: &[u8], pattern: Pattern) -> DiscoveredTool {
    DiscoveredTool {
        name: public.to_vec(),
        module_name: b"m".to_vec(),
        function_name: fname.to_vec(),
        description: b"d".to_vec(),
        schema: ToolSchema::Data,
        signature: pair_sig(),
        pattern,
    }
}

#[test]
fn handler_selection_table() {
    assert_eq!(select_handler(&tool(b"add", b"add", Pattern::I32I32ToI32)), HandlerKind::DirectPair);
    assert_eq!(
        select_handler(&tool(b"ping", b"ping", Pattern::NoParamsToI32)),
        HandlerKind::DirectNoParams
    );
    assert_eq!(
        select_handler(&tool(b"validate_url", b"validate_url", Pattern::PtrLenToI32)),
        HandlerKind::ValidateUrl
    );
    assert_eq!(
        select_handler(&tool(b"prepare_http_get", b"x", Pattern::PtrLenToI32)),
        HandlerKind::HttpGet
    );
    assert_eq!(
        select_handler(&tool(b"prepare_file_read", b"x", Pattern::PtrLenToI32)),
        HandlerKind::FileRead
    );
    assert_eq!(
        select_handler(&tool(b"prepare_file_write", b"x", Pattern::PtrLenToI32)),
        HandlerKind::FileWrite
    );
    assert_eq!(
        select_handler(&tool(b"prepare_shell_exec", b"x", Pattern::PtrLenToI32)),
        HandlerKind::ShellExec
    );
    assert_eq!(
        select_handler(&tool(b"fetch", b"fetch", Pattern::PtrLenToI32)),
        HandlerKind::LegacyFetch
    );
    assert_eq!(
        select_handler(&tool(b"prepare_recommend_mcps", b"x", Pattern::PtrLenToI32)),
        HandlerKind::Recommend
    );
    assert_eq!(
        select_handler(&tool(b"custom_thing", b"x", Pattern::PtrLenToI32)),
        HandlerKind::DirectData
    );
}

#[test]
fn tools_schema_lists_each_tool_once() {
    let mut d = ToolDiscovery::new();
    d.discovered_tools.push((b"m::a".to_vec(), tool(b"a", b"a", Pattern::I32I32ToI32)));
    d.discovered_tools.push((b"m::b".to_vec(), tool(b"b", b"m_b", Pattern::NoParamsToI32)));
    let list = d.get_mcp_tools_schema();
    assert_eq!(list.len(), 2);
    assert_eq!(list[0].name, b"a".to_vec());
    assert_eq!(list[1].name, b"m_b".to_vec());
    assert_eq!(d.get_tool_count(), 2);
    assert!(d.get_tool(b"m::a").is_some());
    assert!(d.get_tool(b"a").is_none());
    assert!(d.find_tool_by_name(b"m_b").is_some());
    assert!(d.find_tool_by_name(b"zzz").is_none());
    let by_mod = d.get_tools_by_module(b"m");
    assert_eq!(by_mod.len(), 2);
}
