//! Dual-validation gates, allow-list resolution, reply shapes, and the
//! recommendation engine.

use wasmforge::capability::{
    admit_read_content, default_allowed_commands, format_calc_reply, format_file_read_reply,
    format_file_write_reply, format_http_get_reply, gate_file_write, gate_http_get,
    gate_shell_exec, recommend_categories, resolve_allowed_commands, shell_outcome_reply,
    CapabilityError, ShellOutcome,
};
use wasmforge::discovery::{DiscoveredTool, ToolSchema};
use wasmforge::guest::{prepare_http_get, prepare_shell_exec};
use wasmforge::signature::{FuncSignature, Pattern, ValueType};

fn contains(hay: &[u8], needle: &[u8]) -> bool {
    hay.windows(needle.len().max(1)).any(|w| w == needle)
}

#[test]
fn http_gate_issues_plan_only_on_guest_approval() {
    let plan = gate_http_get(1, b"https://example.com/").unwrap();
    assert_eq!(plan.url, b"https://example.com/".to_vec());
    assert_eq!(plan.timeout_secs, 30);
    assert_eq!(plan.user_agent, b"WasmForge/0.1.0".to_vec());
    assert!(matches!(gate_http_get(0, b"x"), Err(CapabilityError::GuestRejected)));
}

#[test]
fn bad_scheme_never_reaches_the_network() {
    // The guest rejects the scheme, so no fetch plan is ever issued and
    // nothing can be sent over the network.
    let verdict = prepare_http_get(b"ftp://x");
    assert_eq!(verdict, 0);
    assert!(matches!(gate_http_get(verdict, b"ftp://x"), Err(CapabilityError::GuestRejected)));
}

#[test]
fn http_reply_reports_length_and_body() {
    let reply = format_http_get_reply(b"https://example.com/", b"hi");
    assert!(contains(&reply, b"Content length: 2 bytes"));
    assert!(contains(&reply, b"hi"));
    assert!(contains(&reply, b"https://example.com/"));
}

#[test]
fn http_reply_previews_long_bodies() {
    let body = vec![b'x'; 600];
    let reply = format_http_get_reply(b"https://e/", &body);
    assert!(contains(&reply, b"Content length: 600 bytes"));
    assert!(contains(&reply, b"..."));
}

#[test]
fn read_cap_boundary_one_mib() {
    let exactly = vec![b'a'; 1048576];
    assert!(admit_read_content(&exactly).is_ok());
    let over = vec![b'a'; 1048577];
    assert!(matches!(
        admit_read_content(&over),
        Err(CapabilityError::ContentTooLarge { size: 1048577 })
    ));
}

#[test]
fn write_cap_boundary_ten_mib() {
    let exactly = vec![b'a'; 10485760];
    assert!(gate_file_write(1, &exactly).is_ok());
    let over = vec![b'a'; 10485761];
    assert!(matches!(gate_file_write(1, &over), Err(CapabilityError::ContentTooLarge { .. })));
    assert!(matches!(gate_file_write(0, b"small"), Err(CapabilityError::GuestRejected)));
}

#[test]
fn shell_gate_allows_echo_hello() {
    let allowed = default_allowed_commands();
    let verdict = prepare_shell_exec(b"echo hello");
    let plan = gate_shell_exec(verdict, b"echo hello", &allowed).unwrap();
    assert_eq!(plan.program, b"echo".to_vec());
    assert_eq!(plan.args, vec![b"hello".to_vec()]);
    assert_eq!(plan.timeout_secs, 10);
}

#[test]
fn shell_gate_blocks_programs_off_the_list() {
    let allowed = default_allowed_commands();
    let verdict = prepare_shell_exec(b"rm -rf /");
    assert_eq!(verdict, 1);
    match gate_shell_exec(verdict, b"rm -rf /", &allowed) {
        Err(CapabilityError::CommandNotAllowed { program }) => assert_eq!(program, b"rm".to_vec()),
        _ => panic!("expected the allow-list to refuse rm"),
    }
}

#[test]
fn shell_gate_blocks_metacharacters_at_the_guest() {
    let allowed = default_allowed_commands();
    let verdict = prepare_shell_exec(b"echo a | echo b");
    assert_eq!(verdict, 0);
    assert!(matches!(
        gate_shell_exec(verdict, b"echo a | echo b", &allowed),
        Err(CapabilityError::GuestRejected)
    ));
}

#[test]
fn shell_gate_reports_empty_commands() {
    let allowed = default_allowed_commands();
    assert!(matches!(
        gate_shell_exec(1, b"   ", &allowed),
        Err(CapabilityError::EmptyCommand)
    ));
}

#[test]
fn allow_list_resolution_order() {
    let security = vec![b"date".to_vec()];
    let r = resolve_allowed_commands(Some(&security), Some(b"a,b"));
    assert_eq!(r, vec![b"date".to_vec()]);
    let empty: Vec<Vec<u8>> = vec![];
    let r2 = resolve_allowed_commands(Some(&empty), Some(b" a , b ,, c "));
    assert_eq!(r2, vec![b"a".to_vec(), b"b".to_vec(), b"c".to_vec()]);
    let r3 = resolve_allowed_commands(None, Some(b" , ,"));
    assert_eq!(r3.len(), 5);
    assert_eq!(r3[0], b"echo".to_vec());
    let r4 = resolve_allowed_commands(None, None);
    assert_eq!(r4, default_allowed_commands());
}

#[test]
fn shell_reply_reports_exit_and_streams() {
    let outcome = ShellOutcome::Completed {
        exit_code: 0,
        stdout: b"hello\n".to_vec(),
        stderr: b"".to_vec(),
    };
    let reply = shell_outcome_reply(&outcome).unwrap();
    assert!(contains(&reply, b"Exit code: 0"));
    assert!(contains(&reply, b"hello"));
}

#[test]
fn shell_reply_truncates_streams() {
    let outcome = ShellOutcome::Completed {
        exit_code: 1,
        stdout: vec![b'z'; 5000],
        stderr: b"oops".to_vec(),
    };
    let reply = shell_outcome_reply(&outcome).unwrap();
    // 4096 of the filler bytes survive, the rest are cut.
    let zs = reply.iter().filter(|&&b| b == b'z').count();
    assert_eq!(zs, 4096);
    assert!(contains(&reply, b"Exit code: 1"));
}

#[test]
fn timed_out_shell_is_an_error() {
    assert!(matches!(
        shell_outcome_reply(&ShellOutcome::TimedOut),
        Err(CapabilityError::TimedOut)
    ));
}

#[test]
fn calc_and_io_reply_shapes() {
    let calc = format_calc_reply(5, b"test-module", b"add");
    assert!(contains(&calc, b"result: 5"));
    assert!(contains(&calc, b"test-module::add"));
    let neg = format_calc_reply(-3, b"m", b"f");
    assert!(contains(&neg, b"result: -3"));
    let read = format_file_read_reply(b"a.txt", b"body");
    assert!(contains(&read, b"Content length: 4 bytes"));
    assert!(contains(&read, b"body"));
    let write = format_file_write_reply(b"/tmp/a.txt", 11);
    assert!(contains(&write, b"Successfully wrote 11 bytes to /tmp/a.txt"));
}

fn preparer(fname: &[u8]) -> (Vec<u8>, DiscoveredTool) {
    let key = [b"m::".as_ref(), fname].concat();
    (
        key,
        DiscoveredTool {
            name: fname.to_vec(),
            module_name: b"m".to_vec(),
            function_name: fname.to_vec(),
            description: b"d".to_vec(),
            schema: ToolSchema::Data,
            signature: FuncSignature {
                params: vec![ValueType::I32, ValueType::I32],
                results: vec![ValueType::I32],
            },
            pattern: Pattern::PtrLenToI32,
        },
    )
}

#[test]
fn recommendation_picks_matching_categories() {
    let tools = vec![
        preparer(b"prepare_http_get"),
        preparer(b"prepare_file_read"),
        preparer(b"prepare_file_write"),
        preparer(b"prepare_shell_exec"),
    ];
    let cats = recommend_categories(&tools, b"download a file from a URL");
    let names: Vec<Vec<u8>> = cats.iter().map(|c| c.name.clone()).collect();
    assert_eq!(names, vec![b"web_browser".to_vec(), b"file_ops".to_vec()]);
    assert_eq!(cats[0].methods.len(), 1);
    assert_eq!(cats[0].methods[0].name, b"prepare_http_get".to_vec());
    assert_eq!(cats[1].methods.len(), 2);
}

#[test]
fn recommendation_falls_back_to_present_categories() {
    let tools = vec![preparer(b"prepare_http_get"), preparer(b"prepare_shell_exec")];
    let cats = recommend_categories(&tools, b"zzz");
    let names: Vec<Vec<u8>> = cats.iter().map(|c| c.name.clone()).collect();
    assert_eq!(names, vec![b"web_browser".to_vec(), b"shell_executor".to_vec()]);
}

#[test]
fn recommendation_with_no_tools_is_empty() {
    let tools: Vec<(Vec<u8>, DiscoveredTool)> = vec![];
    let cats = recommend_categories(&tools, b"download");
    assert!(cats.is_empty());
}

#[test]
fn recommendation_matching_is_case_insensitive() {
    let tools = vec![preparer(b"prepare_http_get")];
    let cats = recommend_categories(&tools, b"DOWNLOAD something");
    assert_eq!(cats.len(), 1);
    assert_eq!(cats[0].name, b"web_browser".to_vec());
}
