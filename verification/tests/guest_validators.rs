//! The guest validators' decisions on concrete inputs.

use wasmforge::guest::{
    add, prepare_file_read, prepare_file_write, prepare_http_get, prepare_recommend_mcps,
    prepare_shell_exec, process_response, validate_url,
};

#[test]
fn validate_url_accepts_http_and_https() {
    assert_eq!(validate_url(b"http://example.com"), 1);
    assert_eq!(validate_url(b"https://example.com/"), 1);
}

#[test]
fn validate_url_rejects_other_schemes_and_empty() {
    assert_eq!(validate_url(b"ftp://x"), 0);
    assert_eq!(validate_url(b""), 0);
    assert_eq!(validate_url(b"example.com"), 0);
}

#[test]
fn validate_url_rejects_invalid_utf8() {
    assert_eq!(validate_url(b"http://\xff\xfe"), 0);
}

#[test]
fn process_response_verdicts() {
    assert_eq!(process_response(b"hi"), 200);
    assert_eq!(process_response(b""), 0);
    assert_eq!(process_response(b"\xff\xfe"), 500);
}

#[test]
fn prepare_http_get_length_boundary() {
    // 2048 bytes in all: the prefix plus padding.
    let mut url = b"https://".to_vec();
    url.extend(std::iter::repeat(b'a').take(2048 - url.len()));
    assert_eq!(url.len(), 2048);
    assert_eq!(prepare_http_get(&url), 1);
    url.push(b'a');
    assert_eq!(url.len(), 2049);
    assert_eq!(prepare_http_get(&url), 0);
}

#[test]
fn prepare_http_get_rejects_bad_scheme() {
    assert_eq!(prepare_http_get(b"ftp://x"), 0);
    assert_eq!(prepare_http_get(b""), 0);
}

#[test]
fn prepare_file_read_accepts_plain_paths() {
    assert_eq!(prepare_file_read(b"notes.txt"), 1);
    assert_eq!(prepare_file_read(b"config.yaml"), 1);
    assert_eq!(prepare_file_read(b"no_extension"), 1);
}

#[test]
fn prepare_file_read_rejects_dangerous_paths() {
    assert_eq!(prepare_file_read(b"../etc/passwd"), 0);
    assert_eq!(prepare_file_read(b"/etc/passwd"), 0);
    assert_eq!(prepare_file_read(b"/proc/self/maps"), 0);
    assert_eq!(prepare_file_read(b"tool.exe"), 0);
    assert_eq!(prepare_file_read(b""), 0);
}

#[test]
fn prepare_file_read_rejects_long_paths() {
    let path = vec![b'a'; 1025];
    assert_eq!(prepare_file_read(&path), 0);
    let path_ok = vec![b'a'; 1024];
    assert_eq!(prepare_file_read(&path_ok), 1);
}

#[test]
fn prepare_file_write_safe_locations_only() {
    assert_eq!(prepare_file_write(b"/tmp/out.txt"), 1);
    assert_eq!(prepare_file_write(b"/var/tmp/out.log"), 1);
    assert_eq!(prepare_file_write(b"./local.tmp"), 1);
    assert_eq!(prepare_file_write(b"relative.txt"), 1);
    assert_eq!(prepare_file_write(b"/var/out.txt"), 0);
    assert_eq!(prepare_file_write(b"/etc/shadow.txt"), 0);
    assert_eq!(prepare_file_write(b"/root/x.txt"), 0);
    assert_eq!(prepare_file_write(b"up/../down.txt"), 0);
    assert_eq!(prepare_file_write(b"/tmp/binary.exe"), 0);
}

#[test]
fn prepare_shell_exec_charset_rules() {
    assert_eq!(prepare_shell_exec(b"echo hello"), 1);
    assert_eq!(prepare_shell_exec(b"rm -rf /"), 1);
    assert_eq!(prepare_shell_exec(b"echo a | echo b"), 0);
    assert_eq!(prepare_shell_exec(b"echo hi > f"), 0);
    assert_eq!(prepare_shell_exec(b"echo hi; ls"), 0);
    assert_eq!(prepare_shell_exec(b""), 0);
}

#[test]
fn prepare_shell_exec_length_boundary() {
    let cmd = vec![b'a'; 200];
    assert_eq!(prepare_shell_exec(&cmd), 1);
    let cmd_long = vec![b'a'; 201];
    assert_eq!(prepare_shell_exec(&cmd_long), 0);
}

#[test]
fn prepare_recommend_mcps_charset_rules() {
    assert_eq!(prepare_recommend_mcps(b"download a file from a URL"), 1);
    assert_eq!(prepare_recommend_mcps("caf\u{e9}".as_bytes()), 0);
    assert_eq!(prepare_recommend_mcps(b""), 0);
    let task = vec![b'a'; 501];
    assert_eq!(prepare_recommend_mcps(&task), 0);
}

#[test]
fn add_wraps_like_guest_arithmetic() {
    assert_eq!(add(2, 3), 5);
    assert_eq!(add(i32::MAX, 1), i32::MIN);
}
