//! The capability executor's decisions. Every side-effecting capability
//! is admitted in two stages: the guest validator must have returned 1,
//! and the host's own policy (size caps, allow-list, timeouts) must
//! accept the input. The functions here take the guest's verdict and the
//! plain values and decide, with contracts that say exactly when a
//! capability proceeds; performing the I/O itself is left to the caller,
//! which can act only on a plan issued here.

use vstd::prelude::*;
use crate::discovery::{DiscoveredTool, ToolSchema, schema_eq, copy_schema};
use crate::text::{
    spec_split_ws, split_ws, spec_csv_items, csv_items, lower_bytes, to_ascii_lower, contains_seq,
    contains, push_all, copy_bytes, take_prefix, u64_to_dec, i32_to_dec, spec_dec_u64,
    spec_dec_i32, bytes_eq,
};
use vstd::string::StringSliceAdditionalSpecFns;

verus! {

/// A file read reply is refused above this many bytes.
pub const FILE_READ_MAX_BYTES: usize = 1048576;

/// A file write is refused above this many bytes.
pub const FILE_WRITE_MAX_BYTES: usize = 10485760;

/// Captured stdout and stderr are cut to this many bytes each.
pub const STDIO_TRUNCATE_BYTES: usize = 4096;

/// An HTTP GET reply shows at most this many body bytes.
pub const HTTP_PREVIEW_BYTES: usize = 500;

/// The HTTP GET capability's timeout, in seconds.
pub const HTTP_TIMEOUT_SECS: u64 = 30;

/// The subprocess capability's wall-clock timeout, in seconds.
pub const SHELL_TIMEOUT_SECS: u64 = 10;

/// Why a capability request was refused.
#[derive(Debug)]
pub enum CapabilityError {
    /// The guest validator did not return 1.
    GuestRejected,
    /// The guest response processor did not return 200; its verdict is
    /// carried along.
    ProcessingFailed { status: i32 },
    /// The command held no tokens.
    EmptyCommand,
    /// The command's program is not on the allow-list.
    CommandNotAllowed { program: Vec<u8> },
    /// A payload exceeded the host's size cap.
    ContentTooLarge { size: usize },
    /// The action ran past its timeout and was killed.
    TimedOut,
}

/// What the host will do for an admitted HTTP GET: fetch this URL with
/// this timeout and this agent string.
pub struct HttpGetPlan {
    pub url: Vec<u8>,
    pub timeout_secs: u64,
    pub user_agent: Vec<u8>,
}

/// What the host will do for an admitted subprocess request: spawn the
/// program with the arguments, no shell involved, under the timeout.
pub struct ShellPlan {
    pub program: Vec<u8>,
    pub args: Vec<Vec<u8>>,
    pub timeout_secs: u64,
}

/// First stage of dual validation for the HTTP GET capability: a plan is
/// issued exactly when the guest's `prepare_http_get` returned 1.
pub fn gate_http_get(guest_result: i32, url: &[u8]) -> (r: Result<HttpGetPlan, CapabilityError>)
    ensures
        r is Ok <==> guest_result == 1,
        match r {
            Ok(p) => p.url@ == url@ && p.timeout_secs == HTTP_TIMEOUT_SECS && p.user_agent@
                == "WasmForge/0.1.0".spec_bytes(),
            Err(e) => e is GuestRejected,
        },
{
    if guest_result != 1 {
        return Err(CapabilityError::GuestRejected);
    }
    Ok(
        HttpGetPlan {
            url: vstd::slice::slice_to_vec(url),
            timeout_secs: HTTP_TIMEOUT_SECS,
            user_agent: vstd::slice::slice_to_vec("WasmForge/0.1.0".as_bytes()),
        },
    )
}

/// First stage for the legacy fetch capability: the guest's
/// `validate_url` must have returned 1.
pub fn gate_fetch_url(guest_result: i32) -> (r: Result<(), CapabilityError>)
    ensures
        r is Ok <==> guest_result == 1,
        r is Err ==> (r matches Err(e) && e is GuestRejected),
{
    if guest_result == 1 {
        Ok(())
    } else {
        Err(CapabilityError::GuestRejected)
    }
}

/// Second stage for the legacy fetch capability: the guest's
/// `process_response` verdict must be 200 for the body to be released.
pub fn accept_fetch_response(status: i32) -> (r: Result<(), CapabilityError>)
    ensures
        r is Ok <==> status == 200,
        r is Err ==> r == Err::<(), CapabilityError>(
            CapabilityError::ProcessingFailed { status },
        ),
{
    if status == 200 {
        Ok(())
    } else {
        Err(CapabilityError::ProcessingFailed { status })
    }
}

/// First stage of dual validation for the file read capability.
pub fn gate_file_read(guest_result: i32) -> (r: Result<(), CapabilityError>)
    ensures
        r is Ok <==> guest_result == 1,
        r is Err ==> (r matches Err(e) && e is GuestRejected),
{
    if guest_result == 1 {
        Ok(())
    } else {
        Err(CapabilityError::GuestRejected)
    }
}

/// Host policy for the file read capability: content read from disk is
/// released only up to one MiB.
pub fn admit_read_content(content: &[u8]) -> (r: Result<(), CapabilityError>)
    ensures
        r is Ok <==> content@.len() <= FILE_READ_MAX_BYTES,
        r is Err ==> r == Err::<(), CapabilityError>(
            CapabilityError::ContentTooLarge { size: content@.len() as usize },
        ),
{
    if content.len() > FILE_READ_MAX_BYTES {
        Err(CapabilityError::ContentTooLarge { size: content.len() })
    } else {
        Ok(())
    }
}

/// Dual validation for the file write capability: the guest's verdict is
/// checked first, then the ten-MiB content cap. A write may proceed only
/// when both accept.
pub fn gate_file_write(guest_result: i32, content: &[u8]) -> (r: Result<(), CapabilityError>)
    ensures
        r is Ok <==> guest_result == 1 && content@.len() <= FILE_WRITE_MAX_BYTES,
        guest_result != 1 ==> (r matches Err(e) && e is GuestRejected),
        guest_result == 1 && content@.len() > FILE_WRITE_MAX_BYTES ==> r == Err::<
            (),
            CapabilityError,
        >(CapabilityError::ContentTooLarge { size: content@.len() as usize }),
{
    if guest_result != 1 {
        return Err(CapabilityError::GuestRejected);
    }
    if content.len() > FILE_WRITE_MAX_BYTES {
        return Err(CapabilityError::ContentTooLarge { size: content.len() });
    }
    Ok(())
}

/// The allow-list contains the program.
pub open spec fn spec_allows(allowed: Seq<Vec<u8>>, program: Seq<u8>) -> bool {
    exists|i: int| 0 <= i < allowed.len() && allowed[i]@ == program
}

/// Dual validation for the subprocess capability: the guest's verdict is
/// checked first; then the command is split on whitespace, must be
/// non-empty, and its first token must appear in the allow-list. The plan
/// carries the program, the remaining tokens as arguments, and the
/// timeout; no shell is ever involved.
pub fn gate_shell_exec(guest_result: i32, command: &[u8], allowed: &Vec<Vec<u8>>) -> (r: Result<
    ShellPlan,
    CapabilityError,
>)
    ensures
        r is Ok <==> guest_result == 1 && spec_split_ws(command@).len() > 0 && spec_allows(
            allowed@,
            spec_split_ws(command@)[0],
        ),
        guest_result != 1 ==> (r matches Err(e) && e is GuestRejected),
        guest_result == 1 && spec_split_ws(command@).len() == 0 ==> (r matches Err(e)
            && e is EmptyCommand),
        guest_result == 1 && spec_split_ws(command@).len() > 0 && !spec_allows(
            allowed@,
            spec_split_ws(command@)[0],
        ) ==> (r matches Err(e) && (e matches CapabilityError::CommandNotAllowed { program }
            && program@ == spec_split_ws(command@)[0])),
        match r {
            Ok(p) => {
                &&& p.program@ == spec_split_ws(command@)[0]
                &&& p.args@.len() == spec_split_ws(command@).len() - 1
                &&& (forall|k: int| 0 <= k < p.args@.len() ==> p.args@[k]@ == spec_split_ws(
                    command@,
                )[k + 1])
                &&& p.timeout_secs == SHELL_TIMEOUT_SECS
            },
            Err(_) => true,
        },
{
    if guest_result != 1 {
        return Err(CapabilityError::GuestRejected);
    }
    let mut tokens = split_ws(command);
    if tokens.len() == 0 {
        return Err(CapabilityError::EmptyCommand);
    }
    let ghost toks = spec_split_ws(command@);
    let program = tokens.remove(0);
    proof {
        assert(program@ == toks[0]);
    }
    let mut found = false;
    let mut i: usize = 0;
    while i < allowed.len()
        invariant
            0 <= i <= allowed@.len(),
            found ==> spec_allows(allowed@, program@),
            !found ==> forall|j: int| 0 <= j < i ==> allowed@[j]@ != program@,
        decreases allowed@.len() - i,
    {
        if !found && bytes_eq(allowed[i].as_slice(), program.as_slice()) {
            found = true;
        }
        i = i + 1;
    }
    if !found {
        return Err(CapabilityError::CommandNotAllowed { program });
    }
    proof {
        assert(tokens@.len() == toks.len() - 1);
        assert(forall|k: int| 0 <= k < tokens@.len() ==> tokens@[k]@ == toks[k + 1]);
    }
    Ok(ShellPlan { program, args: tokens, timeout_secs: SHELL_TIMEOUT_SECS })
}

/// The built-in allow-list: echo, cat, ls, wc, uname.
pub open spec fn spec_default_allowed() -> Seq<Seq<u8>> {
    seq![
        "echo".spec_bytes(),
        "cat".spec_bytes(),
        "ls".spec_bytes(),
        "wc".spec_bytes(),
        "uname".spec_bytes(),
    ]
}

/// The built-in allow-list, executably.
pub fn default_allowed_commands() -> (r: Vec<Vec<u8>>)
    ensures
        r@.len() == spec_default_allowed().len(),
        forall|k: int| 0 <= k < r@.len() ==> r@[k]@ == spec_default_allowed()[k],
{
    let mut r: Vec<Vec<u8>> = Vec::new();
    r.push(vstd::slice::slice_to_vec("echo".as_bytes()));
    r.push(vstd::slice::slice_to_vec("cat".as_bytes()));
    r.push(vstd::slice::slice_to_vec("ls".as_bytes()));
    r.push(vstd::slice::slice_to_vec("wc".as_bytes()));
    r.push(vstd::slice::slice_to_vec("uname".as_bytes()));
    r
}

/// The result holds exactly the built-in allow-list.
pub open spec fn spec_is_default_allowed(r: Seq<Vec<u8>>) -> bool {
    r.len() == spec_default_allowed().len() && forall|k: int|
        0 <= k < r.len() ==> r[k]@ == spec_default_allowed()[k]
}

/// The result holds exactly the metadata fallback: the comma-separated
/// entries when any parse, else the built-in list.
pub open spec fn spec_is_allowed_fallback(r: Seq<Vec<u8>>, csv: Option<Seq<u8>>) -> bool {
    match csv {
        Option::Some(c) => if spec_csv_items(c).len() > 0 {
            r.len() == spec_csv_items(c).len() && forall|k: int|
                0 <= k < r.len() ==> r[k]@ == spec_csv_items(c)[k]
        } else {
            spec_is_default_allowed(r)
        },
        Option::None => spec_is_default_allowed(r),
    }
}

/// Resolves the allow-list: the tool's configured list when it is
/// non-empty, else the module metadata's comma-separated list when it
/// parses to something, else the built-in list. The first non-empty list
/// wins.
pub fn resolve_allowed_commands(
    tool_security: Option<&Vec<Vec<u8>>>,
    metadata_csv: Option<&[u8]>,
) -> (r: Vec<Vec<u8>>)
    ensures
        ({
            let csv = match metadata_csv {
                Option::Some(c) => Option::Some(c@),
                Option::None => Option::None,
            };
            match tool_security {
                Option::Some(list) => if list@.len() > 0 {
                    r@.len() == list@.len() && forall|k: int|
                        0 <= k < r@.len() ==> r@[k]@ == list@[k]@
                } else {
                    spec_is_allowed_fallback(r@, csv)
                },
                Option::None => spec_is_allowed_fallback(r@, csv),
            }
        }),
{
    match tool_security {
        Option::Some(list) => {
            if list.len() > 0 {
                let mut out: Vec<Vec<u8>> = Vec::new();
                let mut i: usize = 0;
                while i < list.len()
                    invariant
                        0 <= i <= list@.len(),
                        out@.len() == i,
                        forall|j: int| 0 <= j < i ==> out@[j]@ == list@[j]@,
                    decreases list@.len() - i,
                {
                    out.push(copy_bytes(&list[i]));
                    i = i + 1;
                }
                out
            } else {
                allowed_fallback(metadata_csv)
            }
        },
        Option::None => allowed_fallback(metadata_csv),
    }
}

fn allowed_fallback(metadata_csv: Option<&[u8]>) -> (r: Vec<Vec<u8>>)
    ensures
        ({
            let csv = match metadata_csv {
                Option::Some(c) => Option::Some(c@),
                Option::None => Option::None,
            };
            spec_is_allowed_fallback(r@, csv)
        }),
{
    match metadata_csv {
        Option::Some(c) => {
            let items = csv_items(c);
            if items.len() > 0 {
                items
            } else {
                default_allowed_commands()
            }
        },
        Option::None => default_allowed_commands(),
    }
}

/// The reply for a direct two-integer call:
/// `WASM calculation result: <n> (from <module>::<function>)`.
pub fn format_calc_reply(result: i32, module_name: &[u8], function_name: &[u8]) -> (r: Vec<u8>)
    ensures
        r@ == "WASM calculation result: ".spec_bytes() + spec_dec_i32(result as int)
            + " (from ".spec_bytes() + module_name@ + "::".spec_bytes() + function_name@
            + ")".spec_bytes(),
{
    let mut r = vstd::slice::slice_to_vec("WASM calculation result: ".as_bytes());
    let d = i32_to_dec(result);
    push_all(&mut r, d.as_slice());
    push_all(&mut r, " (from ".as_bytes());
    push_all(&mut r, module_name);
    push_all(&mut r, "::".as_bytes());
    push_all(&mut r, function_name);
    push_all(&mut r, ")".as_bytes());
    r
}

/// The reply for a direct no-argument call.
pub fn format_wasm_result_reply(result: i32, module_name: &[u8], function_name: &[u8]) -> (r: Vec<
    u8,
>)
    ensures
        r@ == "WASM result: ".spec_bytes() + spec_dec_i32(result as int) + " (from ".spec_bytes()
            + module_name@ + "::".spec_bytes() + function_name@ + ")".spec_bytes(),
{
    let mut r = vstd::slice::slice_to_vec("WASM result: ".as_bytes());
    let d = i32_to_dec(result);
    push_all(&mut r, d.as_slice());
    push_all(&mut r, " (from ".as_bytes());
    push_all(&mut r, module_name);
    push_all(&mut r, "::".as_bytes());
    push_all(&mut r, function_name);
    push_all(&mut r, ")".as_bytes());
    r
}

/// The reply for a direct pointer/length call on arbitrary data.
pub fn format_processing_reply(result: i32, module_name: &[u8], function_name: &[u8]) -> (r: Vec<
    u8,
>)
    ensures
        r@ == "WASM processing result: ".spec_bytes() + spec_dec_i32(result as int)
            + " (from ".spec_bytes() + module_name@ + "::".spec_bytes() + function_name@
            + ")".spec_bytes(),
{
    let mut r = vstd::slice::slice_to_vec("WASM processing result: ".as_bytes());
    let d = i32_to_dec(result);
    push_all(&mut r, d.as_slice());
    push_all(&mut r, " (from ".as_bytes());
    push_all(&mut r, module_name);
    push_all(&mut r, "::".as_bytes());
    push_all(&mut r, function_name);
    push_all(&mut r, ")".as_bytes());
    r
}

/// The reply for a direct URL validation call.
pub fn format_url_validation_reply(result: i32) -> (r: Vec<u8>)
    ensures
        r@ == "URL validation result: ".spec_bytes() + spec_dec_i32(result as int)
            + " (1=valid, 0=invalid)".spec_bytes(),
{
    let mut r = vstd::slice::slice_to_vec("URL validation result: ".as_bytes());
    let d = i32_to_dec(result);
    push_all(&mut r, d.as_slice());
    push_all(&mut r, " (1=valid, 0=invalid)".as_bytes());
    r
}

/// The preview of a body: the whole body up to the cap, else the first
/// `HTTP_PREVIEW_BYTES` bytes with a trailing ellipsis.
pub open spec fn spec_preview(body: Seq<u8>) -> Seq<u8> {
    if body.len() > HTTP_PREVIEW_BYTES {
        body.subrange(0, HTTP_PREVIEW_BYTES as int) + "...".spec_bytes()
    } else {
        body
    }
}

fn preview_of(body: &[u8]) -> (r: Vec<u8>)
    ensures
        r@ == spec_preview(body@),
{
    if body.len() > HTTP_PREVIEW_BYTES {
        let mut r = take_prefix(body, HTTP_PREVIEW_BYTES);
        push_all(&mut r, "...".as_bytes());
        r
    } else {
        vstd::slice::slice_to_vec(body)
    }
}

/// The reply for a successful HTTP GET: the URL, the body length, and a
/// 500-byte preview.
pub fn format_http_get_reply(url: &[u8], body: &[u8]) -> (r: Vec<u8>)
    ensures
        r@ == "HTTP GET successful!\nURL: ".spec_bytes() + url@
            + "\nContent length: ".spec_bytes() + spec_dec_u64(body@.len() as nat)
            + " bytes\n\nContent preview (first 500 chars):\n".spec_bytes() + spec_preview(
            body@,
        ),
        body@.len() <= u64::MAX,
{
    let mut r = vstd::slice::slice_to_vec("HTTP GET successful!\nURL: ".as_bytes());
    push_all(&mut r, url);
    push_all(&mut r, "\nContent length: ".as_bytes());
    let d = u64_to_dec(body.len() as u64);
    push_all(&mut r, d.as_slice());
    push_all(&mut r, " bytes\n\nContent preview (first 500 chars):\n".as_bytes());
    let p = preview_of(body);
    push_all(&mut r, p.as_slice());
    r
}

/// The reply for a successful legacy fetch: the URL and a 500-byte
/// preview of the body.
pub fn format_fetch_reply(url: &[u8], body: &[u8]) -> (r: Vec<u8>)
    ensures
        r@ == "URL: ".spec_bytes() + url@ + "\n\nContent (first 500 chars):\n".spec_bytes()
            + spec_preview(body@),
{
    let mut r = vstd::slice::slice_to_vec("URL: ".as_bytes());
    push_all(&mut r, url);
    push_all(&mut r, "\n\nContent (first 500 chars):\n".as_bytes());
    let p = preview_of(body);
    push_all(&mut r, p.as_slice());
    r
}

/// The reply for a successful file read: the path, the length, and the
/// whole content.
pub fn format_file_read_reply(path: &[u8], content: &[u8]) -> (r: Vec<u8>)
    ensures
        r@ == "File read successful!\nPath: ".spec_bytes() + path@
            + "\nContent length: ".spec_bytes() + spec_dec_u64(content@.len() as nat)
            + " bytes\n\nContent:\n".spec_bytes() + content@,
{
    let mut r = vstd::slice::slice_to_vec("File read successful!\nPath: ".as_bytes());
    push_all(&mut r, path);
    push_all(&mut r, "\nContent length: ".as_bytes());
    let d = u64_to_dec(content.len() as u64);
    push_all(&mut r, d.as_slice());
    push_all(&mut r, " bytes\n\nContent:\n".as_bytes());
    push_all(&mut r, content);
    r
}

/// The reply for a successful file write: the path, the length, and the
/// byte-count confirmation.
pub fn format_file_write_reply(path: &[u8], content_len: u64) -> (r: Vec<u8>)
    ensures
        r@ == "File write successful!\nPath: ".spec_bytes() + path@
            + "\nContent length: ".spec_bytes() + spec_dec_u64(content_len as nat)
            + " bytes\nResult: Successfully wrote ".spec_bytes() + spec_dec_u64(
            content_len as nat,
        ) + " bytes to ".spec_bytes() + path@,
{
    let mut r = vstd::slice::slice_to_vec("File write successful!\nPath: ".as_bytes());
    push_all(&mut r, path);
    push_all(&mut r, "\nContent length: ".as_bytes());
    let d = u64_to_dec(content_len);
    push_all(&mut r, d.as_slice());
    push_all(&mut r, " bytes\nResult: Successfully wrote ".as_bytes());
    push_all(&mut r, d.as_slice());
    push_all(&mut r, " bytes to ".as_bytes());
    push_all(&mut r, path);
    r
}

/// How a spawned subprocess ended: with an exit code and captured
/// streams, or killed at the timeout.
pub enum ShellOutcome {
    Completed { exit_code: i32, stdout: Vec<u8>, stderr: Vec<u8> },
    TimedOut,
}

/// A captured stream, cut to the truncation cap.
pub open spec fn spec_truncated(s: Seq<u8>) -> Seq<u8> {
    if s.len() <= STDIO_TRUNCATE_BYTES {
        s
    } else {
        s.subrange(0, STDIO_TRUNCATE_BYTES as int)
    }
}

/// The reply for a finished subprocess: exit code and both streams, each
/// cut to 4096 bytes. A timed-out subprocess is reported as an error.
pub fn shell_outcome_reply(outcome: &ShellOutcome) -> (r: Result<Vec<u8>, CapabilityError>)
    ensures
        r is Ok <==> outcome is Completed,
        match r {
            Ok(text) => outcome matches ShellOutcome::Completed { exit_code, stdout, stderr }
                && text@ == "Shell execution completed.\nExit code: ".spec_bytes() + spec_dec_i32(
                exit_code as int,
            ) + "\n\nSTDOUT (truncated):\n".spec_bytes() + spec_truncated(stdout@)
                + "\n\nSTDERR (truncated):\n".spec_bytes() + spec_truncated(stderr@),
            Err(e) => e is TimedOut,
        },
{
    match outcome {
        ShellOutcome::Completed { exit_code, stdout, stderr } => {
            let mut r = vstd::slice::slice_to_vec(
                "Shell execution completed.\nExit code: ".as_bytes(),
            );
            let d = i32_to_dec(*exit_code);
            push_all(&mut r, d.as_slice());
            push_all(&mut r, "\n\nSTDOUT (truncated):\n".as_bytes());
            let so = take_prefix(stdout.as_slice(), STDIO_TRUNCATE_BYTES);
            push_all(&mut r, so.as_slice());
            push_all(&mut r, "\n\nSTDERR (truncated):\n".as_bytes());
            let se = take_prefix(stderr.as_slice(), STDIO_TRUNCATE_BYTES);
            push_all(&mut r, se.as_slice());
            Ok(r)
        },
        ShellOutcome::TimedOut => Err(CapabilityError::TimedOut),
    }
}

/// Why a tool invocation failed: the execution layer refused the call,
/// or a capability stage refused the input.
#[derive(Debug)]
pub enum ToolError {
    Exec(crate::executor::ExecError),
    Capability(CapabilityError),
}

impl crate::executor::WasmExecutor {
    /// Runs the guest's `prepare_http_get` on the URL and issues a fetch
    /// plan only when the guest accepted. The caller performs the GET the
    /// plan describes: this URL, a 30-second timeout, the fixed agent
    /// string; a non-success status or transport failure is reported as
    /// an error.
    pub fn http_get_with_validation(&mut self, module_name: &[u8], url: &[u8]) -> (r: Result<
        HttpGetPlan,
        ToolError,
    >)
        ensures
            crate::executor::modules_preserved(old(self).modules@, final(self).modules@),
            !crate::executor::spec_module_loaded(old(self).modules@, module_name@) ==> r is Err,
            crate::executor::spec_module_loaded(old(self).modules@, module_name@) ==> !(r
                matches Err(te) && (te matches ToolError::Exec(ee) && ee is ModuleNotLoaded)),
            match r {
                Ok(p) => p.url@ == url@ && p.timeout_secs == HTTP_TIMEOUT_SECS && p.user_agent@
                    == "WasmForge/0.1.0".spec_bytes(),
                Err(_) => true,
            },
    {
        let verdict = match self.call_function_ptr_len_to_i32(
            module_name,
            "prepare_http_get".as_bytes(),
            url,
        ) {
            Ok(v) => v,
            Err(e) => {
                return Err(ToolError::Exec(e));
            },
        };
        match gate_http_get(verdict, url) {
            Ok(p) => Ok(p),
            Err(e) => Err(ToolError::Capability(e)),
        }
    }

    /// Runs the guest's `validate_url` on the URL for the legacy fetch
    /// capability; the fetch may proceed only on `Ok`. The caller then
    /// hands the body to `finish_fetch`.
    pub fn fetch_url_with_validation(&mut self, module_name: &[u8], url: &[u8]) -> (r: Result<
        (),
        ToolError,
    >)
        ensures
            crate::executor::modules_preserved(old(self).modules@, final(self).modules@),
            !crate::executor::spec_module_loaded(old(self).modules@, module_name@) ==> r is Err,
            crate::executor::spec_module_loaded(old(self).modules@, module_name@) ==> !(r
                matches Err(te) && (te matches ToolError::Exec(ee) && ee is ModuleNotLoaded)),
    {
        let verdict = match self.call_function_ptr_len_to_i32(
            module_name,
            "validate_url".as_bytes(),
            url,
        ) {
            Ok(v) => v,
            Err(e) => {
                return Err(ToolError::Exec(e));
            },
        };
        match gate_fetch_url(verdict) {
            Ok(()) => Ok(()),
            Err(e) => Err(ToolError::Capability(e)),
        }
    }

    /// Second stage of the legacy fetch: the guest's `process_response`
    /// judges the body, and the reply is released only on verdict 200.
    pub fn finish_fetch(&mut self, module_name: &[u8], url: &[u8], body: &[u8]) -> (r: Result<
        Vec<u8>,
        ToolError,
    >)
        ensures
            crate::executor::modules_preserved(old(self).modules@, final(self).modules@),
            !crate::executor::spec_module_loaded(old(self).modules@, module_name@) ==> r is Err,
            crate::executor::spec_module_loaded(old(self).modules@, module_name@) ==> !(r
                matches Err(te) && (te matches ToolError::Exec(ee) && ee is ModuleNotLoaded)),
            match r {
                Ok(text) => text@ == "URL: ".spec_bytes() + url@
                    + "\n\nContent (first 500 chars):\n".spec_bytes() + spec_preview(body@),
                Err(_) => true,
            },
    {
        let status = match self.call_function_ptr_len_to_i32(
            module_name,
            "process_response".as_bytes(),
            body,
        ) {
            Ok(v) => v,
            Err(e) => {
                return Err(ToolError::Exec(e));
            },
        };
        match accept_fetch_response(status) {
            Ok(()) => Ok(format_fetch_reply(url, body)),
            Err(e) => Err(ToolError::Capability(e)),
        }
    }

    /// Runs the guest's `prepare_file_read` on the path; the read may
    /// proceed only on `Ok`. The caller reads the file and then holds the
    /// content against `admit_read_content` before releasing it.
    pub fn read_file_with_validation(&mut self, module_name: &[u8], file_path: &[u8]) -> (r:
        Result<(), ToolError>)
        ensures
            crate::executor::modules_preserved(old(self).modules@, final(self).modules@),
            !crate::executor::spec_module_loaded(old(self).modules@, module_name@) ==> r is Err,
            crate::executor::spec_module_loaded(old(self).modules@, module_name@) ==> !(r
                matches Err(te) && (te matches ToolError::Exec(ee) && ee is ModuleNotLoaded)),
    {
        let verdict = match self.call_function_ptr_len_to_i32(
            module_name,
            "prepare_file_read".as_bytes(),
            file_path,
        ) {
            Ok(v) => v,
            Err(e) => {
                return Err(ToolError::Exec(e));
            },
        };
        match gate_file_read(verdict) {
            Ok(()) => Ok(()),
            Err(e) => Err(ToolError::Capability(e)),
        }
    }

    /// Runs the guest's `prepare_file_write` on the path and applies the
    /// content cap; the write may proceed only on `Ok`, whose reply text
    /// is returned for the caller to send after writing.
    pub fn write_file_with_validation(
        &mut self,
        module_name: &[u8],
        file_path: &[u8],
        content: &[u8],
    ) -> (r: Result<Vec<u8>, ToolError>)
        ensures
            crate::executor::modules_preserved(old(self).modules@, final(self).modules@),
            !crate::executor::spec_module_loaded(old(self).modules@, module_name@) ==> r is Err,
            crate::executor::spec_module_loaded(old(self).modules@, module_name@) ==> !(r
                matches Err(te) && (te matches ToolError::Exec(ee) && ee is ModuleNotLoaded)),
            r is Ok ==> content@.len() <= FILE_WRITE_MAX_BYTES,
            match r {
                Ok(text) => text@ == "File write successful!\nPath: ".spec_bytes() + file_path@
                    + "\nContent length: ".spec_bytes() + spec_dec_u64(content@.len() as nat)
                    + " bytes\nResult: Successfully wrote ".spec_bytes() + spec_dec_u64(
                    content@.len() as nat,
                ) + " bytes to ".spec_bytes() + file_path@,
                Err(_) => true,
            },
    {
        let verdict = match self.call_function_ptr_len_to_i32(
            module_name,
            "prepare_file_write".as_bytes(),
            file_path,
        ) {
            Ok(v) => v,
            Err(e) => {
                return Err(ToolError::Exec(e));
            },
        };
        match gate_file_write(verdict, content) {
            Ok(()) => Ok(format_file_write_reply(file_path, content.len() as u64)),
            Err(e) => Err(ToolError::Capability(e)),
        }
    }

    /// Runs the guest's `prepare_shell_exec` on the command text, splits
    /// it, and applies the allow-list; a spawn plan is issued only when
    /// every stage accepted.
    pub fn execute_shell_with_validation(
        &mut self,
        module_name: &[u8],
        command: &[u8],
        allowed_commands: &Vec<Vec<u8>>,
    ) -> (r: Result<ShellPlan, ToolError>)
        ensures
            crate::executor::modules_preserved(old(self).modules@, final(self).modules@),
            !crate::executor::spec_module_loaded(old(self).modules@, module_name@) ==> r is Err,
            crate::executor::spec_module_loaded(old(self).modules@, module_name@) ==> !(r
                matches Err(te) && (te matches ToolError::Exec(ee) && ee is ModuleNotLoaded)),
            match r {
                Ok(p) => spec_split_ws(command@).len() > 0 && p.program@ == spec_split_ws(
                    command@,
                )[0] && spec_allows(allowed_commands@, p.program@) && p.timeout_secs
                    == SHELL_TIMEOUT_SECS,
                Err(_) => true,
            },
    {
        let verdict = match self.call_function_ptr_len_to_i32(
            module_name,
            "prepare_shell_exec".as_bytes(),
            command,
        ) {
            Ok(v) => v,
            Err(e) => {
                return Err(ToolError::Exec(e));
            },
        };
        match gate_shell_exec(verdict, command, allowed_commands) {
            Ok(p) => Ok(p),
            Err(e) => Err(ToolError::Capability(e)),
        }
    }
}

/// A method reference inside a recommendation: a tool's public name and
/// its schema.
pub struct MethodRef {
    pub name: Vec<u8>,
    pub schema: ToolSchema,
}

/// One recommended category of tools.
pub struct RecommendedCategory {
    pub name: Vec<u8>,
    pub description: Vec<u8>,
    pub methods: Vec<MethodRef>,
}

/// Some discovered tool is bound to the given guest function.
pub open spec fn spec_has_fn(ts: Seq<(Vec<u8>, DiscoveredTool)>, f: Seq<u8>) -> bool {
    exists|i: int| 0 <= i < ts.len() && ts[i].1.function_name@ == f
}

/// The lowercased task mentions a web-fetch keyword.
pub open spec fn spec_web_kw(q: Seq<u8>) -> bool {
    ||| contains_seq(q, "download".spec_bytes())
    ||| contains_seq(q, "fetch".spec_bytes())
    ||| contains_seq(q, "http".spec_bytes())
    ||| contains_seq(q, "https".spec_bytes())
    ||| contains_seq(q, "url".spec_bytes())
    ||| contains_seq(q, "get".spec_bytes())
    ||| contains_seq(q, "retrieve".spec_bytes())
    ||| contains_seq(q, "request".spec_bytes())
}

/// The lowercased task mentions a file keyword.
pub open spec fn spec_file_kw(q: Seq<u8>) -> bool {
    ||| contains_seq(q, "save".spec_bytes())
    ||| contains_seq(q, "file".spec_bytes())
    ||| contains_seq(q, "write".spec_bytes())
    ||| contains_seq(q, "read".spec_bytes())
    ||| contains_seq(q, "open".spec_bytes())
    ||| contains_seq(q, "load".spec_bytes())
    ||| contains_seq(q, "store".spec_bytes())
}

/// The lowercased task mentions a shell keyword.
pub open spec fn spec_shell_kw(q: Seq<u8>) -> bool {
    ||| contains_seq(q, "shell".spec_bytes())
    ||| contains_seq(q, "bash".spec_bytes())
    ||| contains_seq(q, "command".spec_bytes())
    ||| contains_seq(q, "execute".spec_bytes())
    ||| contains_seq(q, "run".spec_bytes())
    ||| contains_seq(q, "ls".spec_bytes())
    ||| contains_seq(q, "echo".spec_bytes())
    ||| contains_seq(q, "cat".spec_bytes())
    ||| contains_seq(q, "wc".spec_bytes())
    ||| contains_seq(q, "uname".spec_bytes())
    ||| contains_seq(q, "terminal".spec_bytes())
}

/// The web category applies: the HTTP preparer is discovered and a web
/// keyword occurs.
pub open spec fn spec_web_applies(ts: Seq<(Vec<u8>, DiscoveredTool)>, q: Seq<u8>) -> bool {
    spec_has_fn(ts, "prepare_http_get".spec_bytes()) && spec_web_kw(q)
}

pub open spec fn spec_file_applies(ts: Seq<(Vec<u8>, DiscoveredTool)>, q: Seq<u8>) -> bool {
    (spec_has_fn(ts, "prepare_file_read".spec_bytes()) || spec_has_fn(
        ts,
        "prepare_file_write".spec_bytes(),
    )) && spec_file_kw(q)
}

pub open spec fn spec_shell_applies(ts: Seq<(Vec<u8>, DiscoveredTool)>, q: Seq<u8>) -> bool {
    spec_has_fn(ts, "prepare_shell_exec".spec_bytes()) && spec_shell_kw(q)
}

/// The names of the recommended categories, in order: the keyword-matched
/// categories; or, when none matches, every category whose defining
/// preparer is present.
pub open spec fn spec_category_names(ts: Seq<(Vec<u8>, DiscoveredTool)>, q: Seq<u8>) -> Seq<
    Seq<u8>,
> {
    if spec_web_applies(ts, q) || spec_file_applies(ts, q) || spec_shell_applies(ts, q) {
        (if spec_web_applies(ts, q) {
            seq!["web_browser".spec_bytes()]
        } else {
            Seq::empty()
        }) + (if spec_file_applies(ts, q) {
            seq!["file_ops".spec_bytes()]
        } else {
            Seq::empty()
        }) + (if spec_shell_applies(ts, q) {
            seq!["shell_executor".spec_bytes()]
        } else {
            Seq::empty()
        })
    } else {
        (if spec_has_fn(ts, "prepare_http_get".spec_bytes()) {
            seq!["web_browser".spec_bytes()]
        } else {
            Seq::empty()
        }) + (if spec_has_fn(ts, "prepare_file_read".spec_bytes()) || spec_has_fn(
            ts,
            "prepare_file_write".spec_bytes(),
        ) {
            seq!["file_ops".spec_bytes()]
        } else {
            Seq::empty()
        }) + (if spec_has_fn(ts, "prepare_shell_exec".spec_bytes()) {
            seq!["shell_executor".spec_bytes()]
        } else {
            Seq::empty()
        })
    }
}

/// A discovered tool carries one of the given guest function names.
fn tools_have_fn(tools: &Vec<(Vec<u8>, DiscoveredTool)>, f: &[u8]) -> (r: bool)
    ensures
        r == spec_has_fn(tools@, f@),
{
    let mut i: usize = 0;
    while i < tools.len()
        invariant
            0 <= i <= tools@.len(),
            forall|j: int| 0 <= j < i ==> tools@[j].1.function_name@ != f@,
        decreases tools@.len() - i,
    {
        if bytes_eq(tools[i].1.function_name.as_slice(), f) {
            return true;
        }
        i = i + 1;
    }
    false
}

/// The method list is sound and complete for the tools bound to the two
/// given function names: every method names such a tool (with its
/// schema), and every such tool is named.
pub open spec fn methods_match(
    ts: Seq<(Vec<u8>, DiscoveredTool)>,
    f1: Seq<u8>,
    f2: Seq<u8>,
    ms: Seq<MethodRef>,
) -> bool {
    &&& forall|k: int|
        #![trigger ms[k]]
        0 <= k < ms.len() ==> exists|i: int|
            0 <= i < ts.len() && (ts[i].1.function_name@ == f1 || ts[i].1.function_name@ == f2)
                && ms[k].name@ == ts[i].1.name@ && schema_eq(ts[i].1.schema, ms[k].schema)
    &&& forall|i: int|
        #![trigger ts[i]]
        0 <= i < ts.len() && (ts[i].1.function_name@ == f1 || ts[i].1.function_name@ == f2)
            ==> exists|k: int| 0 <= k < ms.len() && ms[k].name@ == ts[i].1.name@
}

/// The method references of every tool bound to one of the two given
/// function names (the second may be empty to select only one).
fn collect_methods(tools: &Vec<(Vec<u8>, DiscoveredTool)>, f1: &[u8], f2: &[u8]) -> (r: Vec<
    MethodRef,
>)
    ensures
        methods_match(tools@, f1@, f2@, r@),
{
    let mut r: Vec<MethodRef> = Vec::new();
    let mut i: usize = 0;
    while i < tools.len()
        invariant
            0 <= i <= tools@.len(),
            forall|k: int|
                #![trigger r@[k]]
                0 <= k < r@.len() ==> exists|ii: int|
                    0 <= ii < tools@.len() && (tools@[ii].1.function_name@ == f1@
                        || tools@[ii].1.function_name@ == f2@) && r@[k].name@
                        == tools@[ii].1.name@ && schema_eq(tools@[ii].1.schema, r@[k].schema),
            forall|ii: int|
                #![trigger tools@[ii]]
                0 <= ii < i && (tools@[ii].1.function_name@ == f1@ || tools@[ii].1.function_name@
                    == f2@) ==> exists|k: int| 0 <= k < r@.len() && r@[k].name@
                    == tools@[ii].1.name@,
        decreases tools@.len() - i,
    {
        let t = &tools[i].1;
        if bytes_eq(t.function_name.as_slice(), f1) || bytes_eq(t.function_name.as_slice(), f2) {
            let ghost r0 = r@;
            r.push(MethodRef { name: copy_bytes(&t.name), schema: copy_schema(&t.schema) });
            proof {
                assert(r@[r@.len() - 1].name@ == tools@[i as int].1.name@);
                assert forall|ii: int|
                    0 <= ii < i + 1 && (tools@[ii].1.function_name@ == f1@
                        || tools@[ii].1.function_name@ == f2@) implies exists|k: int|
                    0 <= k < r@.len() && r@[k].name@ == tools@[ii].1.name@ by {
                    if ii == i {
                        assert(r@[r@.len() - 1].name@ == tools@[ii].1.name@);
                    } else {
                        let k0 = choose|k: int| 0 <= k < r0.len() && r0[k].name@
                            == tools@[ii].1.name@;
                        assert(r@[k0].name@ == tools@[ii].1.name@);
                    }
                }
            }
        }
        i = i + 1;
    }
    r
}

/// Builds the recommendation for a task: lowercases the task, matches
/// keywords, and emits the applicable categories with their methods. The
/// category names follow `spec_category_names` exactly.
pub fn recommend_categories(tools: &Vec<(Vec<u8>, DiscoveredTool)>, task: &[u8]) -> (r: Vec<
    RecommendedCategory,
>)
    ensures
        r@.len() == spec_category_names(tools@, lower_bytes(task@)).len(),
        forall|k: int| 0 <= k < r@.len() ==> r@[k].name@ == spec_category_names(
            tools@,
            lower_bytes(task@),
        )[k],
        forall|k: int|
            #![trigger r@[k]]
            0 <= k < r@.len() ==> ((r@[k].name@ == "web_browser".spec_bytes()
                && r@[k].description@
                == "Fetch content via HTTP GET with WASM validation".spec_bytes()
                && methods_match(
                tools@,
                "prepare_http_get".spec_bytes(),
                "prepare_http_get".spec_bytes(),
                r@[k].methods@,
            )) || (r@[k].name@ == "file_ops".spec_bytes() && r@[k].description@
                == "Read and write files with WASM path validation".spec_bytes()
                && methods_match(
                tools@,
                "prepare_file_read".spec_bytes(),
                "prepare_file_write".spec_bytes(),
                r@[k].methods@,
            )) || (r@[k].name@ == "shell_executor".spec_bytes() && r@[k].description@
                == "Execute simple whitelisted shell commands with WASM validation".spec_bytes()
                && methods_match(
                tools@,
                "prepare_shell_exec".spec_bytes(),
                "prepare_shell_exec".spec_bytes(),
                r@[k].methods@,
            ))),
{
    let q = to_ascii_lower(task);
    let has_http = tools_have_fn(tools, "prepare_http_get".as_bytes());
    let has_read = tools_have_fn(tools, "prepare_file_read".as_bytes());
    let has_write = tools_have_fn(tools, "prepare_file_write".as_bytes());
    let has_shell = tools_have_fn(tools, "prepare_shell_exec".as_bytes());
    let web_kw = contains(q.as_slice(), "download".as_bytes()) || contains(
        q.as_slice(),
        "fetch".as_bytes(),
    ) || contains(q.as_slice(), "http".as_bytes()) || contains(q.as_slice(), "https".as_bytes())
        || contains(q.as_slice(), "url".as_bytes()) || contains(q.as_slice(), "get".as_bytes())
        || contains(q.as_slice(), "retrieve".as_bytes()) || contains(
        q.as_slice(),
        "request".as_bytes(),
    );
    let file_kw = contains(q.as_slice(), "save".as_bytes()) || contains(
        q.as_slice(),
        "file".as_bytes(),
    ) || contains(q.as_slice(), "write".as_bytes()) || contains(q.as_slice(), "read".as_bytes())
        || contains(q.as_slice(), "open".as_bytes()) || contains(q.as_slice(), "load".as_bytes())
        || contains(q.as_slice(), "store".as_bytes());
    let shell_kw = contains(q.as_slice(), "shell".as_bytes()) || contains(
        q.as_slice(),
        "bash".as_bytes(),
    ) || contains(q.as_slice(), "command".as_bytes()) || contains(
        q.as_slice(),
        "execute".as_bytes(),
    ) || contains(q.as_slice(), "run".as_bytes()) || contains(q.as_slice(), "ls".as_bytes())
        || contains(q.as_slice(), "echo".as_bytes()) || contains(q.as_slice(), "cat".as_bytes())
        || contains(q.as_slice(), "wc".as_bytes()) || contains(q.as_slice(), "uname".as_bytes())
        || contains(q.as_slice(), "terminal".as_bytes());
    let web_applies = has_http && web_kw;
    let file_applies = (has_read || has_write) && file_kw;
    let shell_applies = has_shell && shell_kw;
    let any = web_applies || file_applies || shell_applies;
    let pick_web = if any {
        web_applies
    } else {
        has_http
    };
    let pick_file = if any {
        file_applies
    } else {
        has_read || has_write
    };
    let pick_shell = if any {
        shell_applies
    } else {
        has_shell
    };
    let mut r: Vec<RecommendedCategory> = Vec::new();
    if pick_web {
        r.push(
            RecommendedCategory {
                name: vstd::slice::slice_to_vec("web_browser".as_bytes()),
                description: vstd::slice::slice_to_vec(
                    "Fetch content via HTTP GET with WASM validation".as_bytes(),
                ),
                methods: collect_methods(
                    tools,
                    "prepare_http_get".as_bytes(),
                    "prepare_http_get".as_bytes(),
                ),
            },
        );
    }
    if pick_file {
        r.push(
            RecommendedCategory {
                name: vstd::slice::slice_to_vec("file_ops".as_bytes()),
                description: vstd::slice::slice_to_vec(
                    "Read and write files with WASM path validation".as_bytes(),
                ),
                methods: collect_methods(
                    tools,
                    "prepare_file_read".as_bytes(),
                    "prepare_file_write".as_bytes(),
                ),
            },
        );
    }
    if pick_shell {
        r.push(
            RecommendedCategory {
                name: vstd::slice::slice_to_vec("shell_executor".as_bytes()),
                description: vstd::slice::slice_to_vec(
                    "Execute simple whitelisted shell commands with WASM validation".as_bytes(),
                ),
                methods: collect_methods(
                    tools,
                    "prepare_shell_exec".as_bytes(),
                    "prepare_shell_exec".as_bytes(),
                ),
            },
        );
    }
    proof {
        assert(q@ == lower_bytes(task@));
        let names = spec_category_names(tools@, lower_bytes(task@));
        assert(r@.len() == names.len());
        assert forall|k: int| 0 <= k < r@.len() implies r@[k].name@ == names[k] by {}
    }
    r
}

} // verus!
