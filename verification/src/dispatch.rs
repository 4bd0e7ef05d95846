//! Request routing: which protocol method a request names, which handler
//! a tool is bound to, and the identity the server reports. The transport
//! framing and JSON shuttling sit outside this crate; every routing
//! decision is made here.

use vstd::prelude::*;
use crate::discovery::DiscoveredTool;
use crate::signature::Pattern;
use crate::text::bytes_eq;
use vstd::string::StringSliceAdditionalSpecFns;

verus! {

/// The protocol-level error code carried by a failed tool invocation.
pub const RPC_INVOCATION_ERROR_CODE: i32 = -32000;

/// The protocol-level error code for an unknown method.
pub const METHOD_NOT_FOUND_CODE: i32 = -32601;

/// The protocol methods the dispatcher serves.
#[derive(Clone, Copy, Debug, PartialEq, Eq, Structural)]
pub enum MethodKind {
    Initialize,
    ToolsList,
    ToolsCall,
    Unknown,
}

/// How a method name routes.
pub open spec fn spec_route(m: Seq<u8>) -> MethodKind {
    if m == "initialize".spec_bytes() {
        MethodKind::Initialize
    } else if m == "tools/list".spec_bytes() {
        MethodKind::ToolsList
    } else if m == "tools/call".spec_bytes() {
        MethodKind::ToolsCall
    } else {
        MethodKind::Unknown
    }
}

/// Routes a method name; anything unrecognised is answered with a
/// method-not-found error.
pub fn route_method(method: &[u8]) -> (r: MethodKind)
    ensures
        r == spec_route(method@),
{
    if bytes_eq(method, "initialize".as_bytes()) {
        MethodKind::Initialize
    } else if bytes_eq(method, "tools/list".as_bytes()) {
        MethodKind::ToolsList
    } else if bytes_eq(method, "tools/call".as_bytes()) {
        MethodKind::ToolsCall
    } else {
        MethodKind::Unknown
    }
}

/// The handler a tool invocation binds to.
#[derive(Clone, Copy, Debug, PartialEq, Eq, Structural)]
pub enum HandlerKind {
    /// Call the export with two integers and report the result.
    DirectPair,
    /// Call the export with no arguments and report the result.
    DirectNoParams,
    /// Call `validate_url` directly and report the raw verdict.
    ValidateUrl,
    /// The HTTP GET capability.
    HttpGet,
    /// The file read capability.
    FileRead,
    /// The file write capability.
    FileWrite,
    /// The subprocess capability.
    ShellExec,
    /// The legacy two-stage fetch capability.
    LegacyFetch,
    /// The recommendation capability.
    Recommend,
    /// Call the export on the `data` argument and report the result.
    DirectData,
}

/// The dispatch table: pattern first, then the function name, then the
/// public name `fetch`, in the order the checks are applied.
pub open spec fn spec_select_handler(
    pattern: Pattern,
    fname: Seq<u8>,
    public_name: Seq<u8>,
) -> HandlerKind {
    match pattern {
        Pattern::I32I32ToI32 => HandlerKind::DirectPair,
        Pattern::NoParamsToI32 => HandlerKind::DirectNoParams,
        Pattern::PtrLenToI32 => if fname == "validate_url".spec_bytes() {
            HandlerKind::ValidateUrl
        } else if fname == "prepare_http_get".spec_bytes() {
            HandlerKind::HttpGet
        } else if fname == "prepare_file_read".spec_bytes() {
            HandlerKind::FileRead
        } else if fname == "prepare_file_write".spec_bytes() {
            HandlerKind::FileWrite
        } else if fname == "prepare_shell_exec".spec_bytes() {
            HandlerKind::ShellExec
        } else if public_name == "fetch".spec_bytes() {
            HandlerKind::LegacyFetch
        } else if fname == "prepare_recommend_mcps".spec_bytes() {
            HandlerKind::Recommend
        } else {
            HandlerKind::DirectData
        },
    }
}

/// Selects the handler for a discovered tool.
pub fn select_handler(tool: &DiscoveredTool) -> (r: HandlerKind)
    ensures
        r == spec_select_handler(tool.pattern, tool.function_name@, tool.name@),
{
    match tool.pattern {
        Pattern::I32I32ToI32 => HandlerKind::DirectPair,
        Pattern::NoParamsToI32 => HandlerKind::DirectNoParams,
        Pattern::PtrLenToI32 => {
            if bytes_eq(tool.function_name.as_slice(), "validate_url".as_bytes()) {
                HandlerKind::ValidateUrl
            } else if bytes_eq(tool.function_name.as_slice(), "prepare_http_get".as_bytes()) {
                HandlerKind::HttpGet
            } else if bytes_eq(tool.function_name.as_slice(), "prepare_file_read".as_bytes()) {
                HandlerKind::FileRead
            } else if bytes_eq(tool.function_name.as_slice(), "prepare_file_write".as_bytes()) {
                HandlerKind::FileWrite
            } else if bytes_eq(tool.function_name.as_slice(), "prepare_shell_exec".as_bytes()) {
                HandlerKind::ShellExec
            } else if bytes_eq(tool.name.as_slice(), "fetch".as_bytes()) {
                HandlerKind::LegacyFetch
            } else if bytes_eq(
                tool.function_name.as_slice(),
                "prepare_recommend_mcps".as_bytes(),
            ) {
                HandlerKind::Recommend
            } else {
                HandlerKind::DirectData
            }
        },
    }
}

/// The protocol version the server reports.
pub fn protocol_version() -> (r: Vec<u8>)
    ensures
        r@ == "2024-11-05".spec_bytes(),
{
    vstd::slice::slice_to_vec("2024-11-05".as_bytes())
}

/// The server's reported name.
pub fn server_name() -> (r: Vec<u8>)
    ensures
        r@ == "wasmforge".spec_bytes(),
{
    vstd::slice::slice_to_vec("wasmforge".as_bytes())
}

/// The server's reported version.
pub fn server_version() -> (r: Vec<u8>)
    ensures
        r@ == "0.1.0".spec_bytes(),
{
    vstd::slice::slice_to_vec("0.1.0".as_bytes())
}

/// The message for an unknown method.
pub fn method_not_found_message() -> (r: Vec<u8>)
    ensures
        r@ == "Method not found".spec_bytes(),
{
    vstd::slice::slice_to_vec("Method not found".as_bytes())
}

} // verus!
