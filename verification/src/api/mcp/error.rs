//! Errors of the surface.

use vstd::prelude::*;

use crate::json_value::Json;

verus! {

/// The caller lacks a scope.
pub const SCOPE_DENIED_CODE: i32 = -32001;

/// The answer would be too large.
pub const RESOURCE_TOO_LARGE_CODE: i32 = -32003;

/// The host is busy; trying again helps.
pub const RESOURCE_BUSY_CODE: i32 = -32004;

/// There is no such resource.
pub const RESOURCE_NOT_FOUND_CODE: i32 = -32002;

/// There is no such method or tool.
pub const METHOD_NOT_FOUND_CODE: i32 = -32601;

/// The arguments are not acceptable.
pub const INVALID_PARAMS_CODE: i32 = -32602;

/// The host failed.
pub const INTERNAL_ERROR_CODE: i32 = -32603;

/// An error of the surface.
#[derive(Debug)]
pub struct McpError {
    pub code: i32,
    pub message: String,
    pub data: Option<Json>,
}

/// Whether an error has this code and message, and no data.
pub open spec fn is_error(err: McpError, code: i32, message: Seq<char>) -> bool {
    err.code == code && err.message@ == message && err.data is None
}

/// An error without data.
pub fn mcp_error(code: i32, message: String) -> (r: McpError)
    ensures
        is_error(r, code, message@),
{
    McpError { code, message, data: None }
}

} // verus!
