//! Names for the structured-exception codes the crash log records.
use vstd::prelude::*;

verus! {

/// The name the crash log gives a structured-exception code; codes outside
/// the table read `<unknown>`.
pub open spec fn seh_name(code: u32) -> Seq<char> {
    if code == 0xC000_0005 {
        "ACCESS_VIOLATION"@
    } else if code == 0xC000_0006 {
        "IN_PAGE_ERROR"@
    } else if code == 0xC000_001D {
        "ILLEGAL_INSTRUCTION"@
    } else if code == 0xC000_0025 {
        "NONCONTINUABLE_EXCEPTION"@
    } else if code == 0xC000_008C {
        "ARRAY_BOUNDS_EXCEEDED"@
    } else if code == 0xC000_008D {
        "FLT_DENORMAL_OPERAND"@
    } else if code == 0xC000_008E {
        "FLT_DIVIDE_BY_ZERO"@
    } else if code == 0xC000_0094 {
        "INT_DIVIDE_BY_ZERO"@
    } else if code == 0xC000_0095 {
        "INT_OVERFLOW"@
    } else if code == 0xC000_0096 {
        "PRIV_INSTRUCTION"@
    } else if code == 0xC000_00FD {
        "STACK_OVERFLOW"@
    } else if code == 0xC000_0135 {
        "DLL_NOT_FOUND"@
    } else if code == 0xC000_0139 {
        "ENTRYPOINT_NOT_FOUND"@
    } else if code == 0xC000_0142 {
        "DLL_INIT_FAILED"@
    } else if code == 0xC000_0409 {
        "STACK_BUFFER_OVERRUN (fastfail)"@
    } else if code == 0xC000_0417 {
        "INVALID_CRUNTIME_PARAMETER"@
    } else if code == 0xE06D_7363 {
        "C++ exception (MSVC throw)"@
    } else {
        "<unknown>"@
    }
}

/// The name of a structured-exception code, for the crash log.
pub fn seh_code_name(code: u32) -> (r: &'static str)
    ensures
        r@ == seh_name(code),
{
    match code {
        0xC000_0005 => "ACCESS_VIOLATION",
        0xC000_0006 => "IN_PAGE_ERROR",
        0xC000_001D => "ILLEGAL_INSTRUCTION",
        0xC000_0025 => "NONCONTINUABLE_EXCEPTION",
        0xC000_008C => "ARRAY_BOUNDS_EXCEEDED",
        0xC000_008D => "FLT_DENORMAL_OPERAND",
        0xC000_008E => "FLT_DIVIDE_BY_ZERO",
        0xC000_0094 => "INT_DIVIDE_BY_ZERO",
        0xC000_0095 => "INT_OVERFLOW",
        0xC000_0096 => "PRIV_INSTRUCTION",
        0xC000_00FD => "STACK_OVERFLOW",
        0xC000_0135 => "DLL_NOT_FOUND",
        0xC000_0139 => "ENTRYPOINT_NOT_FOUND",
        0xC000_0142 => "DLL_INIT_FAILED",
        0xC000_0409 => "STACK_BUFFER_OVERRUN (fastfail)",
        0xC000_0417 => "INVALID_CRUNTIME_PARAMETER",
        0xE06D_7363 => "C++ exception (MSVC throw)",
        _ => "<unknown>",
    }
}

} // verus!
