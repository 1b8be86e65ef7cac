//! What can go wrong while a hook or an in-place patch is resolved, placed or probed.

use vstd::prelude::*;

use crate::text;
use crate::text::{hex_digits, zero_pad};

verus! {

/// A failure on the way to a hook. System errors are carried as their text.
#[derive(Debug)]
pub enum HookError {
    /// A module to hook into is not loaded.
    ModuleNotLoaded { module: String, err: String },
    /// The handle of the process image could not be had.
    ModuleHandle(String),
    /// A loaded module lacks an export.
    ExportNotFound(String),
    /// The detour could not be placed.
    Install { what: String, detail: String },
    /// A DirectInput probe call failed with this result code.
    DInputProbe { what: String, hr: i32 },
    /// A memory operation of a patch failed.
    Win32(String),
}

/// The 32 bits of a result code as a number.
pub open spec fn code_bits(hr: i32) -> nat {
    if hr < 0 {
        (hr + 0x1_0000_0000) as nat
    } else {
        hr as nat
    }
}

impl HookError {
    /// The failure in words.
    pub open spec fn words(self) -> Seq<char> {
        match self {
            HookError::ModuleNotLoaded { module, err } => module@ + " not loaded: "@ + err@,
            HookError::ModuleHandle(err) => "GetModuleHandle failed: "@ + err@,
            HookError::ExportNotFound(what) => what@ + " not found"@,
            HookError::Install { what, detail } => "hooking "@ + what@ + ": "@ + detail@,
            HookError::DInputProbe { what, hr } => what@ + " failed: 0x"@ + zero_pad(
                hex_digits(code_bits(hr)),
                8,
            ),
            HookError::Win32(err) => err@,
        }
    }

    /// The failure in words.
    pub fn message(&self) -> (out: String)
        ensures
            out@ == self.words(),
    {
        match self {
            HookError::ModuleNotLoaded { module, err } => {
                let mut out = module.clone();
                out.append(" not loaded: ");
                out.append(err.as_str());
                out
            },
            HookError::ModuleHandle(err) => {
                let mut out = "GetModuleHandle failed: ".to_owned();
                out.append(err.as_str());
                out
            },
            HookError::ExportNotFound(what) => {
                let mut out = what.clone();
                out.append(" not found");
                out
            },
            HookError::Install { what, detail } => {
                let mut out = "hooking ".to_owned();
                out.append(what.as_str());
                out.append(": ");
                out.append(detail.as_str());
                out
            },
            HookError::DInputProbe { what, hr } => {
                let mut out = what.clone();
                out.append(" failed: 0x");
                let code: i64 = *hr as i64;
                let bits: u64 = if code < 0 {
                    (code + 0x1_0000_0000) as u64
                } else {
                    code as u64
                };
                out.append(text::hex_padded(bits, 8).as_str());
                out
            },
            HookError::Win32(err) => err.clone(),
        }
    }
}

/// A code is shown as its bits: itself where it is not negative, and counted down from the top where it is, so that
/// no two codes look the same.
pub proof fn codes_are_shown_as_their_bits(a: i32, b: i32)
    ensures
        code_bits(a) < 0x1_0000_0000,
        a >= 0 ==> code_bits(a) == a,
        a < 0 ==> code_bits(a) == 0x1_0000_0000 + a && code_bits(a) >= 0x8000_0000,
        code_bits(a) == code_bits(b) ==> a == b,
{
}

/// Each error tells what went wrong and with what.
pub proof fn errors_tell_what_went_wrong(a: String, b: String, hr: i32)
    ensures
        (HookError::ModuleNotLoaded { module: a, err: b }).words() == a@ + " not loaded: "@ + b@,
        HookError::ModuleHandle(a).words() == "GetModuleHandle failed: "@ + a@,
        HookError::ExportNotFound(a).words() == a@ + " not found"@,
        (HookError::Install { what: a, detail: b }).words() == "hooking "@ + a@ + ": "@ + b@,
        (HookError::DInputProbe { what: a, hr }).words() == a@ + " failed: 0x"@ + zero_pad(
            hex_digits(code_bits(hr)),
            8,
        ),
        HookError::Win32(a).words() == a@,
{
}

} // verus!
