//! The stand-in for the system's input library: where the genuine one is, and what is answered where it
//! cannot be had.

use vstd::prelude::*;

use crate::clipboard;
use crate::clipboard::utf16;

verus! {

/// The module was not found.
pub const E_MOD_NOT_FOUND: u32 = 0x8007_007E;

/// Do not unload.
pub const S_FALSE: u32 = 1;

/// There is no such class.
pub const CLASS_E_CLASSNOTAVAILABLE: u32 = 0x8004_0111;

/// The functions that are passed on.
#[derive(Clone, Copy, Debug, PartialEq, Eq, Structural)]
pub enum Export {
    DirectInput8Create,
    DllCanUnloadNow,
    DllGetClassObject,
    DllRegisterServer,
    DllUnregisterServer,
}

/// What is answered where the genuine function cannot be had.
pub fn fallback(export: Export) -> (code: u32)
    ensures
        code == (match export {
            Export::DirectInput8Create => E_MOD_NOT_FOUND,
            Export::DllCanUnloadNow => S_FALSE,
            Export::DllGetClassObject => CLASS_E_CLASSNOTAVAILABLE,
            Export::DllRegisterServer => E_MOD_NOT_FOUND,
            Export::DllUnregisterServer => E_MOD_NOT_FOUND,
        }),
{
    match export {
        Export::DirectInput8Create => E_MOD_NOT_FOUND,
        Export::DllCanUnloadNow => S_FALSE,
        Export::DllGetClassObject => CLASS_E_CLASSNOTAVAILABLE,
        Export::DllRegisterServer => E_MOD_NOT_FOUND,
        Export::DllUnregisterServer => E_MOD_NOT_FOUND,
    }
}

/// The path of the genuine library, as the system takes it: the system directory, of which `n` units were
/// written to `buf`, and the library's name behind it. None where the directory could not be had or did
/// not fit.
pub fn real_dinput8_path(buf: &Vec<u16>, n: usize) -> (path: Option<Vec<u16>>)
    ensures
        path is Some == (n != 0 && n < buf@.len()),
        path is Some ==> path->0@ == buf@.take(n as int) + utf16("\\dinput8.dll"@).push(0),
{
    if n == 0 || n >= buf.len() {
        return None;
    }
    let mut path: Vec<u16> = Vec::new();
    let mut i: usize = 0;
    while i < n
        invariant
            i <= n < buf@.len(),
            path@ == buf@.take(i as int),
        decreases n - i,
    {
        path.push(buf[i]);
        i = i + 1;
        assert(path@ =~= buf@.take(i as int));
    }
    let mut name = clipboard::wide_text("\\dinput8.dll");
    path.append(&mut name);
    Some(path)
}

} // verus!
