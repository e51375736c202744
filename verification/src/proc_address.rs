//! The procedure-address resolver's decisions.
//!
//! Looking up a modern GL entry point goes through the driver's
//! context-scoped resolver. The resolver's raw return value is overloaded: a
//! small set of sentinel values means "not found" rather than being a real
//! address, and legacy entry points are never served by it at all, so a
//! failed lookup falls back to the loaded driver module's export table.
//! Everything the layer decides around the two native lookups is here.

use vstd::prelude::*;

use crate::error_code::Win32Error;
use crate::error_code::Win32Result;

verus! {

/// Whether a raw resolver return value is one of the documented "not found"
/// sentinels: 0, 1, 2, 3, or all bits set.
pub open spec fn is_lookup_sentinel(address: usize) -> bool {
    address == 0 || address == 1 || address == 2 || address == 3 || address == usize::MAX
}

/// Whether a name is fit to hand to the native lookup: the lookup reads a
/// null-terminated byte string, so the final byte must be zero.
pub open spec fn is_null_terminated(name: Seq<u8>) -> bool {
    name.len() > 0 && name[name.len() - 1] == 0
}

/// Guards the native lookup: a name without a trailing zero byte is refused
/// with an application error before the native resolver is ever consulted.
pub fn check_proc_name(name: &Vec<u8>) -> (r: Win32Result<()>)
    ensures
        is_null_terminated(name@) ==> r == Win32Result::<()>::Ok(()),
        !is_null_terminated(name@) ==> r == Win32Result::<()>::Err(Win32Error(0x2000_0000u32)),
        r is Err ==> r->Err_0.is_application(),
{
    proof {
        assert(0x2000_0000u32 & 0x2000_0000u32 != 0u32) by (bit_vector);
    }
    if name.len() == 0 {
        return Err(Win32Error(0x2000_0000));
    }
    let last = name[name.len() - 1];
    if last == 0 {
        Ok(())
    } else {
        Err(Win32Error(0x2000_0000))
    }
}

/// Whether a raw resolver return value is a "not found" sentinel.
pub fn is_lookup_sentinel_value(address: usize) -> (r: bool)
    ensures
        r == is_lookup_sentinel(address),
{
    address == 0 || address == 1 || address == 2 || address == 3 || address == usize::MAX
}

/// Classifies what the context-scoped resolver returned: a sentinel value
/// is a failure explained by the last-error code fetched right after the
/// call, anything else is the resolved address.
pub fn classify_wgl_lookup(address: usize, last_error: u32) -> (r: Win32Result<usize>)
    ensures
        !is_lookup_sentinel(address) ==> r == Win32Result::<usize>::Ok(address),
        is_lookup_sentinel(address) ==> r == Win32Result::<usize>::Err(Win32Error(last_error)),
{
    if is_lookup_sentinel_value(address) {
        Err(Win32Error(last_error))
    } else {
        Ok(address)
    }
}

/// Decides the two-tier lookup for entry points that may predate the
/// context-scoped resolver: its result stands unless it is a sentinel, in
/// which case the module export table's answer is used instead.
pub fn fallback_proc_address(ext_result: usize, module_result: usize) -> (r: usize)
    ensures
        !is_lookup_sentinel(ext_result) ==> r == ext_result,
        is_lookup_sentinel(ext_result) ==> r == module_result,
{
    if is_lookup_sentinel_value(ext_result) {
        module_result
    } else {
        ext_result
    }
}

} // verus!
