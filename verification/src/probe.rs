//! The memory probe: the two fixed addresses in the game process that
//! reveal a loading screen. Each probe holds a pointer; the flag is the
//! lowest bit of the byte at that pointer plus a fixed offset, and the two
//! flags combine by logical OR. Every read can fail — the process may be
//! gone or the region unmapped — and a failed read only asks the caller to
//! drop the handle and re-resolve it.
//!
//! What a read returns depends on the process's memory, so the trusted
//! read wrappers promise nothing of their results; every decision made on
//! those results — the flag address, the bit test, the combination — is a
//! verified function with an exact contract that takes them as arguments.

use vstd::prelude::*;

use read_process_memory::CopyAddress;
use read_process_memory::ProcessHandle;

verus! {

#[verifier::external_type_specification]
#[verifier::external_body]
pub struct ExProcessHandle(ProcessHandle);

/// The address of the pointer guarding the loading popup flag.
pub const LOADING_POPUP_ADDR: usize = 0x2B2CAC0;

/// The address of the pointer guarding the world-loading flag.
pub const LOADING_WORLD_ADDR: usize = 0x2B961C0;

/// The offset of the flag byte from each guarded pointer.
pub const LOADING_FLAG_OFFSET: u64 = 0x58;

/// Relies on read_process_memory's CopyAddress for ProcessHandle: eight
/// bytes at `addr` in the process's memory as a native-endian integer, or
/// nothing when the read fails.
#[verifier::external_body]
fn read_mem_u64(process: &ProcessHandle, addr: usize) -> Option<u64> {
    let mut buf = [0u8; 8];
    match process.copy_address(addr, &mut buf) {
        Ok(()) => Some(u64::from_ne_bytes(buf)),
        Err(_) => None,
    }
}

/// Relies on read_process_memory's CopyAddress for ProcessHandle: the byte
/// at `addr` in the process's memory, or nothing when the read fails.
#[verifier::external_body]
fn read_mem_u8(process: &ProcessHandle, addr: usize) -> Option<u8> {
    let mut buf = [0u8; 1];
    match process.copy_address(addr, &mut buf) {
        Ok(()) => Some(buf[0]),
        Err(_) => None,
    }
}

/// Where a guarded pointer puts its flag byte: the pointer plus the fixed
/// offset, and nothing when that sum leaves the address space.
pub open spec fn flag_address_spec(ptr: u64) -> Option<usize> {
    if ptr + LOADING_FLAG_OFFSET <= usize::MAX {
        Some((ptr + LOADING_FLAG_OFFSET) as usize)
    } else {
        None
    }
}

/// Computes the flag byte's address, exactly as `flag_address_spec` says.
pub fn flag_address(ptr: u64) -> (r: Option<usize>)
    ensures
        r == flag_address_spec(ptr),
{
    if ptr > u64::MAX - LOADING_FLAG_OFFSET {
        return None;
    }
    let addr = ptr + LOADING_FLAG_OFFSET;
    if addr > usize::MAX as u64 {
        None
    } else {
        Some(addr as usize)
    }
}

/// The loading flag is the lowest bit of the probed byte.
pub fn flag_bit_set(b: u8) -> (r: bool)
    ensures
        r == (b & 1 != 0),
{
    b & 1 != 0
}

/// How the two probes combine: no reading at all when the popup probe
/// failed, loading when the popup flag is set (the world probe is not
/// consulted), and otherwise whatever the world probe said.
pub open spec fn combine_probes(popup: Option<bool>, world: Option<bool>) -> Option<bool> {
    match popup {
        None => None,
        Some(true) => Some(true),
        Some(false) => world,
    }
}

/// When both probes read cleanly, the combination is their logical OR.
pub proof fn lemma_combine_probes_is_or(popup: bool, world: bool)
    ensures
        combine_probes(Some(popup), Some(world)) == Some(popup || world),
{
}

/// Combines the two probe readings, exactly as `combine_probes` says.
pub fn combine_loading(popup: Option<bool>, world: Option<bool>) -> (r: Option<bool>)
    ensures
        r == combine_probes(popup, world),
{
    match popup {
        None => None,
        Some(true) => Some(true),
        Some(false) => world,
    }
}

/// Follows one probe from its guarded pointer: reads the flag byte at the
/// pointer plus the fixed offset and tests its lowest bit. A pointer whose
/// flag address leaves the address space reads nothing.
fn probe_flag_from(process: &ProcessHandle, ptr: u64) -> (r: Option<bool>)
    ensures
        flag_address_spec(ptr) is None ==> r is None,
{
    match flag_address(ptr) {
        None => None,
        Some(addr) => match read_mem_u8(process, addr) {
            None => None,
            Some(flag) => Some(flag_bit_set(flag)),
        },
    }
}

/// Follows one probe: reads the guarded pointer at `base`, then its flag
/// byte. What comes back depends on the process's memory; the combination
/// of the two probes is specified in `combine_probes`.
fn probe_flag(process: &ProcessHandle, base: usize) -> Option<bool> {
    match read_mem_u64(process, base) {
        None => None,
        Some(ptr) => probe_flag_from(process, ptr),
    }
}

/// Reads whether the game shows a loading screen: the popup probe first,
/// the world probe only when the popup flag read cleanly unset, and the
/// two combined exactly as `combine_probes` says. Nothing when a needed
/// read fails; the caller then drops the handle and re-resolves it on a
/// later tick.
pub fn read_loading(process: &ProcessHandle) -> Option<bool> {
    let popup = probe_flag(process, LOADING_POPUP_ADDR);
    let world = match popup {
        Some(false) => probe_flag(process, LOADING_WORLD_ADDR),
        _ => None,
    };
    combine_loading(popup, world)
}

} // verus!
