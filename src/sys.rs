//! The few values this library takes from libc, vmm-sys-util and std, each
//! behind a function whose contract states what the outside source defines.
use vstd::prelude::*;
use vstd::utf8::{decode_utf8, valid_utf8};

verus! {

/// `ENOENT` on Linux: the kernel reports a frame that is not available yet
/// with it, both as a per-page status and as the ioctl's errno.
pub open spec fn enoent_value() -> i32 {
    2
}

/// `EACCES` on Linux: what a privileged call fails with when the client and
/// the running hypervisor disagree on the interface version.
pub open spec fn eacces_value() -> i32 {
    13
}

/// `MAP_SHARED` on Linux.
pub open spec fn map_shared_value() -> i32 {
    1
}

/// `MAP_PRIVATE` on Linux.
pub open spec fn map_private_value() -> i32 {
    2
}

/// Relies on libc::ENOENT, defined as 2 for Linux.
#[verifier::external_body]
pub(crate) fn enoent() -> (r: i32)
    ensures
        r == enoent_value(),
{
    libc::ENOENT
}

/// Relies on libc::EACCES, defined as 13 for Linux.
#[verifier::external_body]
pub(crate) fn eacces() -> (r: i32)
    ensures
        r == eacces_value(),
{
    libc::EACCES
}

/// Relies on libc::MAP_SHARED, defined as 0x0001 for Linux.
#[verifier::external_body]
pub(crate) fn map_shared() -> (r: i32)
    ensures
        r == map_shared_value(),
{
    libc::MAP_SHARED
}

/// Relies on libc::MAP_PRIVATE, defined as 0x0002 for Linux.
#[verifier::external_body]
pub(crate) fn map_private() -> (r: i32)
    ensures
        r == map_private_value(),
{
    libc::MAP_PRIVATE
}

/// The Linux ioctl request number for the given direction, type, number and
/// argument size, as the kernel's `_IOC` macro lays it out.
pub open spec fn ioc_value(dir: u32, ty: u32, nr: u32, size: u32) -> u64 {
    (dir * 0x4000_0000 + size * 0x1_0000 + ty * 0x100 + nr) as u64
}

/// Relies on vmm_sys_util::ioctl::ioctl_expr: it ORs `dir << 30`,
/// `ty << 8`, `nr` and `size << 16`; within the field widths that the
/// `requires` keeps, the fields do not overlap and the OR is a sum.
#[verifier::external_body]
pub(crate) fn ioctl_number(dir: u32, ty: u32, nr: u32, size: u32) -> (r: u64)
    requires
        dir < 4,
        ty < 0x100,
        nr < 0x100,
        size < 0x4000,
    ensures
        r == ioc_value(dir, ty, nr, size),
{
    vmm_sys_util::ioctl::ioctl_expr(dir, ty, nr, size) as u64
}

/// Relies on String::from_utf8: it succeeds exactly on well-formed UTF-8 and
/// then holds the decoded characters.
#[verifier::external_body]
pub(crate) fn text_from_bytes(bytes: Vec<u8>) -> (r: Option<String>)
    ensures
        r is Some <==> valid_utf8(bytes@),
        r matches Some(s) ==> s@ == decode_utf8(bytes@),
{
    String::from_utf8(bytes).ok()
}

} // verus!
