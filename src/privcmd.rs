//! The privileged-call transport: the command envelope handed to the control
//! device, the ioctl request numbers, bounce-buffer sizing and the reading of
//! a failed call's errno.
use vstd::prelude::*;
use crate::page::{lemma_page_ceiling_upper, page_ceiling, round_up, PAGE_SIZE};
use crate::sys::{eacces, eacces_value, ioc_value, ioctl_number};

verus! {

/// Hypercall number of the system-wide control operation.
pub const __HYPERVISOR_SYSCTL: u64 = 35;

/// Hypercall number of the per-domain control operation.
pub const __HYPERVISOR_DOMCTL: u64 = 36;

/// The ioctl type of the privileged-command device (`'P'`).
pub const XEN_PRIVCMD_TYPE: u32 = 0x50;

/// The ioctl type of the event-channel device (`'E'`).
pub const XEN_EVTCHN_TYPE: u32 = 0x45;

/// The ioctl direction of a command whose argument the kernel only reads.
pub const IOC_WRITE: u32 = 1;

/// The ioctl direction of a command that passes a pointer through untyped.
pub const IOC_NONE: u32 = 0;

/// Argument sizes of the device commands, as the kernel's privcmd and
/// evtchn headers lay the structures out on a 64-bit host.
pub const PRIVCMD_HYPERCALL_SIZE: u32 = 48;
pub const PRIVCMD_MMAPBATCH_V2_SIZE: u32 = 32;
pub const PRIVCMD_DM_OP_SIZE: u32 = 16;
pub const PRIVCMD_MMAP_RESOURCE_SIZE: u32 = 32;
pub const PRIVCMD_IRQFD_SIZE: u32 = 24;
pub const PRIVCMD_IOEVENTFD_SIZE: u32 = 48;
pub const EVTCHN_BIND_INTERDOMAIN_SIZE: u32 = 8;
pub const EVTCHN_PORT_SIZE: u32 = 4;

/// The interface versions this client speaks. They must match the running
/// hypervisor's; the newest known ones are the default.
#[derive(Clone, Copy, Debug, PartialEq, Eq, Structural)]
pub struct AbiVersion {
    pub domctl: u32,
    pub sysctl: u32,
}

/// The newest domain-control interface version known.
pub const XEN_DOMCTL_INTERFACE_VERSION: u32 = 0x17;

/// The newest system-control interface version known.
pub const XEN_SYSCTL_INTERFACE_VERSION: u32 = 0x14;

impl AbiVersion {
    /// The newest interface versions known.
    pub fn newest() -> (r: AbiVersion)
        ensures
            r.domctl == XEN_DOMCTL_INTERFACE_VERSION,
            r.sysctl == XEN_SYSCTL_INTERFACE_VERSION,
    {
        AbiVersion { domctl: XEN_DOMCTL_INTERFACE_VERSION, sysctl: XEN_SYSCTL_INTERFACE_VERSION }
    }
}

/// The command envelope of a privileged call: an operation code and five
/// machine-word arguments.
#[derive(Clone, Copy, Debug)]
pub struct PrivCmdHypercall {
    pub op: u64,
    pub arg: [u64; 5],
}

impl PrivCmdHypercall {
    /// The envelope of operation `op` whose payload sits at `payload_addr`,
    /// passed as the first argument.
    pub fn with_payload(op: u64, payload_addr: u64) -> (r: PrivCmdHypercall)
        ensures
            r.op == op,
            r.arg@ == seq![payload_addr, 0u64, 0u64, 0u64, 0u64],
    {
        let r = PrivCmdHypercall { op, arg: [payload_addr, 0, 0, 0, 0] };
        assert(r.arg@ =~= seq![payload_addr, 0u64, 0u64, 0u64, 0u64]);
        r
    }
}

/// The request number of the privileged-call ioctl.
#[allow(non_snake_case)]
pub fn IOCTL_PRIVCMD_HYPERCALL() -> (r: u64)
    ensures
        r == ioc_value(IOC_NONE, XEN_PRIVCMD_TYPE, 0, PRIVCMD_HYPERCALL_SIZE),
{
    ioctl_number(IOC_NONE, XEN_PRIVCMD_TYPE, 0, PRIVCMD_HYPERCALL_SIZE)
}

/// The request number of the batched frame-map ioctl.
#[allow(non_snake_case)]
pub fn IOCTL_PRIVCMD_MMAPBATCH_V2() -> (r: u64)
    ensures
        r == ioc_value(IOC_NONE, XEN_PRIVCMD_TYPE, 4, PRIVCMD_MMAPBATCH_V2_SIZE),
{
    ioctl_number(IOC_NONE, XEN_PRIVCMD_TYPE, 4, PRIVCMD_MMAPBATCH_V2_SIZE)
}

/// The request number of the device-model operation ioctl.
#[allow(non_snake_case)]
pub fn IOCTL_PRIVCMD_DM_OP() -> (r: u64)
    ensures
        r == ioc_value(IOC_NONE, XEN_PRIVCMD_TYPE, 5, PRIVCMD_DM_OP_SIZE),
{
    ioctl_number(IOC_NONE, XEN_PRIVCMD_TYPE, 5, PRIVCMD_DM_OP_SIZE)
}

/// The request number of the resource-map ioctl.
#[allow(non_snake_case)]
pub fn IOCTL_PRIVCMD_MMAP_RESOURCE() -> (r: u64)
    ensures
        r == ioc_value(IOC_NONE, XEN_PRIVCMD_TYPE, 7, PRIVCMD_MMAP_RESOURCE_SIZE),
{
    ioctl_number(IOC_NONE, XEN_PRIVCMD_TYPE, 7, PRIVCMD_MMAP_RESOURCE_SIZE)
}

/// The request number of the interrupt-eventfd ioctl.
#[allow(non_snake_case)]
pub fn IOCTL_PRIVCMD_IRQFD() -> (r: u64)
    ensures
        r == ioc_value(IOC_WRITE, XEN_PRIVCMD_TYPE, 8, PRIVCMD_IRQFD_SIZE),
{
    ioctl_number(IOC_WRITE, XEN_PRIVCMD_TYPE, 8, PRIVCMD_IRQFD_SIZE)
}

/// The request number of the I/O-eventfd ioctl.
#[allow(non_snake_case)]
pub fn IOCTL_PRIVCMD_IOEVENTFD() -> (r: u64)
    ensures
        r == ioc_value(IOC_WRITE, XEN_PRIVCMD_TYPE, 9, PRIVCMD_IOEVENTFD_SIZE),
{
    ioctl_number(IOC_WRITE, XEN_PRIVCMD_TYPE, 9, PRIVCMD_IOEVENTFD_SIZE)
}

/// The request number of the event-channel bind ioctl.
#[allow(non_snake_case)]
pub fn IOCTL_EVTCHN_BIND_INTERDOMAIN() -> (r: u64)
    ensures
        r == ioc_value(IOC_NONE, XEN_EVTCHN_TYPE, 1, EVTCHN_BIND_INTERDOMAIN_SIZE),
{
    ioctl_number(IOC_NONE, XEN_EVTCHN_TYPE, 1, EVTCHN_BIND_INTERDOMAIN_SIZE)
}

/// The request number of the event-channel unbind ioctl.
#[allow(non_snake_case)]
pub fn IOCTL_EVTCHN_UNBIND() -> (r: u64)
    ensures
        r == ioc_value(IOC_NONE, XEN_EVTCHN_TYPE, 3, EVTCHN_PORT_SIZE),
{
    ioctl_number(IOC_NONE, XEN_EVTCHN_TYPE, 3, EVTCHN_PORT_SIZE)
}

/// The request number of the event-channel notify ioctl.
#[allow(non_snake_case)]
pub fn IOCTL_EVTCHN_NOTIFY() -> (r: u64)
    ensures
        r == ioc_value(IOC_NONE, XEN_EVTCHN_TYPE, 4, EVTCHN_PORT_SIZE),
{
    ioctl_number(IOC_NONE, XEN_EVTCHN_TYPE, 4, EVTCHN_PORT_SIZE)
}

/// The length of the bounce buffer for a payload of `size` bytes: a whole
/// number of pages, at least one. `None` when a page more than `size` would
/// not fit in the address space.
pub fn bounce_buffer_len(size: usize) -> (r: Option<usize>)
    ensures
        size + PAGE_SIZE - 1 <= usize::MAX ==> r == Some(
            page_ceiling(size as int, PAGE_SIZE as int) as usize,
        ),
        size + PAGE_SIZE - 1 > usize::MAX ==> r is None,
{
    if size > usize::MAX - (PAGE_SIZE as usize - 1) {
        None
    } else {
        proof {
            lemma_page_ceiling_upper(size as int, PAGE_SIZE as int);
        }
        Some(round_up(size as u64, PAGE_SIZE as u64))
    }
}

/// Whether `count` items of `item_size` bytes lie inside a bounce buffer of
/// `buffer_len` bytes, so that copying them out stays within it.
pub fn items_fit(count: usize, item_size: usize, buffer_len: usize) -> (r: bool)
    ensures
        r == (count * item_size < buffer_len),
{
    if item_size == 0 {
        0 < buffer_len
    } else if count > buffer_len / item_size {
        proof {
            assert(count * item_size >= buffer_len) by (nonlinear_arith)
                requires
                    count > buffer_len / item_size,
                    item_size > 0,
            ;
        }
        false
    } else {
        proof {
            assert(count * item_size <= buffer_len) by (nonlinear_arith)
                requires
                    count <= buffer_len / item_size,
                    item_size > 0,
            ;
        }
        count * item_size < buffer_len
    }
}

/// Why a privileged call failed.
#[derive(Clone, Copy, Debug, PartialEq, Eq, Structural)]
pub enum PrivcmdError {
    /// Permission denied: almost always a client built for another
    /// interface version than the running hypervisor's.
    AbiMismatch,
    /// Any other OS error, by errno.
    Os(i32),
}

impl PrivcmdError {
    /// Reads the errno of a failed privileged call, telling an interface
    /// version mismatch apart from every other failure.
    pub fn from_errno(errno: i32) -> (r: PrivcmdError)
        ensures
            errno == eacces_value() ==> r == PrivcmdError::AbiMismatch,
            errno != eacces_value() ==> r == PrivcmdError::Os(errno),
    {
        if errno == eacces() {
            PrivcmdError::AbiMismatch
        } else {
            PrivcmdError::Os(errno)
        }
    }
}

} // verus!
