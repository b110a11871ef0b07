//! System-control requests: host physical information and the batched list
//! of domain information records.
use vstd::prelude::*;
use crate::domain::U64Aligned;
use crate::privcmd::AbiVersion;

verus! {

/// System-control commands.
pub const XEN_SYSCTL_physinfo: u32 = 3;
pub const XEN_SYSCTL_getdomaininfolist: u32 = 6;

/// The size of one domain information record in the list buffer.
pub const DOMAININFO_RECORD_SIZE: usize = 120;

/// The host's physical resources.
#[derive(Clone, Copy, Debug)]
pub struct XenSysctlPhysinfo {
    pub threads_per_core: u32,
    pub cores_per_socket: u32,
    pub nr_cpus: u32,
    pub max_cpu_id: u32,
    pub nr_nodes: u32,
    pub max_node_id: u32,
    pub cpu_khz: u32,
    pub capabilites: u32,
    pub total_pages: U64Aligned,
    pub free_pages: U64Aligned,
    pub scrub_pages: U64Aligned,
    pub outstanding_pages: U64Aligned,
    pub max_mfn: U64Aligned,
    pub hw_cap: [u32; 8],
}

impl XenSysctlPhysinfo {
    /// An all-zero record, for the hypervisor to fill in.
    pub fn zeroed() -> (r: XenSysctlPhysinfo)
        ensures
            r.nr_cpus == 0 && r.total_pages.v == 0,
    {
        XenSysctlPhysinfo {
            threads_per_core: 0,
            cores_per_socket: 0,
            nr_cpus: 0,
            max_cpu_id: 0,
            nr_nodes: 0,
            max_node_id: 0,
            cpu_khz: 0,
            capabilites: 0,
            total_pages: U64Aligned { v: 0 },
            free_pages: U64Aligned { v: 0 },
            scrub_pages: U64Aligned { v: 0 },
            outstanding_pages: U64Aligned { v: 0 },
            max_mfn: U64Aligned { v: 0 },
            hw_cap: [0u32; 8],
        }
    }
}

/// Asks for up to `max_domain` records from `first_domain` on, written to
/// the buffer at `buffer`; the hypervisor sets `num_domains`.
#[derive(Clone, Copy, Debug, PartialEq, Eq, Structural)]
pub struct XenSysctlGetdomaininfolist {
    pub first_domain: u16,
    pub max_domain: u32,
    pub buffer: U64Aligned,
    pub num_domains: u32,
}

/// The payload of a system-control request.
#[derive(Clone, Copy, Debug)]
pub enum XenSysctlPayload {
    Physinfo(XenSysctlPhysinfo),
    Domaininfolist(XenSysctlGetdomaininfolist),
}

/// A system-control request: command, interface version, payload.
#[derive(Clone, Copy, Debug)]
pub struct XenSysctl {
    pub cmd: u32,
    pub interface_version: u32,
    pub payload: XenSysctlPayload,
}

impl XenSysctl {
    /// The request for the host's physical information.
    pub fn physinfo(abi: AbiVersion) -> (r: XenSysctl)
        ensures
            r.cmd == XEN_SYSCTL_physinfo,
            r.interface_version == abi.sysctl,
            r.payload is Physinfo,
    {
        XenSysctl {
            cmd: XEN_SYSCTL_physinfo,
            interface_version: abi.sysctl,
            payload: XenSysctlPayload::Physinfo(XenSysctlPhysinfo::zeroed()),
        }
    }

    /// The request for up to `max_domain` domain records from
    /// `first_domain` on, to be written at `buffer`.
    pub fn getdomaininfolist(first_domain: u16, max_domain: u32, buffer: u64, abi: AbiVersion) -> (r:
        XenSysctl)
        ensures
            r.cmd == XEN_SYSCTL_getdomaininfolist,
            r.interface_version == abi.sysctl,
            r.payload == XenSysctlPayload::Domaininfolist(
                XenSysctlGetdomaininfolist {
                    first_domain,
                    max_domain,
                    buffer: U64Aligned { v: buffer },
                    num_domains: 0,
                },
            ),
    {
        XenSysctl {
            cmd: XEN_SYSCTL_getdomaininfolist,
            interface_version: abi.sysctl,
            payload: XenSysctlPayload::Domaininfolist(
                XenSysctlGetdomaininfolist {
                    first_domain,
                    max_domain,
                    buffer: U64Aligned { v: buffer },
                    num_domains: 0,
                },
            ),
        }
    }
}

/// The byte length of the list buffer for `max_domain` records, when it
/// fits in the address space.
pub fn domaininfo_buffer_size(max_domain: u32) -> (r: Option<usize>)
    ensures
        max_domain * DOMAININFO_RECORD_SIZE <= usize::MAX ==> r == Some(
            (max_domain * DOMAININFO_RECORD_SIZE) as usize,
        ),
        max_domain * DOMAININFO_RECORD_SIZE > usize::MAX ==> r is None,
{
    if max_domain as usize > usize::MAX / DOMAININFO_RECORD_SIZE {
        proof {
            assert(max_domain * 120 > usize::MAX) by (nonlinear_arith)
                requires
                    max_domain > usize::MAX / 120,
            ;
        }
        None
    } else {
        proof {
            assert(max_domain * 120 <= usize::MAX) by (nonlinear_arith)
                requires
                    max_domain <= usize::MAX / 120,
            ;
        }
        Some(max_domain as usize * DOMAININFO_RECORD_SIZE)
    }
}

} // verus!
