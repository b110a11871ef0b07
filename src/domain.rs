//! Domain introspection: the hypervisor's per-domain information record, the
//! domain-control request that fetches it, and its reading into a summary.
use vstd::prelude::*;
use crate::privcmd::AbiVersion;

verus! {

/// Domain information flag bits.
pub const XEN_DOMINF_dying: u32 = 0b1;
pub const XEN_DOMINF_hvm_guest: u32 = 0b10;
pub const XEN_DOMINF_shutdown: u32 = 0b100;
pub const XEN_DOMINF_paused: u32 = 0b1000;
pub const XEN_DOMINF_blocked: u32 = 0b10000;
pub const XEN_DOMINF_running: u32 = 0b100000;
pub const XEN_DOMINF_debugged: u32 = 0b1000000;
pub const XEN_DOMINF_xs_domain: u32 = 0b10000000;
pub const XEN_DOMINF_hap: u32 = 0b100000000;

/// The shutdown reason sits in these bits of the flags, from this shift on.
pub const XEN_DOMINF_shutdownmask: u32 = 255;
pub const XEN_DOMINF_shutdownshift: u32 = 16;

/// Shutdown reasons.
pub const SHUTDOWN_poweroff: u32 = 0;
pub const SHUTDOWN_reboot: u32 = 1;
pub const SHUTDOWN_suspend: u32 = 2;
pub const SHUTDOWN_crash: u32 = 3;

/// Domain-control commands.
pub const XEN_DOMCTL_createdomain: u32 = 1;
pub const XEN_DOMCTL_destroydomain: u32 = 2;
pub const XEN_DOMCTL_pausedomain: u32 = 3;
pub const XEN_DOMCTL_unpausedomain: u32 = 4;
pub const XEN_DOMCTL_getdomaininfo: u32 = 5;

/// A 64-bit field that the hypervisor's interface aligns to 8 bytes.
#[derive(Clone, Copy, Debug, Default, PartialEq, Eq, Structural)]
pub struct U64Aligned {
    pub v: u64,
}

/// The architecture part of a domain's configuration.
#[derive(Clone, Copy, Debug, Default, PartialEq, Eq, Structural)]
pub struct XenArchDomainconfig {
    pub gic_version: u8,
    pub tee_type: u16,
    pub nr_spis: u32,
    pub clock_frequency: u32,
}

/// The hypervisor's information record about one domain.
#[derive(Clone, Copy, Debug)]
pub struct XenDomctlGetDomainInfo {
    pub domain: u16,
    pub pad: u16,
    pub flags: u32,
    pub tot_pages: U64Aligned,
    pub max_pages: U64Aligned,
    pub outstanding_pages: U64Aligned,
    pub shr_pages: U64Aligned,
    pub paged_pages: U64Aligned,
    pub shared_info_frame: U64Aligned,
    pub cpu_time: U64Aligned,
    pub nr_online_vcpus: u32,
    pub max_vcpu_id: u32,
    pub ssidref: u32,
    pub handle: [u8; 16],
    pub cpupool: u32,
    pub gpaddr_bits: u8,
    pub pad2: [u8; 7],
    pub arch_config: XenArchDomainconfig,
}

impl XenDomctlGetDomainInfo {
    /// An all-zero record, for the hypervisor to fill in.
    pub fn zeroed() -> (r: XenDomctlGetDomainInfo)
        ensures
            r.domain == 0 && r.flags == 0 && r.max_pages.v == 0,
    {
        XenDomctlGetDomainInfo {
            domain: 0,
            pad: 0,
            flags: 0,
            tot_pages: U64Aligned { v: 0 },
            max_pages: U64Aligned { v: 0 },
            outstanding_pages: U64Aligned { v: 0 },
            shr_pages: U64Aligned { v: 0 },
            paged_pages: U64Aligned { v: 0 },
            shared_info_frame: U64Aligned { v: 0 },
            cpu_time: U64Aligned { v: 0 },
            nr_online_vcpus: 0,
            max_vcpu_id: 0,
            ssidref: 0,
            handle: [0u8; 16],
            cpupool: 0,
            gpaddr_bits: 0,
            pad2: [0u8; 7],
            arch_config: XenArchDomainconfig {
                gic_version: 0,
                tee_type: 0,
                nr_spis: 0,
                clock_frequency: 0,
            },
        }
    }
}

/// A domain-control request; the only payload this client sends is the
/// domain information record.
#[derive(Clone, Copy, Debug)]
pub struct XenDomctl {
    pub cmd: u32,
    pub interface_version: u32,
    pub domain: u16,
    pub pad: [u16; 3],
    pub domaininfo: XenDomctlGetDomainInfo,
}

impl XenDomctl {
    /// The request for the information record of `domain`.
    pub fn getdomaininfo(domain: u16, abi: AbiVersion) -> (r: XenDomctl)
        ensures
            r.cmd == XEN_DOMCTL_getdomaininfo,
            r.interface_version == abi.domctl,
            r.domain == domain,
    {
        XenDomctl {
            cmd: XEN_DOMCTL_getdomaininfo,
            interface_version: abi.domctl,
            domain,
            pad: [0u16; 3],
            domaininfo: XenDomctlGetDomainInfo::zeroed(),
        }
    }
}

/// A summary of a domain's state, as management tools present it.
#[derive(Clone, Copy, Debug)]
pub struct XcDominfo {
    pub domid: u16,
    pub ssidref: u32,
    pub dying: bool,
    pub crashed: bool,
    pub shutdown: bool,
    pub paused: bool,
    pub blocked: bool,
    pub running: bool,
    pub hvm: bool,
    pub debugged: bool,
    pub xenstore: bool,
    pub hap: bool,
    pub shutdown_reason: u32,
    pub nr_pages: u64,
    pub nr_outstanding_pages: u64,
    pub nr_shared_pages: u64,
    pub nr_paged_pages: u64,
    pub shared_info_frame: u64,
    pub cpu_time: u64,
    pub max_memkb: u64,
    pub nr_online_vcpus: u32,
    pub max_vcpu_id: u32,
    pub handle: [u8; 16],
    pub cpupool: u32,
    pub gpaddr_bits: u8,
    pub arch_config: XenArchDomainconfig,
}

/// The shutdown reason held in a record's flags.
pub open spec fn shutdown_reason_of(flags: u32) -> u32 {
    (flags >> XEN_DOMINF_shutdownshift) & XEN_DOMINF_shutdownmask
}

/// The summary of an information record: each state flag read from its bit,
/// a shutdown for a crash reported as a crash rather than a shutdown, and the
/// page-counted maximum converted to KiB.
pub open spec fn dominfo_of(info: XenDomctlGetDomainInfo) -> XcDominfo {
    let reason = shutdown_reason_of(info.flags);
    let down = info.flags & XEN_DOMINF_shutdown != 0;
    XcDominfo {
        domid: info.domain,
        ssidref: info.ssidref,
        dying: info.flags & XEN_DOMINF_dying != 0,
        crashed: down && reason == SHUTDOWN_crash,
        shutdown: down && reason != SHUTDOWN_crash,
        paused: info.flags & XEN_DOMINF_paused != 0,
        blocked: info.flags & XEN_DOMINF_blocked != 0,
        running: info.flags & XEN_DOMINF_running != 0,
        hvm: info.flags & XEN_DOMINF_hvm_guest != 0,
        debugged: info.flags & XEN_DOMINF_debugged != 0,
        xenstore: info.flags & XEN_DOMINF_xs_domain != 0,
        hap: info.flags & XEN_DOMINF_hap != 0,
        shutdown_reason: reason,
        nr_pages: info.tot_pages.v,
        nr_outstanding_pages: info.outstanding_pages.v,
        nr_shared_pages: info.shr_pages.v,
        nr_paged_pages: info.paged_pages.v,
        shared_info_frame: info.shared_info_frame.v,
        cpu_time: info.cpu_time.v,
        max_memkb: info.max_pages.v.wrapping_mul(4),
        nr_online_vcpus: info.nr_online_vcpus,
        max_vcpu_id: info.max_vcpu_id,
        handle: info.handle,
        cpupool: info.cpupool,
        gpaddr_bits: info.gpaddr_bits,
        arch_config: info.arch_config,
    }
}

impl TryFrom<XenDomctlGetDomainInfo> for XcDominfo {
    type Error = ();

    /// Summarises an information record; this never fails.
    fn try_from(info: XenDomctlGetDomainInfo) -> (r: Result<XcDominfo, ()>) {
        let shutdown_reason: u32 = (info.flags >> XEN_DOMINF_shutdownshift)
            & XEN_DOMINF_shutdownmask;
        let mut shutdown: bool = (info.flags & XEN_DOMINF_shutdown) != 0;
        let mut crashed: bool = false;
        if shutdown && shutdown_reason == SHUTDOWN_crash {
            shutdown = false;
            crashed = true;
        }
        Ok(
            XcDominfo {
                domid: info.domain,
                ssidref: info.ssidref,
                dying: (info.flags & XEN_DOMINF_dying) != 0,
                crashed,
                shutdown,
                paused: (info.flags & XEN_DOMINF_paused) != 0,
                blocked: (info.flags & XEN_DOMINF_blocked) != 0,
                running: (info.flags & XEN_DOMINF_running) != 0,
                hvm: (info.flags & XEN_DOMINF_hvm_guest) != 0,
                debugged: (info.flags & XEN_DOMINF_debugged) != 0,
                xenstore: (info.flags & XEN_DOMINF_xs_domain) != 0,
                hap: (info.flags & XEN_DOMINF_hap) != 0,
                shutdown_reason,
                nr_pages: info.tot_pages.v,
                nr_outstanding_pages: info.outstanding_pages.v,
                nr_shared_pages: info.shr_pages.v,
                nr_paged_pages: info.paged_pages.v,
                shared_info_frame: info.shared_info_frame.v,
                cpu_time: info.cpu_time.v,
                max_memkb: info.max_pages.v.wrapping_mul(4),
                nr_online_vcpus: info.nr_online_vcpus,
                max_vcpu_id: info.max_vcpu_id,
                handle: info.handle,
                cpupool: info.cpupool,
                gpaddr_bits: info.gpaddr_bits,
                arch_config: info.arch_config,
            },
        )
    }
}

impl vstd::std_specs::convert::TryFromSpecImpl<XenDomctlGetDomainInfo> for XcDominfo {
    open spec fn obeys_try_from_spec() -> bool {
        true
    }

    open spec fn try_from_spec(info: XenDomctlGetDomainInfo) -> Result<XcDominfo, ()> {
        Ok(dominfo_of(info))
    }
}

} // verus!
