use xen_ctrl::devmodel::{
    eventfd_flags, XenDeviceModelIoreqServerRange, XenDeviceModelOp, XenDeviceModelOpPayload,
    XEN_DMOP_IO_RANGE_MEMORY, XEN_DMOP_IO_RANGE_PORT, XEN_DMOP_map_io_range_to_ioreq_server,
    XEN_DMOP_nr_vcpus, XEN_DMOP_unmap_io_range_from_ioreq_server,
};
use xen_ctrl::domain::{
    XcDominfo, XenDomctl, XenDomctlGetDomainInfo, XEN_DOMCTL_getdomaininfo, XEN_DOMINF_hap,
    XEN_DOMINF_running, XEN_DOMINF_shutdown, XEN_DOMINF_dying,
};
use xen_ctrl::evtchn::port_of_return;
use xen_ctrl::guest::{crash, poweroff, reboot, sched_op, yield_slice, GuestCall, SchedOp};
use xen_ctrl::privcmd::AbiVersion;
use xen_ctrl::sysctl::{
    domaininfo_buffer_size, XenSysctl, XenSysctlPayload, XEN_SYSCTL_getdomaininfolist,
    XEN_SYSCTL_physinfo,
};

fn info_with_flags(flags: u32) -> XenDomctlGetDomainInfo {
    let mut info = XenDomctlGetDomainInfo::zeroed();
    info.domain = 3;
    info.flags = flags;
    info.max_pages.v = 256;
    info.tot_pages.v = 100;
    info
}

#[test]
fn dominfo_reads_flags() {
    let d = XcDominfo::try_from(info_with_flags(XEN_DOMINF_running | XEN_DOMINF_hap)).unwrap();
    assert_eq!(d.domid, 3);
    assert!(d.running && d.hap);
    assert!(!d.dying && !d.shutdown && !d.crashed && !d.paused);
    assert_eq!(d.max_memkb, 1024);
    assert_eq!(d.nr_pages, 100);
}

#[test]
fn dominfo_crash_is_not_shutdown() {
    let flags = XEN_DOMINF_shutdown | (3 << 16);
    let d = XcDominfo::try_from(info_with_flags(flags)).unwrap();
    assert!(d.crashed);
    assert!(!d.shutdown);
    assert_eq!(d.shutdown_reason, 3);
    let flags = XEN_DOMINF_shutdown | XEN_DOMINF_dying | (1 << 16);
    let d = XcDominfo::try_from(info_with_flags(flags)).unwrap();
    assert!(d.shutdown && d.dying && !d.crashed);
    assert_eq!(d.shutdown_reason, 1);
}

#[test]
fn dominfo_reason_without_shutdown_bit() {
    let d = XcDominfo::try_from(info_with_flags(3 << 16)).unwrap();
    assert!(!d.crashed && !d.shutdown);
    assert_eq!(d.shutdown_reason, 3);
}

#[test]
fn dominfo_max_memkb_wraps() {
    let mut info = info_with_flags(0);
    info.max_pages.v = u64::MAX;
    let d = XcDominfo::try_from(info).unwrap();
    assert_eq!(d.max_memkb, u64::MAX.wrapping_mul(4));
}

#[test]
fn domctl_request_for_domain() {
    let abi = AbiVersion::newest();
    assert_eq!(abi.domctl, 0x17);
    let req = XenDomctl::getdomaininfo(5, abi);
    assert_eq!(req.cmd, XEN_DOMCTL_getdomaininfo);
    assert_eq!(req.domain, 5);
    assert_eq!(req.interface_version, 0x17);
    let older = AbiVersion { domctl: 0x15, sysctl: 0x14 };
    assert_eq!(XenDomctl::getdomaininfo(5, older).interface_version, 0x15);
}

#[test]
fn sysctl_requests() {
    let abi = AbiVersion::newest();
    let p = XenSysctl::physinfo(abi);
    assert_eq!(p.cmd, XEN_SYSCTL_physinfo);
    assert_eq!(p.interface_version, 0x14);
    let l = XenSysctl::getdomaininfolist(1, 8, 0xabc000, abi);
    assert_eq!(l.cmd, XEN_SYSCTL_getdomaininfolist);
    match l.payload {
        XenSysctlPayload::Domaininfolist(d) => {
            assert_eq!(d.first_domain, 1);
            assert_eq!(d.max_domain, 8);
            assert_eq!(d.buffer.v, 0xabc000);
            assert_eq!(d.num_domains, 0);
        }
        XenSysctlPayload::Physinfo(_) => panic!("wrong payload"),
    }
    assert_eq!(domaininfo_buffer_size(8), Some(960));
}

#[test]
fn device_model_ops_carry_their_payload() {
    let op = XenDeviceModelOp::io_range(true, 4, 1, 0x1000, 0x1fff);
    assert_eq!(op.op, XEN_DMOP_map_io_range_to_ioreq_server);
    match op.payload {
        XenDeviceModelOpPayload::IoreqServerRange(XenDeviceModelIoreqServerRange {
            id,
            range_type,
            start,
            end,
            ..
        }) => {
            assert_eq!(id, 4);
            assert_eq!(range_type, XEN_DMOP_IO_RANGE_MEMORY);
            assert_eq!(start.v, 0x1000);
            assert_eq!(end.v, 0x1fff);
        }
        _ => panic!("wrong payload"),
    }
    let op = XenDeviceModelOp::io_range(false, 4, 0, 0x60, 0x64);
    assert_eq!(op.op, XEN_DMOP_unmap_io_range_from_ioreq_server);
    match op.payload {
        XenDeviceModelOpPayload::IoreqServerRange(r) => {
            assert_eq!(r.range_type, XEN_DMOP_IO_RANGE_PORT)
        }
        _ => panic!("wrong payload"),
    }
    assert_eq!(XenDeviceModelOp::nr_vcpus().op, XEN_DMOP_nr_vcpus);
    match XenDeviceModelOp::set_ioreq_server_state(2, 0x101).payload {
        XenDeviceModelOpPayload::SetIoreqServerState(s) => assert_eq!(s.enabled, 1),
        _ => panic!("wrong payload"),
    }
    assert_eq!(eventfd_flags(true), 1);
    assert_eq!(eventfd_flags(false), 0);
}

#[test]
fn event_channel_return_values() {
    assert_eq!(port_of_return(5), Some(5));
    assert_eq!(port_of_return(-1), None);
}

#[test]
fn guest_shutdown_calls() {
    assert_eq!(reboot(), GuestCall { op: 29, arg1: 2, arg2: 1, arg3: 0 });
    assert_eq!(crash(), GuestCall { op: 29, arg1: 2, arg2: 3, arg3: 0 });
    assert_eq!(poweroff(), GuestCall { op: 29, arg1: 2, arg2: 0, arg3: 0 });
    assert_eq!(yield_slice(), GuestCall { op: 29, arg1: 0, arg2: 0, arg3: 0 });
    assert_eq!(sched_op(SchedOp::Poll, 0), None);
}
