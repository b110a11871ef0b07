//! Device-model operations: each request is an operation code with the
//! payload that belongs to it.
use vstd::prelude::*;
use crate::domain::U64Aligned;

verus! {

/// The domain id that stands for no domain; an operation on it checks that
/// the device-model interface is there.
pub const DOM_INVALID: u16 = 0x7FF4;

/// Device-model operation codes.
pub const XEN_DMOP_create_ioreq_server: u32 = 1;
pub const XEN_DMOP_map_io_range_to_ioreq_server: u32 = 3;
pub const XEN_DMOP_unmap_io_range_from_ioreq_server: u32 = 4;
pub const XEN_DMOP_set_ioreq_server_state: u32 = 5;
pub const XEN_DMOP_destroy_ioreq_server: u32 = 6;
pub const XEN_DMOP_set_irq_level: u32 = 19;
pub const XEN_DMOP_nr_vcpus: u32 = 20;

/// Buffered I/O request handling of a new server.
pub const HVM_IOREQSRV_BUFIOREQ_OFF: u8 = 0;
pub const HVM_IOREQSRV_BUFIOREQ_LEGACY: u8 = 1;

/// Kinds of I/O range.
pub const XEN_DMOP_IO_RANGE_PORT: u32 = 0;
pub const XEN_DMOP_IO_RANGE_MEMORY: u32 = 1;

/// The flag that turns an irqfd or ioeventfd registration into its removal.
pub const PRIVCMD_IRQFD_FLAG_DEASSIGN: u32 = 1;
pub const PRIVCMD_IOEVENTFD_FLAG_DEASSIGN: u32 = 1;

#[derive(Clone, Copy, Debug, Default, PartialEq, Eq, Structural)]
pub struct XenDeviceModelCreateIoreqServer {
    pub handle_bufioreq: u8,
    pub pad0: u8,
    pub pad1: u8,
    pub pad2: u8,
    pub id: u16,
}

#[derive(Clone, Copy, Debug, Default, PartialEq, Eq, Structural)]
pub struct XenDeviceModelIoreqServerRange {
    pub id: u16,
    pub pad: u16,
    pub range_type: u32,
    pub start: U64Aligned,
    pub end: U64Aligned,
}

#[derive(Clone, Copy, Debug, Default, PartialEq, Eq, Structural)]
pub struct XenDeviceModelSetIoreqServerState {
    pub id: u16,
    pub enabled: u8,
    pub pad: u8,
}

#[derive(Clone, Copy, Debug, Default, PartialEq, Eq, Structural)]
pub struct XenDeviceModelDestroyIoreqServer {
    pub id: u16,
    pub pad: u16,
}

#[derive(Clone, Copy, Debug, Default, PartialEq, Eq, Structural)]
pub struct XenDeviceModelSetIrqLevel {
    pub irq: u32,
    pub level: u8,
    pub pad0: u8,
    pub pad1: u8,
    pub pad2: u8,
}

#[derive(Clone, Copy, Debug, Default, PartialEq, Eq, Structural)]
pub struct XenDeviceModelNrVcpus {
    pub vcpus: u32,
}

/// The payload of a device-model operation, one variant per operation.
#[derive(Clone, Copy, Debug, PartialEq, Eq, Structural)]
pub enum XenDeviceModelOpPayload {
    CreateIoreqServer(XenDeviceModelCreateIoreqServer),
    IoreqServerRange(XenDeviceModelIoreqServerRange),
    SetIoreqServerState(XenDeviceModelSetIoreqServerState),
    DestroyIoreqServer(XenDeviceModelDestroyIoreqServer),
    SetIrqLevel(XenDeviceModelSetIrqLevel),
    NrVcpus(XenDeviceModelNrVcpus),
}

/// A device-model operation: its code and its payload.
#[derive(Clone, Copy, Debug, PartialEq, Eq, Structural)]
pub struct XenDeviceModelOp {
    pub op: u32,
    pub pad: u32,
    pub payload: XenDeviceModelOpPayload,
}

/// The payload that goes with operation code `op`.
pub open spec fn payload_matches(op: u32, p: XenDeviceModelOpPayload) -> bool {
    match p {
        XenDeviceModelOpPayload::CreateIoreqServer(_) => op == XEN_DMOP_create_ioreq_server,
        XenDeviceModelOpPayload::IoreqServerRange(_) => op == XEN_DMOP_map_io_range_to_ioreq_server
            || op == XEN_DMOP_unmap_io_range_from_ioreq_server,
        XenDeviceModelOpPayload::SetIoreqServerState(_) => op == XEN_DMOP_set_ioreq_server_state,
        XenDeviceModelOpPayload::DestroyIoreqServer(_) => op == XEN_DMOP_destroy_ioreq_server,
        XenDeviceModelOpPayload::SetIrqLevel(_) => op == XEN_DMOP_set_irq_level,
        XenDeviceModelOpPayload::NrVcpus(_) => op == XEN_DMOP_nr_vcpus,
    }
}

impl XenDeviceModelOp {
    pub open spec fn wf(self) -> bool {
        payload_matches(self.op, self.payload)
    }

    /// Asks for the number of virtual CPUs of a domain.
    pub fn nr_vcpus() -> (r: XenDeviceModelOp)
        ensures
            r.wf(),
            r == (XenDeviceModelOp {
                op: XEN_DMOP_nr_vcpus,
                pad: 0,
                payload: XenDeviceModelOpPayload::NrVcpus(XenDeviceModelNrVcpus { vcpus: 0 }),
            }),
    {
        XenDeviceModelOp {
            op: XEN_DMOP_nr_vcpus,
            pad: 0,
            payload: XenDeviceModelOpPayload::NrVcpus(XenDeviceModelNrVcpus { vcpus: 0 }),
        }
    }

    /// Creates an I/O request server with the given buffered-request mode.
    pub fn create_ioreq_server(handle_bufioreq: u8) -> (r: XenDeviceModelOp)
        ensures
            r.wf(),
            r == (XenDeviceModelOp {
                op: XEN_DMOP_create_ioreq_server,
                pad: 0,
                payload: XenDeviceModelOpPayload::CreateIoreqServer(
                    XenDeviceModelCreateIoreqServer {
                        handle_bufioreq,
                        pad0: 0,
                        pad1: 0,
                        pad2: 0,
                        id: 0,
                    },
                ),
            }),
    {
        XenDeviceModelOp {
            op: XEN_DMOP_create_ioreq_server,
            pad: 0,
            payload: XenDeviceModelOpPayload::CreateIoreqServer(
                XenDeviceModelCreateIoreqServer { handle_bufioreq, pad0: 0, pad1: 0, pad2: 0, id: 0 },
            ),
        }
    }

    /// Maps (`map` true) or unmaps an I/O range of server `id`: a port range
    /// when `is_mmio` is 0, a memory range otherwise.
    pub fn io_range(map: bool, id: u16, is_mmio: i32, start: u64, end: u64) -> (r:
        XenDeviceModelOp)
        ensures
            r.wf(),
            r.op == if map {
                XEN_DMOP_map_io_range_to_ioreq_server
            } else {
                XEN_DMOP_unmap_io_range_from_ioreq_server
            },
            r.pad == 0,
            r.payload == XenDeviceModelOpPayload::IoreqServerRange(
                XenDeviceModelIoreqServerRange {
                    id,
                    pad: 0,
                    range_type: if is_mmio == 0 {
                        XEN_DMOP_IO_RANGE_PORT
                    } else {
                        XEN_DMOP_IO_RANGE_MEMORY
                    },
                    start: U64Aligned { v: start },
                    end: U64Aligned { v: end },
                },
            ),
    {
        let op = if map {
            XEN_DMOP_map_io_range_to_ioreq_server
        } else {
            XEN_DMOP_unmap_io_range_from_ioreq_server
        };
        let range_type = if is_mmio == 0 {
            XEN_DMOP_IO_RANGE_PORT
        } else {
            XEN_DMOP_IO_RANGE_MEMORY
        };
        XenDeviceModelOp {
            op,
            pad: 0,
            payload: XenDeviceModelOpPayload::IoreqServerRange(
                XenDeviceModelIoreqServerRange {
                    id,
                    pad: 0,
                    range_type,
                    start: U64Aligned { v: start },
                    end: U64Aligned { v: end },
                },
            ),
        }
    }

    /// Enables or disables server `id`; the flag keeps its low byte.
    pub fn set_ioreq_server_state(id: u16, enabled: i32) -> (r: XenDeviceModelOp)
        ensures
            r.wf(),
            r == (XenDeviceModelOp {
                op: XEN_DMOP_set_ioreq_server_state,
                pad: 0,
                payload: XenDeviceModelOpPayload::SetIoreqServerState(
                    XenDeviceModelSetIoreqServerState { id, enabled: enabled as u8, pad: 0 },
                ),
            }),
    {
        XenDeviceModelOp {
            op: XEN_DMOP_set_ioreq_server_state,
            pad: 0,
            payload: XenDeviceModelOpPayload::SetIoreqServerState(
                XenDeviceModelSetIoreqServerState { id, enabled: enabled as u8, pad: 0 },
            ),
        }
    }

    /// Destroys server `id`.
    pub fn destroy_ioreq_server(id: u16) -> (r: XenDeviceModelOp)
        ensures
            r.wf(),
            r == (XenDeviceModelOp {
                op: XEN_DMOP_destroy_ioreq_server,
                pad: 0,
                payload: XenDeviceModelOpPayload::DestroyIoreqServer(
                    XenDeviceModelDestroyIoreqServer { id, pad: 0 },
                ),
            }),
    {
        XenDeviceModelOp {
            op: XEN_DMOP_destroy_ioreq_server,
            pad: 0,
            payload: XenDeviceModelOpPayload::DestroyIoreqServer(
                XenDeviceModelDestroyIoreqServer { id, pad: 0 },
            ),
        }
    }

    /// Sets the level of interrupt line `irq`.
    pub fn set_irq_level(irq: u32, level: u8) -> (r: XenDeviceModelOp)
        ensures
            r.wf(),
            r == (XenDeviceModelOp {
                op: XEN_DMOP_set_irq_level,
                pad: 0,
                payload: XenDeviceModelOpPayload::SetIrqLevel(
                    XenDeviceModelSetIrqLevel { irq, level, pad0: 0, pad1: 0, pad2: 0 },
                ),
            }),
    {
        XenDeviceModelOp {
            op: XEN_DMOP_set_irq_level,
            pad: 0,
            payload: XenDeviceModelOpPayload::SetIrqLevel(
                XenDeviceModelSetIrqLevel { irq, level, pad0: 0, pad1: 0, pad2: 0 },
            ),
        }
    }
}

/// The flags of an irqfd or ioeventfd registration: none to register, the
/// deassign flag to remove.
pub fn eventfd_flags(deassign: bool) -> (r: u32)
    ensures
        r == if deassign {
            PRIVCMD_IRQFD_FLAG_DEASSIGN
        } else {
            0
        },
{
    if deassign {
        PRIVCMD_IRQFD_FLAG_DEASSIGN
    } else {
        0
    }
}

} // verus!
