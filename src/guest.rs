//! Guest-side hypercalls of a bare-metal domain: which hypercall, with which
//! arguments, a scheduler or console request turns into. Issuing them is the
//! guest runtime's business.
use vstd::prelude::*;
use crate::domain::{SHUTDOWN_crash, SHUTDOWN_poweroff, SHUTDOWN_reboot};

verus! {

/// The hypercall number of the scheduler operation.
pub const __HYPERVISOR_sched_op: u64 = 29;

/// The hypercall number of the console operation.
pub const __HYPERVISOR_console_io: u64 = 18;

/// Console operations.
#[derive(Clone, Copy, Debug, PartialEq, Eq, Structural)]
pub enum ConsoleIO {
    Write,
    Read,
}

impl ConsoleIO {
    pub open spec fn number_spec(self) -> u64 {
        match self {
            ConsoleIO::Write => 0u64,
            ConsoleIO::Read => 1u64,
        }
    }

    /// The operation's command number.
    pub fn number(self) -> (r: u64)
        ensures
            r == self.number_spec(),
    {
        match self {
            ConsoleIO::Write => 0,
            ConsoleIO::Read => 1,
        }
    }
}

/// Scheduler operations.
#[derive(Clone, Copy, Debug, PartialEq, Eq, Structural)]
pub enum SchedOp {
    Yield,
    Block,
    Shutdown,
    Poll,
    RemoteShutdown,
    ShutdownCode,
    Watchdog,
    PinOverride,
}

/// A hypercall with its arguments; unused ones are 0.
#[derive(Clone, Copy, Debug, PartialEq, Eq, Structural)]
pub struct GuestCall {
    pub op: u64,
    pub arg1: u64,
    pub arg2: u64,
    pub arg3: u64,
}

/// The scheduler hypercall for `mode` with argument `data`. Only yielding
/// and shutting down are offered.
pub fn sched_op(mode: SchedOp, data: u32) -> (r: Option<GuestCall>)
    ensures
        mode == SchedOp::Yield ==> r == Some(
            GuestCall { op: __HYPERVISOR_sched_op, arg1: 0, arg2: data as u64, arg3: 0 },
        ),
        mode == SchedOp::Shutdown ==> r == Some(
            GuestCall { op: __HYPERVISOR_sched_op, arg1: 2, arg2: data as u64, arg3: 0 },
        ),
        mode != SchedOp::Yield && mode != SchedOp::Shutdown ==> r is None,
{
    match mode {
        SchedOp::Yield => Some(GuestCall { op: __HYPERVISOR_sched_op, arg1: 0, arg2: data as u64, arg3: 0 }),
        SchedOp::Shutdown => Some(
            GuestCall { op: __HYPERVISOR_sched_op, arg1: 2, arg2: data as u64, arg3: 0 },
        ),
        _ => None,
    }
}

/// The console hypercall for `mode` on a buffer of `len` bytes at `addr`.
pub fn console_io(mode: ConsoleIO, len: u64, addr: u64) -> (r: GuestCall)
    ensures
        r == (GuestCall { op: __HYPERVISOR_console_io, arg1: mode.number_spec(), arg2: len, arg3: addr }),
{
    GuestCall { op: __HYPERVISOR_console_io, arg1: mode.number(), arg2: len, arg3: addr }
}

fn shutdown_call(reason: u32) -> (r: GuestCall)
    ensures
        r == (GuestCall { op: __HYPERVISOR_sched_op, arg1: 2, arg2: reason as u64, arg3: 0 }),
{
    match sched_op(SchedOp::Shutdown, reason) {
        Some(c) => c,
        None => GuestCall { op: __HYPERVISOR_sched_op, arg1: 2, arg2: reason as u64, arg3: 0 },
    }
}

/// Shuts the domain down for a reboot.
pub fn reboot() -> (r: GuestCall)
    ensures
        r == (GuestCall { op: __HYPERVISOR_sched_op, arg1: 2, arg2: SHUTDOWN_reboot as u64, arg3: 0 }),
{
    shutdown_call(SHUTDOWN_reboot)
}

/// Shuts the domain down as crashed.
pub fn crash() -> (r: GuestCall)
    ensures
        r == (GuestCall { op: __HYPERVISOR_sched_op, arg1: 2, arg2: SHUTDOWN_crash as u64, arg3: 0 }),
{
    shutdown_call(SHUTDOWN_crash)
}

/// Shuts the domain down for good.
pub fn poweroff() -> (r: GuestCall)
    ensures
        r == (GuestCall { op: __HYPERVISOR_sched_op, arg1: 2, arg2: SHUTDOWN_poweroff as u64, arg3: 0 }),
{
    shutdown_call(SHUTDOWN_poweroff)
}

/// Gives up the rest of the time slice.
pub fn yield_slice() -> (r: GuestCall)
    ensures
        r == (GuestCall { op: __HYPERVISOR_sched_op, arg1: 0, arg2: 0, arg3: 0 }),
{
    match sched_op(SchedOp::Yield, 0) {
        Some(c) => c,
        None => GuestCall { op: __HYPERVISOR_sched_op, arg1: 0, arg2: 0, arg3: 0 },
    }
}

} // verus!
