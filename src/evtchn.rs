//! Event-channel ioctl arguments.
use vstd::prelude::*;

verus! {

/// Binds a local port to `remote_port` of `remote_domain`.
#[derive(Clone, Copy, Debug, Default, PartialEq, Eq, Structural)]
pub struct XenIoctlEvtchnBindInterdomain {
    pub remote_domain: u32,
    pub remote_port: u32,
}

/// Unbinds a local port.
#[derive(Clone, Copy, Debug, Default, PartialEq, Eq, Structural)]
pub struct XenIoctlEvtchnUnbind {
    pub port: u32,
}

/// Signals a local port.
#[derive(Clone, Copy, Debug, Default, PartialEq, Eq, Structural)]
pub struct XenIoctlEvtchnNotify {
    pub port: u32,
}

/// Reads what a successful event-channel ioctl returned: a port number.
/// A negative return is a failure.
pub fn port_of_return(ret: i32) -> (r: Option<u32>)
    ensures
        ret < 0 ==> r is None,
        ret >= 0 ==> r == Some(ret as u32),
{
    if ret < 0 {
        None
    } else {
        Some(ret as u32)
    }
}

} // verus!
