//! Planning foreign-memory and resource mappings: what to reserve, what to
//! ask the kernel for, and what to hand back. Reserving, mapping and
//! unmapping are done by the caller with the values computed here.
use vstd::prelude::*;
use crate::page::PAGE_SIZE;
use crate::sys::{map_private, map_private_value, map_shared, map_shared_value};

verus! {

/// Why a mapping could not be set up.
#[derive(Clone, Copy, Debug, PartialEq, Eq, Structural)]
pub enum MapError {
    /// Sharing flags other than the portable shared/private choice.
    InvalidFlags,
    /// A page count too large for the call or for the address space.
    TooLarge,
    /// The kernel refused, with this errno.
    Os(i32),
}

/// The byte length of `pages` pages, when it fits in the address space.
pub open spec fn pages_len(pages: int) -> int {
    pages * PAGE_SIZE
}

/// The byte length of a mapping of `pages` pages; `None` when it does not
/// fit in the address space. Unmapping uses the same length the mapping was
/// made with.
pub fn mapping_len(pages: u64) -> (r: Option<usize>)
    ensures
        pages_len(pages as int) <= usize::MAX ==> r == Some(pages_len(pages as int) as usize),
        pages_len(pages as int) > usize::MAX ==> r is None,
{
    if pages > (usize::MAX / PAGE_SIZE as usize) as u64 {
        proof {
            assert(pages * 4096 > usize::MAX) by (nonlinear_arith)
                requires
                    pages > usize::MAX / 4096,
            ;
        }
        None
    } else {
        proof {
            assert(pages * 4096 <= usize::MAX) by (nonlinear_arith)
                requires
                    pages <= usize::MAX / 4096,
            ;
        }
        Some(pages as usize * PAGE_SIZE as usize)
    }
}

/// What a batched foreign mapping of `pages` pages needs: the page count as
/// the kernel takes it, and the length of the address range to reserve.
#[derive(Clone, Copy, Debug, PartialEq, Eq, Structural)]
pub struct ForeignMapPlan {
    pub num: u32,
    pub len: usize,
}

/// Checks a foreign mapping request of `pages` pages.
pub fn plan_foreign_map(pages: u64) -> (r: Result<ForeignMapPlan, MapError>)
    ensures
        pages > u32::MAX || pages_len(pages as int) > usize::MAX ==> r == Err::<
            ForeignMapPlan,
            MapError,
        >(MapError::TooLarge),
        pages <= u32::MAX && pages_len(pages as int) <= usize::MAX ==> r == Ok::<
            ForeignMapPlan,
            MapError,
        >(ForeignMapPlan { num: pages as u32, len: pages_len(pages as int) as usize }),
{
    if pages > u32::MAX as u64 {
        return Err(MapError::TooLarge);
    }
    match mapping_len(pages) {
        Some(len) => Ok(ForeignMapPlan { num: pages as u32, len }),
        None => Err(MapError::TooLarge),
    }
}

/// The flags a resource mapping accepts: the shared and private bits only.
pub open spec fn flags_allowed(flags: i32) -> bool {
    flags & !(map_shared_value() | map_private_value()) == 0
}

/// Whether `flags` holds only the portable shared/private bits.
pub fn resource_flags_valid(flags: i32) -> (r: bool)
    ensures
        r == flags_allowed(flags),
{
    flags & !(map_shared() | map_private()) == 0
}

/// The resource-map ioctl's argument: which frames of which resource of
/// which domain, and where to map them (`addr`, 0 for none).
#[derive(Clone, Copy, Debug, PartialEq, Eq, Structural)]
pub struct PrivCmdMmapResource {
    pub dom: u16,
    pub res_type: u32,
    pub id: u32,
    pub idx: u32,
    pub num: u64,
    pub addr: u64,
}

/// A mapped resource, with what its unmapping needs.
#[derive(Clone, Copy, Debug, PartialEq, Eq, Structural)]
pub struct XenForeignMemoryResourceHandle {
    pub domid: u16,
    pub res_type: u32,
    pub id: u32,
    pub frame: u64,
    pub nr_frames: u64,
    pub addr: u64,
    pub prot: i32,
    pub flags: i32,
}

/// How to carry out a resource mapping: the range to reserve first, if any,
/// and the flags to reserve it with.
#[derive(Clone, Copy, Debug, PartialEq, Eq, Structural)]
pub struct ResourcePlan {
    pub reserve_len: Option<usize>,
    pub reserve_flags: i32,
}

/// Checks a resource mapping request and says what to reserve: a range of
/// `nr_frames` pages, shared, when the caller gave no address and asks for
/// frames; nothing otherwise. Flags beyond shared/private are refused before
/// anything is done.
pub fn plan_resource_map(nr_frames: u64, addr_hint: u64, flags: i32) -> (r: Result<
    ResourcePlan,
    MapError,
>)
    ensures
        !flags_allowed(flags) ==> r == Err::<ResourcePlan, MapError>(MapError::InvalidFlags),
        flags_allowed(flags) && (addr_hint != 0 || nr_frames == 0) ==> r == Ok::<
            ResourcePlan,
            MapError,
        >(ResourcePlan { reserve_len: None, reserve_flags: flags | map_shared_value() }),
        flags_allowed(flags) && addr_hint == 0 && nr_frames != 0 && pages_len(nr_frames as int)
            <= usize::MAX ==> r == Ok::<ResourcePlan, MapError>(
            ResourcePlan {
                reserve_len: Some(pages_len(nr_frames as int) as usize),
                reserve_flags: flags | map_shared_value(),
            },
        ),
        flags_allowed(flags) && addr_hint == 0 && nr_frames != 0 && pages_len(nr_frames as int)
            > usize::MAX ==> r == Err::<ResourcePlan, MapError>(MapError::TooLarge),
{
    if !resource_flags_valid(flags) {
        return Err(MapError::InvalidFlags);
    }
    let reserve_flags = flags | map_shared();
    if addr_hint != 0 || nr_frames == 0 {
        return Ok(ResourcePlan { reserve_len: None, reserve_flags });
    }
    match mapping_len(nr_frames) {
        Some(len) => Ok(ResourcePlan { reserve_len: Some(len), reserve_flags }),
        None => Err(MapError::TooLarge),
    }
}

impl PrivCmdMmapResource {
    /// The ioctl argument for mapping `nr_frames` frames from `frame` on of
    /// resource `id` of type `res_type` of `domid` at `addr`: the caller's
    /// address, the reserved one, or 0 to let the kernel choose.
    pub fn new(domid: u16, res_type: u32, id: u32, frame: u32, nr_frames: u64, addr: u64) -> (r:
        PrivCmdMmapResource)
        ensures
            r == (PrivCmdMmapResource { dom: domid, res_type, id, idx: frame, num: nr_frames, addr }),
    {
        PrivCmdMmapResource { dom: domid, res_type, id, idx: frame, num: nr_frames, addr }
    }

    /// The handle of a mapping the kernel accepted: the frame count and the
    /// address are taken from the argument as the kernel left it.
    pub fn into_handle(self, prot: i32, flags: i32) -> (r: XenForeignMemoryResourceHandle)
        ensures
            r == (XenForeignMemoryResourceHandle {
                domid: self.dom,
                res_type: self.res_type,
                id: self.id,
                frame: self.idx as u64,
                nr_frames: self.num,
                addr: self.addr,
                prot,
                flags,
            }),
    {
        XenForeignMemoryResourceHandle {
            domid: self.dom,
            res_type: self.res_type,
            id: self.id,
            frame: self.idx as u64,
            nr_frames: self.num,
            addr: self.addr,
            prot,
            flags,
        }
    }
}

/// After a failed resource mapping: the range to give back, which is the
/// one this mapping reserved itself, never an address the caller supplied.
pub fn release_after_failure(plan: ResourcePlan, reserved_addr: u64) -> (r: Option<(u64, usize)>)
    ensures
        match plan.reserve_len {
            Some(len) => r == Some((reserved_addr, len)),
            None => r is None,
        },
{
    match plan.reserve_len {
        Some(len) => Some((reserved_addr, len)),
        None => None,
    }
}

impl XenForeignMemoryResourceHandle {
    /// The length to unmap: exactly the length mapped.
    pub fn unmap_len(&self) -> (r: Option<usize>)
        ensures
            pages_len(self.nr_frames as int) <= usize::MAX ==> r == Some(
                pages_len(self.nr_frames as int) as usize,
            ),
            pages_len(self.nr_frames as int) > usize::MAX ==> r is None,
    {
        mapping_len(self.nr_frames)
    }
}

} // verus!
