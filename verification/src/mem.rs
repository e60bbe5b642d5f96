//! Memory types of the firmware, and the bridge from a general
//! allocator to the firmware's pool.
use vstd::prelude::*;
use crate::error::{EfiStatus, UefiError};
use crate::table::{Boot, BootCall, SystemTable};

verus! {

/// The alignment that the firmware's pool gives to every block. The
/// pool offers no way to ask for more.
pub const POOL_ALIGN: usize = 8;

/// Allocate any available range of pages that satisfies the request.
pub const ANY_PAGES: u32 = 0;

/// Allocate a range whose uppermost address is at most the input.
pub const MAX_ADDRESS: u32 = 1;

/// Allocate at the given physical address.
pub const ADDRESS: u32 = 2;

/// The first value that is no allocation type.
pub const ALLOCATE_TYPE_MAX: u32 = 3;

pub const RESERVED: u32 = 0;

pub const LOADER_CODE: u32 = 1;

pub const LOADER_DATA: u32 = 2;

pub const BOOT_CODE: u32 = 3;

pub const BOOT_DATA: u32 = 4;

pub const RUNTIME_CODE: u32 = 5;

pub const RUNTIME_DATA: u32 = 6;

pub const CONVENTIONAL: u32 = 7;

pub const UNUSABLE: u32 = 8;

pub const ACPI_RECLAIM: u32 = 9;

pub const ACPI_NVS: u32 = 10;

pub const MEMORY_MAPPED_IO: u32 = 11;

pub const MEMORY_MAPPED_IO_PORTS: u32 = 12;

pub const PAL: u32 = 13;

pub const PERSISTENT: u32 = 14;

pub const UNACCEPTED: u32 = 15;

/// The first value that is no memory type.
pub const MEMORY_TYPE_MAX: u32 = 16;

/// The version of the memory descriptor's layout.
pub const MEMORY_DESCRIPTOR_VERSION: u32 = 1;

/// A physical address.
#[derive(Clone, Copy, Debug, PartialEq, Eq, Structural)]
pub struct PhysicalAddress(pub u64);

/// A virtual address.
#[derive(Clone, Copy, Debug, PartialEq, Eq, Structural)]
pub struct VirtualAddress(pub u64);

/// How pages are to be allocated.
#[derive(Clone, Copy, Debug, PartialEq, Eq, Structural)]
pub struct AllocateType(pub u32);

impl AllocateType {
    /// Whether the value is one of the allocation types.
    pub fn is_known(&self) -> (r: bool)
        ensures
            r == (self.0 < ALLOCATE_TYPE_MAX),
    {
        self.0 < ALLOCATE_TYPE_MAX
    }
}

/// What a range of memory is used for.
#[derive(Clone, Copy, Debug, PartialEq, Eq, Structural)]
pub struct MemoryType(pub u32);

impl MemoryType {
    /// Whether the value is one of the memory types.
    pub fn is_known(&self) -> (r: bool)
        ensures
            r == (self.0 < MEMORY_TYPE_MAX),
    {
        self.0 < MEMORY_TYPE_MAX
    }
}

/// Attribute bits of a range of memory.
#[derive(Clone, Copy, Debug, PartialEq, Eq, Structural)]
pub struct MemoryFlags(pub u64);

impl MemoryFlags {
    pub const UC: u64 = 0x0000000000000001;

    pub const WC: u64 = 0x0000000000000002;

    pub const WT: u64 = 0x0000000000000004;

    pub const WB: u64 = 0x0000000000000008;

    pub const UCE: u64 = 0x0000000000000010;

    pub const WP: u64 = 0x0000000000001000;

    pub const RP: u64 = 0x0000000000002000;

    pub const XP: u64 = 0x0000000000004000;

    pub const NV: u64 = 0x0000000000008000;

    pub const MORE_RELIABLE: u64 = 0x0000000000010000;

    pub const RO: u64 = 0x0000000000020000;

    pub const SP: u64 = 0x0000000000040000;

    pub const CPU_CRYPTO: u64 = 0x0000000000080000;

    pub const RUNTIME: u64 = 0x8000000000000000;

    pub const ISA_VALID: u64 = 0x4000000000000000;

    pub const ISA_MASK: u64 = 0x0FFFF00000000000;

    /// Whether every bit of `bits` is set.
    pub fn contains(&self, bits: u64) -> (r: bool)
        ensures
            r == (self.0 & bits == bits),
    {
        self.0 & bits == bits
    }
}

/// One entry of the firmware's memory map.
#[derive(Clone, Copy, Debug, PartialEq, Eq, Structural)]
pub struct MemoryDescriptor {
    pub ty: MemoryType,
    pub start: PhysicalAddress,
    pub pages: u64,
    pub attribute: MemoryFlags,
}

/// What an allocator is asked for: a size in bytes and an alignment.
#[derive(Clone, Copy, Debug, PartialEq, Eq, Structural)]
pub struct Layout {
    pub size: usize,
    pub align: usize,
}

/// What the allocator does about a request.
#[derive(Clone, Copy, Debug, PartialEq, Eq)]
pub enum AllocStep {
    /// The request fails, and the firmware is not called.
    Fail,
    /// The firmware is to be called with this.
    Call(BootCall),
}

/// An allocator over the firmware's pool. It holds nothing and locks
/// nothing: while boot services run, one processor runs one thread.
#[derive(Clone, Copy, Debug, PartialEq, Eq, Structural)]
pub struct UefiAlloc {}

/// Whether a request can be passed on: the pool can give the
/// alignment, boot services can be reached, and they offer the
/// operation.
pub open spec fn alloc_step(layout: Layout, table: Option<&SystemTable<Boot>>) -> AllocStep {
    if layout.align > POOL_ALIGN {
        AllocStep::Fail
    } else {
        match table {
            None => AllocStep::Fail,
            Some(t) => match t.boot_spec().allocate_pool_spec(MemoryType(LOADER_DATA), layout.size) {
                Ok(call) => AllocStep::Call(call),
                Err(_) => AllocStep::Fail,
            },
        }
    }
}

/// What freeing a block comes to: no call for a null block or when
/// boot services cannot be reached or do not offer the operation.
pub open spec fn dealloc_step(block: usize, table: Option<&SystemTable<Boot>>) -> Option<BootCall> {
    if block == 0 {
        None
    } else {
        match table {
            None => None,
            Some(t) => match t.boot_spec().free_pool_spec(block) {
                Ok(call) => Some(call),
                Err(_) => None,
            },
        }
    }
}

/// A request for more alignment than the pool gives fails whatever
/// the table is, and every request fails while no boot table can be
/// reached. Neither makes a call.
pub proof fn lemma_no_call(layout: Layout, table: Option<&SystemTable<Boot>>)
    ensures
        layout.align > POOL_ALIGN ==> alloc_step(layout, table) == AllocStep::Fail,
        alloc_step(layout, None) == AllocStep::Fail,
        dealloc_step(0, table) is None,
{
}

impl UefiAlloc {
    pub fn new() -> (r: Self)
        ensures
            r == (UefiAlloc {  }),
    {
        UefiAlloc {  }
    }

    /// Decides on a request for a block. `table` is the boot table as
    /// it can be reached now, if it can. A request for more alignment
    /// than the pool gives fails, whatever the table; so does every
    /// request while no boot table can be reached. Otherwise the pool
    /// is asked for `layout.size` bytes of loader data.
    pub fn allocate(&self, layout: Layout, table: Option<&SystemTable<Boot>>) -> (r: AllocStep)
        ensures
            r == alloc_step(layout, table),
    {
        if layout.align > POOL_ALIGN {
            return AllocStep::Fail;
        }
        match table {
            None => AllocStep::Fail,
            Some(t) => match t.boot().allocate_pool(MemoryType(LOADER_DATA), layout.size) {
                Ok(call) => AllocStep::Call(call),
                Err(_) => AllocStep::Fail,
            },
        }
    }

    /// The block that the caller of `allocate` gets once the firmware has
    /// answered: the address it gave, or null where it failed.
    pub fn allocate_done(&self, reply: Result<usize, UefiError>) -> (r: usize)
        ensures
            r == match reply {
                Ok(block) => block,
                Err(_) => 0usize,
            },
    {
        match reply {
            Ok(block) => block,
            Err(_) => 0,
        }
    }

    /// Decides on the return of a block. Nothing is done for a null
    /// block, nor when no boot table can be reached.
    pub fn deallocate(&self, block: usize, layout: Layout, table: Option<&SystemTable<Boot>>) -> (r:
        Option<BootCall>)
        ensures
            r == dealloc_step(block, table),
    {
        if block == 0 {
            return None;
        }
        match table {
            None => None,
            Some(t) => match t.boot().free_pool(block) {
                Ok(call) => Some(call),
                Err(_) => None,
            },
        }
    }

    /// What is left to do once the firmware has answered a free: the
    /// error to write to the log, if there is one. It goes nowhere
    /// else.
    pub fn deallocate_done(&self, status: EfiStatus) -> (r: Option<UefiError>)
        ensures
            r == match status.outcome() {
                Ok(_) => None,
                Err(e) => Some(e),
            },
    {
        match status.into_result() {
            Ok(_) => None,
            Err(e) => Some(e),
        }
    }
}

} // verus!
