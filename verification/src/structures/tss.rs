//! The task state segment, and the validation of an I/O permission bitmap
//! that is to be attached to it.

use crate::addr::VirtAddr;
use vstd::prelude::*;

verus! {

/// Longest I/O permission bitmap in bytes: one bit for each of the 65536
/// ports, and the guard byte behind them.
pub const MAX_IOMAP_LEN: usize = 8193;

/// Largest offset from the start of the task state segment at which an I/O
/// permission bitmap may begin.
pub const MAX_IOMAP_BASE: usize = 0xDFFF;

/// Value of the guard byte that ends an I/O permission bitmap.
pub const IOMAP_TERMINATOR: u8 = 0xFF;

/// In 64-bit mode the task state segment holds no task state. The processor
/// reads from it the stack to switch to when an interrupt or a call gate
/// changes the privilege level, and the place of the I/O permission bitmap.
///
/// The fields are those of the hardware format, in its order, the reserved
/// ones included. Every field can be read and written directly, and no write
/// is checked. Other crates cannot write the structure out field by field:
/// for them `new` is the only constructor.
///
/// This type fixes no byte layout. Code that hands the structure to the
/// processor copies it, field by field, into a packed record of 104 bytes.
#[derive(Debug, Clone, Copy)]
#[non_exhaustive]
pub struct TaskStateSegment {
    /// Reserved by the hardware format; zero.
    pub reserved_1: u32,
    /// The stack pointers for privilege levels 0 to 2.
    pub privilege_stack_table: [VirtAddr; 3],
    /// Reserved by the hardware format; zero.
    pub reserved_2: u64,
    /// The stack pointers that interrupt descriptors select by the numbers
    /// 1 to 7. The null address marks a slot as unused.
    pub interrupt_stack_table: [VirtAddr; 7],
    /// Reserved by the hardware format; zero.
    pub reserved_3: u64,
    /// Reserved by the hardware format; zero.
    pub reserved_4: u16,
    /// Offset in bytes from the start of this structure to the I/O
    /// permission bitmap; zero while there is none. It must not exceed
    /// `MAX_IOMAP_BASE`.
    pub iomap_base: u16,
}

impl TaskStateSegment {
    /// Whether every reserved field is zero.
    pub open spec fn reserved_zeroed(&self) -> bool {
        &&& self.reserved_1 == 0
        &&& self.reserved_2 == 0
        &&& self.reserved_3 == 0
        &&& self.reserved_4 == 0
    }

    /// What the processor asks of the structure itself: the reserved fields
    /// are zero and the bitmap offset is within its bound.
    pub open spec fn well_formed(&self) -> bool {
        &&& self.reserved_zeroed()
        &&& self.iomap_base <= MAX_IOMAP_BASE
    }

    /// A task state segment with every stack pointer null and no I/O
    /// permission bitmap.
    #[inline]
    pub fn new() -> (tss: TaskStateSegment)
        ensures
            forall|level: int| 0 <= level < 3 ==> tss.privilege_stack_table[level]@ == 0,
            forall|slot: int| 0 <= slot < 7 ==> tss.interrupt_stack_table[slot]@ == 0,
            tss.iomap_base == 0,
            tss.well_formed(),
    {
        TaskStateSegment {
            privilege_stack_table: [VirtAddr::zero();3],
            interrupt_stack_table: [VirtAddr::zero();7],
            iomap_base: 0,
            reserved_1: 0,
            reserved_2: 0,
            reserved_3: 0,
            reserved_4: 0,
        }
    }
}

/// Why an I/O permission bitmap cannot be attached to a task state segment.
#[derive(Debug, Copy, Clone, PartialEq, Eq, Structural)]
pub enum InvalidIoMap {
    /// The bitmap begins more than `MAX_IOMAP_BASE` bytes behind the start of
    /// the task state segment.
    TooFarFromTss {
        /// The distance of the bitmap from the start of the task state
        /// segment.
        distance: usize,
    },
    /// The final byte of the bitmap is not `IOMAP_TERMINATOR`.
    InvalidTerminatingByte {
        /// The byte found at the end of the bitmap.
        byte: u8,
    },
    /// The bitmap is longer than `MAX_IOMAP_LEN` bytes.
    TooLong {
        /// The length of the bitmap.
        len: usize,
    },
    /// The `iomap_base` of the task state segment is not the place of the
    /// bitmap.
    InvalidBase {
        /// The `iomap_base` that the place of the bitmap calls for.
        expected: u16,
        /// The `iomap_base` that the task state segment holds.
        got: u16,
    },
}

/// The length rule: a bitmap of `len` bytes is no longer than the processor
/// can read.
pub open spec fn length_in_bounds(len: usize) -> bool {
    len <= MAX_IOMAP_LEN
}

/// The placement rule: a bitmap that begins `distance` bytes behind the
/// start of the task state segment is within reach of a bitmap offset.
pub open spec fn placement_in_bounds(distance: usize) -> bool {
    distance <= MAX_IOMAP_BASE
}

/// The guard rule: the final byte of the bitmap denies access.
pub open spec fn is_terminated(terminating_byte: u8) -> bool {
    terminating_byte == IOMAP_TERMINATOR
}

/// The consistency rule: the stored bitmap offset is where the bitmap is.
pub open spec fn base_matches(iomap_base: u16, distance: usize) -> bool {
    iomap_base == distance
}

/// Whether a bitmap of this geometry may be attached: all four rules hold.
pub open spec fn iomap_is_valid(
    len: usize,
    distance: usize,
    terminating_byte: u8,
    iomap_base: u16,
) -> bool {
    &&& length_in_bounds(len)
    &&& placement_in_bounds(distance)
    &&& is_terminated(terminating_byte)
    &&& base_matches(iomap_base, distance)
}

/// Decides whether an I/O permission bitmap may be attached to a task state
/// segment, from the geometry of the bitmap alone: its length in bytes, the
/// distance in bytes from the start of the task state segment to its first
/// byte, the value of its final byte, and the `iomap_base` that the task
/// state segment holds.
///
/// The rules are tried in the order length, placement, guard byte,
/// consistency. The first one that is broken is reported, with the value
/// that broke it, and nothing is said of the rules behind it.
pub fn validate_iomap(
    len: usize,
    distance: usize,
    terminating_byte: u8,
    iomap_base: u16,
) -> (result: Result<(), InvalidIoMap>)
    ensures
        // A geometry that keeps all four rules is accepted.
        iomap_is_valid(len, distance, terminating_byte, iomap_base) ==> result === Ok(()),
        // A broken rule is reported where every rule before it is kept.
        !length_in_bounds(len) ==> result === Err(InvalidIoMap::TooLong { len }),
        length_in_bounds(len) && !placement_in_bounds(distance) ==> result === Err(
            InvalidIoMap::TooFarFromTss { distance },
        ),
        length_in_bounds(len) && placement_in_bounds(distance) && !is_terminated(terminating_byte)
            ==> result === Err(InvalidIoMap::InvalidTerminatingByte { byte: terminating_byte }),
        length_in_bounds(len) && placement_in_bounds(distance) && is_terminated(terminating_byte)
            && !base_matches(iomap_base, distance) ==> result === Err(
            InvalidIoMap::InvalidBase { expected: distance as u16, got: iomap_base },
        ),
        // A bitmap that is both too long and too far away is reported as too
        // long, never as too far away: the rule tried first wins.
        !length_in_bounds(len) && !placement_in_bounds(distance) ==> result matches Err(
            InvalidIoMap::TooLong { .. },
        ),
        // Conversely, every outcome tells which rules hold and which one is
        // broken, and carries the value that was passed in.
        match result {
            Ok(()) => iomap_is_valid(len, distance, terminating_byte, iomap_base),
            Err(InvalidIoMap::TooLong { len: reported }) => {
                &&& reported == len
                &&& !length_in_bounds(len)
            },
            Err(InvalidIoMap::TooFarFromTss { distance: reported }) => {
                &&& reported == distance
                &&& length_in_bounds(len)
                &&& !placement_in_bounds(distance)
            },
            Err(InvalidIoMap::InvalidTerminatingByte { byte }) => {
                &&& byte == terminating_byte
                &&& length_in_bounds(len)
                &&& placement_in_bounds(distance)
                &&& !is_terminated(terminating_byte)
            },
            Err(InvalidIoMap::InvalidBase { expected, got }) => {
                &&& expected == distance
                &&& got == iomap_base
                &&& length_in_bounds(len)
                &&& placement_in_bounds(distance)
                &&& is_terminated(terminating_byte)
                &&& !base_matches(iomap_base, distance)
            },
        },
        // An accepted bitmap leaves the stored offset within its bound.
        result is Ok ==> iomap_base <= MAX_IOMAP_BASE,
{
    if len > MAX_IOMAP_LEN {
        return Err(InvalidIoMap::TooLong { len });
    }
    if distance > MAX_IOMAP_BASE {
        return Err(InvalidIoMap::TooFarFromTss { distance });
    }
    if terminating_byte != IOMAP_TERMINATOR {
        return Err(InvalidIoMap::InvalidTerminatingByte { byte: terminating_byte });
    }
    let expected: u16 = distance as u16;
    if iomap_base != expected {
        return Err(InvalidIoMap::InvalidBase { expected, got: iomap_base });
    }
    Ok(())
}

} // verus!
