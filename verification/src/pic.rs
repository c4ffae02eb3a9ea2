//! The vector offsets of the two chained legacy interrupt controllers.
//!
//! Each controller raises eight consecutive vectors from its offset on.
//! The offsets are remapped at boot so that device interrupts do not
//! collide with the vectors that the CPU reserves for exceptions.

use vstd::prelude::*;

verus! {

/// Number of vectors that the CPU reserves for exceptions.
pub const RESERVED_VECTORS: u8 = 32;

/// Number of interrupt lines of one controller.
pub const LINES_PER_PIC: u8 = 8;

/// Vector offset of the primary controller.
pub const PIC_1_OFFSET: u8 = 32;

/// Vector offset of the secondary controller.
pub const PIC_2_OFFSET: u8 = PIC_1_OFFSET + 8;

/// The vector offsets of the primary and the secondary controller.
#[derive(Clone, Copy, Debug, PartialEq, Eq)]
pub struct PicPair {
    /// First vector of the primary controller.
    pub primary_offset: u8,
    /// First vector of the secondary controller.
    pub secondary_offset: u8,
}

impl PicPair {
    /// The offsets are usable: both lie above the reserved vectors, the
    /// secondary controller follows the primary directly, and the bound
    /// past the last vector still fits in a byte.
    pub open spec fn wf(self) -> bool {
        &&& self.primary_offset >= RESERVED_VECTORS
        &&& self.secondary_offset == self.primary_offset + LINES_PER_PIC
        &&& self.secondary_offset + LINES_PER_PIC <= u8::MAX
    }

    /// Whether the primary controller raises `vector`.
    pub open spec fn primary_handles(self, vector: u8) -> bool {
        self.primary_offset <= vector < self.primary_offset + LINES_PER_PIC
    }

    /// Whether the secondary controller raises `vector`.
    pub open spec fn secondary_handles(self, vector: u8) -> bool {
        self.secondary_offset <= vector < self.secondary_offset + LINES_PER_PIC
    }

    /// Whether one of the two controllers raises `vector`.
    pub open spec fn handles(self, vector: u8) -> bool {
        self.primary_handles(vector) || self.secondary_handles(vector)
    }

    /// A pair with the given offsets, if they are usable.
    pub fn new(primary_offset: u8, secondary_offset: u8) -> (r: Option<PicPair>)
        ensures
            match r {
                Some(pics) => pics.wf() && pics.primary_offset == primary_offset
                    && pics.secondary_offset == secondary_offset,
                None => !(PicPair { primary_offset, secondary_offset }).wf(),
            },
    {
        if primary_offset >= RESERVED_VECTORS && secondary_offset <= u8::MAX - LINES_PER_PIC
            && secondary_offset >= LINES_PER_PIC && secondary_offset - LINES_PER_PIC
            == primary_offset {
            Some(PicPair { primary_offset, secondary_offset })
        } else {
            None
        }
    }

    /// The pair whose secondary controller follows the primary directly,
    /// if such offsets are usable.
    pub fn contiguous(primary_offset: u8) -> (r: Option<PicPair>)
        ensures
            match r {
                Some(pics) => pics.wf() && pics.primary_offset == primary_offset
                    && pics.secondary_offset == primary_offset + LINES_PER_PIC,
                None => primary_offset < RESERVED_VECTORS || primary_offset + 2 * LINES_PER_PIC
                    > u8::MAX,
            },
    {
        if primary_offset <= u8::MAX - 2 * LINES_PER_PIC {
            PicPair::new(primary_offset, primary_offset + LINES_PER_PIC)
        } else {
            None
        }
    }

    /// The pair this kernel programs: vectors 32 to 39 for the primary
    /// controller and 40 to 47 for the secondary.
    pub fn remapped() -> (pics: PicPair)
        ensures
            pics.wf(),
            pics.primary_offset == PIC_1_OFFSET,
            pics.secondary_offset == PIC_2_OFFSET,
    {
        PicPair { primary_offset: PIC_1_OFFSET, secondary_offset: PIC_2_OFFSET }
    }

    /// Whether one of the two controllers raises `vector`.
    pub fn handles_interrupt(&self, vector: u8) -> (b: bool)
        ensures
            b == self.handles(vector),
    {
        let lines: u16 = LINES_PER_PIC as u16;
        let vector: u16 = vector as u16;
        let primary: u16 = self.primary_offset as u16;
        let secondary: u16 = self.secondary_offset as u16;
        (primary <= vector && vector < primary + lines) || (secondary <= vector && vector
            < secondary + lines)
    }
}

} // verus!
