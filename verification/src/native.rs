//! The conventions of the native boundary: the size of a block, and what the
//! integer that a native call returns means.

use vstd::prelude::*;

verus! {

/// The number of bytes in one block.
pub const BLOCK_SIZE: usize = 2048;

/// Information may only be loaded out of a DVD in 2048 byte increments.
pub type Block = [u8; 2048];

/// What the integer returned by a native seek or read means: a value that is
/// not negative is a count of blocks, a negative one marks failure and carries
/// no detail.
pub open spec fn outcome(native: i32) -> Result<u32, ()> {
    if native >= 0 {
        Ok(native as u32)
    } else {
        Err(())
    }
}

/// What the integer returned by the native scrambling query means. Only 0
/// and 1 are defined.
pub open spec fn scrambled(native: i32) -> Option<bool> {
    if native == 0 {
        Some(false)
    } else if native == 1 {
        Some(true)
    } else {
        None
    }
}

/// Turns the integer returned by a native seek or read into a typed result.
pub fn interpret(native: i32) -> (r: Result<u32, ()>)
    ensures
        r == outcome(native),
        r is Ok <==> native >= 0,
        r matches Ok(n) ==> n == native,
{
    if native >= 0 {
        Ok(native as u32)
    } else {
        Err(())
    }
}

/// A count reported for a read that the native layer answered within what
/// was asked of it never exceeds the number of slots in the buffer.
pub proof fn lemma_read_within_buffer(slots: nat, native: i32)
    requires
        slots <= i32::MAX,
        native <= slots,
    ensures
        outcome(native) matches Ok(n) ==> n <= slots,
{
}

} // verus!
