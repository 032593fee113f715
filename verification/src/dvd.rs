//! The handle: one open session, and the native call that each operation on
//! it makes.
//!
//! A description of a call borrows the instance it was made from, so none is
//! left once `DVD::close` has consumed the instance. Only the methods of
//! `DVD` make descriptions.

use vstd::prelude::*;
use crate::lifecycle::{Operation, State};
use crate::native::{interpret, outcome, scrambled, Block};
use crate::seek::SeekOptions;

verus! {

/// An instance of dvdcss. Represents a DVD which has been loaded into a drive.
///
/// It holds the handle of one open native session, which is never null. The
/// value cannot be copied, and `DVD::close` consumes it.
#[derive(Debug)]
pub struct DVD {
    handle: usize,
}

/// One native seek, with its arguments as they cross the boundary.
#[derive(Debug)]
pub struct SeekCall<'a> {
    dvd: &'a DVD,
    blocks: i32,
    flags: i32,
}

/// One native read, with its arguments as they cross the boundary. The
/// buffer itself stays with the caller.
#[derive(Debug)]
pub struct ReadCall<'a> {
    dvd: &'a DVD,
    blocks: i32,
    flags: i32,
}

/// One native scrambling query.
#[derive(Debug)]
pub struct ScrambledQuery<'a> {
    dvd: &'a DVD,
}

/// One native query for the text of the latest error.
#[derive(Debug)]
pub struct ErrorQuery<'a> {
    dvd: &'a DVD,
}

/// The native close of a session. Only `DVD::close` makes one, and it has no
/// copy.
#[derive(Debug)]
pub struct CloseCall {
    handle: usize,
}

impl DVD {
    #[verifier::type_invariant]
    spec fn inv(self) -> bool {
        self.handle != 0
    }

    /// The handle of the session that this instance owns.
    pub closed spec fn handle(self) -> usize {
        self.handle
    }

    /// Takes ownership of the session that a native open returned.
    ///
    /// Returns `None` if the handle is null: there is no DVD in the drive, or
    /// it could not be opened, and there is nothing to close.
    pub fn new(handle: usize) -> (r: Option<DVD>)
        ensures
            r is Some <==> handle != 0,
            r matches Some(dvd) ==> dvd.handle() == handle,
            r is Some <==> State::Uninitialized.after(Operation::Construct { handle })
                == State::Open,
    {
        if handle != 0 {
            Some(DVD { handle })
        } else {
            None
        }
    }

    /// The native call that sets the absolute position of the needle of the
    /// DVD.
    ///
    /// The value `blocks` determines in intervals of 2048 (the size of a block)
    /// the absolute location to which the needle should be moved. The native
    /// offset is a signed word, so `blocks` must fit in one. The `flags`
    /// behavior is documented in `SeekOptions`.
    pub fn seek(&self, blocks: u32, flags: SeekOptions) -> (call: SeekCall<'_>)
        requires
            blocks <= i32::MAX,
        ensures
            call.handle() == self.handle(),
            call.blocks() == blocks,
            call.flags() == flags.spec_bits(),
    {
        SeekCall { dvd: self, blocks: blocks as i32, flags: flags.bits() }
    }

    /// The native call that `seek` builds, or `None` where `blocks` does not
    /// fit in the signed word of the native offset: no call is to be made
    /// then.
    pub fn checked_seek(&self, blocks: u32, flags: SeekOptions) -> (r: Option<SeekCall<'_>>)
        ensures
            r is Some <==> blocks <= i32::MAX,
            r matches Some(call) ==> call.handle() == self.handle() && call.blocks() == blocks
                && call.flags() == flags.spec_bits(),
    {
        if blocks <= 0x7fff_ffffu32 {
            Some(self.seek(blocks, flags))
        } else {
            None
        }
    }

    /// The native call that fills each `Block` of `buffer` with the raw
    /// contents of the DVD from the current position of the needle, which is
    /// modifiable with the `seek` function.
    ///
    /// The call asks for exactly as many blocks as the buffer has slots. The
    /// native count is a signed word, so the number of slots must fit in one.
    /// The `decrypt` boolean should be enabled when the DVD is encrypted: it
    /// crosses the boundary as 1, and as 0 when disabled.
    pub fn read(&self, buffer: &[Block], decrypt: bool) -> (call: ReadCall<'_>)
        requires
            buffer@.len() <= i32::MAX,
        ensures
            call.handle() == self.handle(),
            call.blocks() == buffer@.len(),
            call.flags() == (if decrypt { 1i32 } else { 0i32 }),
    {
        let flags: i32 = if decrypt { 1 } else { 0 };
        ReadCall { dvd: self, blocks: buffer.len() as i32, flags }
    }

    /// The native call that `read` builds, or `None` where the buffer has
    /// more slots than fit in the signed word of the native count: no call is
    /// to be made then.
    pub fn checked_read(&self, buffer: &[Block], decrypt: bool) -> (r: Option<ReadCall<'_>>)
        ensures
            r is Some <==> buffer@.len() <= i32::MAX,
            r matches Some(call) ==> call.handle() == self.handle() && call.blocks()
                == buffer@.len() && call.flags() == (if decrypt { 1i32 } else { 0i32 }),
    {
        if buffer.len() <= 0x7fff_ffffusize {
            Some(self.read(buffer, decrypt))
        } else {
            None
        }
    }

    /// The native query for whether the DVD being read is scrambled.
    pub fn is_scrambled(&self) -> (query: ScrambledQuery<'_>)
        ensures
            query.handle() == self.handle(),
    {
        ScrambledQuery { dvd: self }
    }

    /// The native query for text describing the latest error encountered by
    /// dvdcss.
    pub fn latest_error(&self) -> (query: ErrorQuery<'_>)
        ensures
            query.handle() == self.handle(),
    {
        ErrorQuery { dvd: self }
    }

    /// Ends the life of the instance and hands out the native close of its
    /// session.
    pub fn close(self) -> (call: CloseCall)
        ensures
            call.handle() == self.handle(),
    {
        proof {
            use_type_invariant(&self);
        }
        CloseCall { handle: self.handle }
    }
}

impl<'a> SeekCall<'a> {
    #[verifier::type_invariant]
    spec fn inv(self) -> bool {
        0 <= self.blocks && (self.flags == 0 || self.flags == 1 || self.flags == 2)
    }

    /// The session to reposition.
    pub closed spec fn spec_handle(&self) -> usize {
        self.dvd.handle()
    }

    /// The absolute block offset to move to.
    pub closed spec fn spec_blocks(&self) -> i32 {
        self.blocks
    }

    /// The flag word of the seek mode.
    pub closed spec fn spec_flags(&self) -> i32 {
        self.flags
    }

    /// The session to reposition. It is never null.
    #[verifier::when_used_as_spec(spec_handle)]
    pub fn handle(&self) -> (h: usize)
        ensures
            h == self.spec_handle(),
            h != 0,
    {
        proof {
            use_type_invariant(self.dvd);
        }
        self.dvd.handle
    }

    /// The absolute block offset to move to. It is never negative.
    #[verifier::when_used_as_spec(spec_blocks)]
    pub fn blocks(&self) -> (n: i32)
        ensures
            n == self.spec_blocks(),
            n >= 0,
    {
        proof {
            use_type_invariant(self);
        }
        self.blocks
    }

    /// The flag word of the seek mode: 0, 1 or 2.
    #[verifier::when_used_as_spec(spec_flags)]
    pub fn flags(&self) -> (f: i32)
        ensures
            f == self.spec_flags(),
            f == 0 || f == 1 || f == 2,
    {
        proof {
            use_type_invariant(self);
        }
        self.flags
    }

    /// The result of the seek, given what the native call returned: the
    /// offset reached, in blocks, or the failure marker.
    pub fn complete(&self, native: i32) -> (r: Result<u32, ()>)
        ensures
            r == outcome(native),
    {
        interpret(native)
    }
}

impl<'a> ReadCall<'a> {
    #[verifier::type_invariant]
    spec fn inv(self) -> bool {
        0 <= self.blocks && (self.flags == 0 || self.flags == 1)
    }

    /// The session to read from.
    pub closed spec fn spec_handle(&self) -> usize {
        self.dvd.handle()
    }

    /// The number of blocks asked for.
    pub closed spec fn spec_blocks(&self) -> i32 {
        self.blocks
    }

    /// 1 to have the blocks decrypted, 0 to have them raw.
    pub closed spec fn spec_flags(&self) -> i32 {
        self.flags
    }

    /// The session to read from. It is never null.
    #[verifier::when_used_as_spec(spec_handle)]
    pub fn handle(&self) -> (h: usize)
        ensures
            h == self.spec_handle(),
            h != 0,
    {
        proof {
            use_type_invariant(self.dvd);
        }
        self.dvd.handle
    }

    /// The number of blocks asked for. It is never negative.
    #[verifier::when_used_as_spec(spec_blocks)]
    pub fn blocks(&self) -> (n: i32)
        ensures
            n == self.spec_blocks(),
            n >= 0,
    {
        proof {
            use_type_invariant(self);
        }
        self.blocks
    }

    /// 1 to have the blocks decrypted, 0 to have them raw.
    #[verifier::when_used_as_spec(spec_flags)]
    pub fn flags(&self) -> (f: i32)
        ensures
            f == self.spec_flags(),
            f == 0 || f == 1,
    {
        proof {
            use_type_invariant(self);
        }
        self.flags
    }

    /// The result of the read, given what the native call returned: the
    /// number of blocks filled, or the failure marker. A count below the
    /// number asked for, zero included, is a short read and no failure.
    pub fn complete(&self, native: i32) -> (r: Result<u32, ()>)
        ensures
            r == outcome(native),
            native <= self.blocks() ==> (r matches Ok(n) ==> n <= self.blocks()),
    {
        interpret(native)
    }
}

impl<'a> ScrambledQuery<'a> {
    /// The session asked.
    pub closed spec fn spec_handle(&self) -> usize {
        self.dvd.handle()
    }

    /// The session asked. It is never null.
    #[verifier::when_used_as_spec(spec_handle)]
    pub fn handle(&self) -> (h: usize)
        ensures
            h == self.spec_handle(),
            h != 0,
    {
        proof {
            use_type_invariant(self.dvd);
        }
        self.dvd.handle
    }

    /// Whether the disc is scrambled, given an answer that the native
    /// protocol defines.
    pub fn complete(&self, native: i32) -> (r: bool)
        requires
            scrambled(native) is Some,
        ensures
            scrambled(native) == Some(r),
    {
        native == 1
    }

    /// Whether the disc is scrambled, or `None` where the answer is one that
    /// the native protocol does not define.
    pub fn check(&self, native: i32) -> (r: Option<bool>)
        ensures
            r == scrambled(native),
    {
        if native == 0 || native == 1 {
            Some(self.complete(native))
        } else {
            None
        }
    }
}

impl<'a> ErrorQuery<'a> {
    /// The session asked.
    pub closed spec fn spec_handle(&self) -> usize {
        self.dvd.handle()
    }

    /// The session asked. It is never null.
    #[verifier::when_used_as_spec(spec_handle)]
    pub fn handle(&self) -> (h: usize)
        ensures
            h == self.spec_handle(),
            h != 0,
    {
        proof {
            use_type_invariant(self.dvd);
        }
        self.dvd.handle
    }
}

impl CloseCall {
    #[verifier::type_invariant]
    spec fn inv(self) -> bool {
        self.handle != 0
    }

    /// The session to release.
    pub closed spec fn spec_handle(&self) -> usize {
        self.handle
    }

    /// The session to release. It is never null.
    #[verifier::when_used_as_spec(spec_handle)]
    pub fn handle(&self) -> (h: usize)
        ensures
            h == self.spec_handle(),
            h != 0,
    {
        proof {
            use_type_invariant(self);
        }
        self.handle
    }

    /// Whether the session was released, given the status that the native
    /// close returned: only 0 reports a release.
    pub fn complete(self, status: i32) -> (released: bool)
        ensures
            released == (status == 0),
    {
        status == 0
    }
}

} // verus!
