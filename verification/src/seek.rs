use vstd::prelude::*;

verus! {

/// Describes whether to recalculate keys when the read position moves.
#[derive(Clone, Copy, Debug, PartialEq, Eq)]
pub enum SeekOptions {
    /// Keys are left as they are.
    NoFlags,
    /// The native library checks the title key at its own discretion and may
    /// recalculate it.
    Mpeg,
    /// The title key is checked and recalculated.
    Key,
}

impl SeekOptions {
    /// The flag word that stands for this mode at the native boundary.
    pub open spec fn spec_bits(self) -> i32 {
        match self {
            SeekOptions::NoFlags => 0i32,
            SeekOptions::Mpeg => 1i32,
            SeekOptions::Key => 2i32,
        }
    }

    /// The flag word that stands for this mode at the native boundary.
    #[verifier::when_used_as_spec(spec_bits)]
    pub fn bits(self) -> (flags: i32)
        ensures
            flags == self.spec_bits(),
            flags == 0 || flags == 1 || flags == 2,
    {
        match self {
            SeekOptions::NoFlags => 0i32,
            SeekOptions::Mpeg => 1i32,
            SeekOptions::Key => 2i32,
        }
    }

    /// The mode that a flag word stands for, if it stands for one.
    pub fn from_bits(flags: i32) -> (mode: Option<SeekOptions>)
        ensures
            match mode {
                Some(m) => m.spec_bits() == flags,
                None => flags != 0 && flags != 1 && flags != 2,
            },
    {
        if flags == 0 {
            Some(SeekOptions::NoFlags)
        } else if flags == 1 {
            Some(SeekOptions::Mpeg)
        } else if flags == 2 {
            Some(SeekOptions::Key)
        } else {
            None
        }
    }

    /// Two modes with the same flag word are the same mode, and no mode has a
    /// flag word outside 0, 1 and 2.
    pub proof fn lemma_bits_closed(a: SeekOptions, b: SeekOptions)
        ensures
            a.spec_bits() == 0 || a.spec_bits() == 1 || a.spec_bits() == 2,
            a.spec_bits() == b.spec_bits() ==> a == b,
    {
    }
}

} // verus!
