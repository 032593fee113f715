//! A checked handle over a libdvdcss session, with the native calls left to
//! the caller.
//!
//! The library decides what crosses the native boundary and what the answer
//! means: [`DVD`] turns each operation into a description of one native call,
//! and that description turns the integer the call returned into a typed
//! result. Making the call itself is the embedding program's part.

pub mod seek;
pub mod native;
pub mod dvd;
pub mod lifecycle;

pub use crate::dvd::{CloseCall, ErrorQuery, ReadCall, ScrambledQuery, SeekCall, DVD};
pub use crate::native::{Block, BLOCK_SIZE};
pub use crate::seek::SeekOptions;
