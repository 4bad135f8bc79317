//! A read-only object-file view of Portable Executable (PE/PE32+) images.
//!
//! The raw headers come from the `goblin` parser; this crate projects them as
//! segments, sections and symbols with contracts over plain models.
use vstd::prelude::*;

pub mod headers;
pub mod object;
pub mod pe;

verus! {

} // verus!
