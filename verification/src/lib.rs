//! Peripheral I/O for a game console: decoding of controller and accessory
//! exchanges, and scheduling of a pool of audio buffers.
//!
//! The library performs no hardware access. Every operation that involves the
//! hardware driver is split at the driver: the caller performs the transfer
//! and hands the raw reply to the library, which classifies and decodes it.

use vstd::prelude::*;

pub mod audio;
pub mod console;
pub mod controller;
pub mod mempak;
pub mod pad;

verus! {

/// Adds two sizes whose sum fits a `usize`.
pub fn add(left: usize, right: usize) -> (sum: usize)
    requires
        left + right <= usize::MAX,
    ensures
        sum == left + right,
{
    left + right
}

} // verus!
