use crate::constants::{INPUT_BUF_SIZE, OUTPUT_BUF_SIZE};
use vstd::prelude::*;

verus! {

/// A fixed-size outgoing buffer and the number of bytes of it in use.
#[derive(Clone, Copy)]
pub struct OutputPacket(pub [u8; OUTPUT_BUF_SIZE], pub usize);

impl OutputPacket {
    /// A zeroed buffer with nothing in use.
    pub fn new() -> (r: Self)
        ensures
            r.1 == 0,
            r.0@.len() == OUTPUT_BUF_SIZE,
            forall|i: int| 0 <= i < r.0@.len() ==> r.0@[i] == 0,
    {
        OutputPacket([0u8; OUTPUT_BUF_SIZE], 0)
    }
}

/// A fixed-size incoming buffer and the number of bytes received into it.
#[derive(Clone, Copy)]
pub struct InputPacket(pub [u8; INPUT_BUF_SIZE], pub usize);

impl InputPacket {
    /// A zeroed buffer with nothing received.
    pub fn new() -> (r: Self)
        ensures
            r.1 == 0,
            r.0@.len() == INPUT_BUF_SIZE,
            forall|i: int| 0 <= i < r.0@.len() ==> r.0@[i] == 0,
    {
        InputPacket([0u8; INPUT_BUF_SIZE], 0)
    }
}

} // verus!
