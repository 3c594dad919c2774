//! What the answers of the firmware decode to.

use vstd::prelude::*;

verus! {

/// Width and height of a frame buffer, in pixels.
#[derive(Debug, Clone, Copy)]
pub struct Size {
    pub width: u32,
    pub height: u32,
}

/// A region of memory: the address of its first byte and its size in bytes.
#[derive(Debug, Clone, Copy)]
pub struct Ptr {
    pub ptr: usize,
    pub bytes: usize,
}

/// Handle on a block of memory that the firmware allocated.
#[derive(Debug, Clone, Copy)]
pub struct Handle(pub u32);

/// The firmware carried the request out and reports that it failed; `status`
/// is the word it answered with.
#[derive(Debug, Clone, Copy)]
pub struct OperationFailed {
    pub status: u32,
}

} // verus!
