use vstd::prelude::*;

verus! {

/// A channel index outside `0..=7`.
#[derive(Debug, Clone, Copy, PartialEq, Eq, Structural)]
pub struct InvalidChannel(pub u32);

/// Failure to prepare a text message for sending.
#[derive(Debug, Clone, Copy, PartialEq, Eq, Structural)]
pub enum SendError {
    /// The message is longer than the radio accepts; holds its length in bytes.
    TooBig(usize),
}

} // verus!
