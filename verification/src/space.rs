//! Spaces: screen real estate that holds widgets.
use vstd::prelude::*;

verus! {

/// A point of a space: column, row and depth.
#[derive(Debug, Clone, Copy, PartialEq, Eq)]
pub struct Position {
    pub x: u32,
    pub y: u32,
    pub z: u32,
}

} // verus!
