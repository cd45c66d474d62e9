//! Slots: screen space that shows a presenter.
use vstd::prelude::*;
use crate::error::MmeResult;
use crate::presenter::Presenter;

verus! {

/// The common behaviour of every kind of slot.
pub trait SlotTrait {
    /// Shows `presenter` in the slot.
    fn load(&mut self, presenter: Presenter) -> MmeResult<()>;
}

/// A point of screen space: column, row and depth.
#[derive(Debug, Clone, Copy, PartialEq, Eq)]
pub struct Position {
    pub x: u32,
    pub y: u32,
    pub z: u32,
}

} // verus!
