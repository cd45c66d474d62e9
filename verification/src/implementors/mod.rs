//! The presentation back ends.
pub mod html;
