//! The two simplest components: a position and the kinds there are.

use vstd::prelude::*;

verus! {

#[derive(Debug, Clone, Copy, PartialEq, Eq, Structural)]
pub enum Components {
    CPos,
    CRect,
}

#[derive(Debug, Clone, Copy, PartialEq, Eq, Structural)]
pub struct CPos {
    pub x: u32,
    pub y: u32,
}

} // verus!
