//! How a draw call is performed: depth testing and backface culling.
//! The renderer backend turns these into its own parameter structures.

use vstd::prelude::*;

verus! {

#[derive(Copy, Clone, Debug, PartialEq, Eq, Structural)]
pub enum DepthTestMethod {
    IfLess,
}

#[derive(Copy, Clone, Debug, PartialEq, Eq, Structural)]
pub enum CullingMethod {
    Clockwise,
    CounterClockwise,
}

#[derive(Copy, Clone, Debug, PartialEq, Eq, Structural)]
pub enum DrawMethod {
    Both(DepthTestMethod, CullingMethod),
    Depth(DepthTestMethod),
    Culling(CullingMethod),
    Neither,
}

} // verus!
