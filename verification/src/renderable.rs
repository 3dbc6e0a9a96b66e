//! Renderable components: one staged-changes component per renderable kind
//! (solid-color, vertex-color, textured) and the tagged wrapper that holds
//! exactly one of them per entity.
//!
//! Each component owns a fixed set of stable resource ids and a write
//! buffer of pending property updates with one dirty bit. Setters only
//! touch the buffer; `render` commits every pending property to the
//! renderer-owned tables or the synchronized uniform store exactly once,
//! then clears the buffer.

pub mod solid_color;
pub mod texture2d;
pub mod vertex_color;
pub mod wrapper;

use vstd::prelude::*;

use crate::math::Mat4;

verus! {

/// The matrix halves of an optional staged (matrix, inverse) pair.
pub open spec fn mat_of(p: Option<(Mat4, Mat4)>) -> Option<Mat4> {
    match p {
        Some(x) => Some(x.0),
        None => None,
    }
}

/// The inverse halves of an optional staged (matrix, inverse) pair.
pub open spec fn inv_of(p: Option<(Mat4, Mat4)>) -> Option<Mat4> {
    match p {
        Some(x) => Some(x.1),
        None => None,
    }
}

/// A copy of a vector of plain values.
pub fn copy_vec<T: Copy>(v: &Vec<T>) -> (r: Vec<T>)
    ensures
        r@ == v@,
{
    let mut out: Vec<T> = Vec::new();
    let mut i: usize = 0;
    while i < v.len()
        invariant
            i <= v@.len(),
            out@ == v@.take(i as int),
        decreases v@.len() - i,
    {
        out.push(v[i]);
        proof {
            assert(v@.take(i + 1 as int) =~= v@.take(i as int).push(v@[i as int]));
        }
        i = i + 1;
    }
    proof {
        assert(v@.take(v@.len() as int) =~= v@);
    }
    out
}

} // verus!
