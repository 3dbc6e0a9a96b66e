//! The transform component: position, rotation and scale, with a dirty
//! flag. When dirty, the composed model matrix (scale, then rotation, then
//! translation — composed by the linear-algebra collaborator) is staged
//! into the owning renderable exactly once, and the flag clears.

use vstd::prelude::*;

use crate::err::DorpErr;
use crate::math::{Mat4, Vec3};
use crate::renderable::wrapper::{set_model_effect, Renderable};

verus! {

/// Position, rotation and scale, plus the render-dirty flag.
#[derive(Debug)]
pub struct Transform {
    position: Vec3,
    rotation: Vec3,
    scalation: Vec3,
    dirty_render: bool,
}

impl Transform {
    pub closed spec fn position_spec(&self) -> Vec3 {
        self.position
    }

    pub closed spec fn rotation_spec(&self) -> Vec3 {
        self.rotation
    }

    pub closed spec fn scalation_spec(&self) -> Vec3 {
        self.scalation
    }

    /// Whether the composed model matrix still has to be staged.
    pub closed spec fn dirty_spec(&self) -> bool {
        self.dirty_render
    }

    /// A fresh transform: at the origin, unrotated, unit scale, and dirty
    /// so the first render stages a model matrix.
    pub fn new() -> (r: Transform)
        ensures
            r.position_spec() == Vec3::spec_zero(),
            r.rotation_spec() == Vec3::spec_zero(),
            r.scalation_spec() == Vec3::spec_one(),
            r.dirty_spec(),
    {
        Transform {
            position: Vec3::zero(),
            rotation: Vec3::zero(),
            scalation: Vec3::one(),
            dirty_render: true,
        }
    }

    /// Stages the composed model matrix (and its inverse) into the
    /// renderable if the transform is dirty, then clears the flag; a
    /// renderable that refuses the model leaves the flag set, and a clean
    /// transform changes nothing.
    pub fn render(&mut self, renderable: &mut Renderable, model: Mat4, model_inverse: Mat4) -> (r:
        Result<(), DorpErr>)
        ensures
            final(self).position_spec() == old(self).position_spec(),
            final(self).rotation_spec() == old(self).rotation_spec(),
            final(self).scalation_spec() == old(self).scalation_spec(),
            !old(self).dirty_spec() ==> r is Ok && *final(self) == *old(self) && *final(renderable)
                == *old(renderable),
            old(self).dirty_spec() ==> {
                &&& set_model_effect(*old(renderable), *final(renderable), model, model_inverse, r)
                &&& (r is Ok ==> !final(self).dirty_spec())
                &&& (r is Err ==> final(self).dirty_spec())
            },
    {
        if self.dirty_render {
            match renderable.set_model(model, model_inverse) {
                Ok(()) => {},
                Err(err) => {
                    return Err(err);
                },
            }
            self.dirty_render = false;
        }
        Ok(())
    }

    /// Moves the transform and marks it dirty.
    pub fn set_position(&mut self, pos: Vec3)
        ensures
            final(self).position_spec() == pos,
            final(self).rotation_spec() == old(self).rotation_spec(),
            final(self).scalation_spec() == old(self).scalation_spec(),
            final(self).dirty_spec(),
    {
        self.position = pos;
        self.dirty_render = true;
    }

    /// Rotates the transform and marks it dirty.
    pub fn set_rotation(&mut self, rot: Vec3)
        ensures
            final(self).rotation_spec() == rot,
            final(self).position_spec() == old(self).position_spec(),
            final(self).scalation_spec() == old(self).scalation_spec(),
            final(self).dirty_spec(),
    {
        self.rotation = rot;
        self.dirty_render = true;
    }

    /// Rescales the transform and marks it dirty.
    pub fn set_scalation(&mut self, sca: Vec3)
        ensures
            final(self).scalation_spec() == sca,
            final(self).position_spec() == old(self).position_spec(),
            final(self).rotation_spec() == old(self).rotation_spec(),
            final(self).dirty_spec(),
    {
        self.scalation = sca;
        self.dirty_render = true;
    }

    pub fn get_position(&self) -> (r: Vec3)
        ensures
            r == self.position_spec(),
    {
        self.position
    }

    pub fn get_rotation(&self) -> (r: Vec3)
        ensures
            r == self.rotation_spec(),
    {
        self.rotation
    }

    pub fn get_scalation(&self) -> (r: Vec3)
        ensures
            r == self.scalation_spec(),
    {
        self.scalation
    }
}

} // verus!
