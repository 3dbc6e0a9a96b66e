//! A 3D grid-coordinate component: an entity's cell, registered into a 3D
//! spatial map.

use vstd::prelude::*;

use crate::components::map_3d::Map3d;
use crate::err::DorpErr;
use crate::ids::Id;
use crate::table::KeyEq;

verus! {

#[derive(Debug)]
pub struct Map3dCoords<T> {
    x: T,
    y: T,
    z: T,
}

impl<T: Copy> Map3dCoords<T> {
    pub closed spec fn x_spec(&self) -> T {
        self.x
    }

    pub closed spec fn y_spec(&self) -> T {
        self.y
    }

    pub closed spec fn z_spec(&self) -> T {
        self.z
    }

    pub fn new(x: T, y: T, z: T) -> (r: Map3dCoords<T>)
        ensures
            r.x_spec() == x,
            r.y_spec() == y,
            r.z_spec() == z,
    {
        Map3dCoords { x, y, z }
    }

    pub fn get_x(&self) -> (r: T)
        ensures
            r == self.x_spec(),
    {
        self.x
    }

    pub fn get_y(&self) -> (r: T)
        ensures
            r == self.y_spec(),
    {
        self.y
    }

    pub fn get_z(&self) -> (r: T)
        ensures
            r == self.z_spec(),
    {
        self.z
    }
}

impl<T: KeyEq + Copy> Map3dCoords<T> {
    /// Puts `id` at this component's cell in the map, marking it dirty.
    pub fn register(&self, id: Id, map_3d: &mut Map3d<T>) -> (r: Result<(), DorpErr>)
        ensures
            r is Ok,
            final(map_3d).grid_spec() == old(map_3d).grid_spec().insert(
                self.z_spec(),
                (if old(map_3d).grid_spec().dom().contains(self.z_spec()) {
                    old(map_3d).grid_spec()[self.z_spec()]
                } else {
                    Map::<T, Map<T, Id>>::empty()
                }).insert(
                    self.y_spec(),
                    (if old(map_3d).grid_spec().dom().contains(self.z_spec()) && old(
                        map_3d,
                    ).grid_spec()[self.z_spec()].dom().contains(self.y_spec()) {
                        old(map_3d).grid_spec()[self.z_spec()][self.y_spec()]
                    } else {
                        Map::<T, Id>::empty()
                    }).insert(self.x_spec(), id),
                ),
            ),
            final(map_3d).dirty_spec(),
            final(map_3d).ticks_spec() == 0,
    {
        match map_3d.insert(self.x, self.y, self.z, id) {
            Ok(()) => Ok(()),
            Err(err) => Err(err),
        }
    }
}

} // verus!
