//! A 2D grid-coordinate component: an entity's cell, registered into a 2D
//! spatial map.

use vstd::prelude::*;

use crate::components::map_2d::Map2d;
use crate::ids::Id;
use crate::table::KeyEq;

verus! {

pub struct Map2dCoords<T> {
    x: T,
    y: T,
}

impl<T: Copy> Map2dCoords<T> {
    pub closed spec fn x_spec(&self) -> T {
        self.x
    }

    pub closed spec fn y_spec(&self) -> T {
        self.y
    }

    pub fn new(x: T, y: T) -> (r: Map2dCoords<T>)
        ensures
            r.x_spec() == x,
            r.y_spec() == y,
    {
        Map2dCoords { x, y }
    }

    pub fn get_x(&self) -> (r: T)
        ensures
            r == self.x_spec(),
    {
        self.x
    }

    pub fn get_y(&self) -> (r: T)
        ensures
            r == self.y_spec(),
    {
        self.y
    }
}

impl<T: KeyEq + Copy> Map2dCoords<T> {
    /// Puts `id` at this component's cell in the map, marking it dirty.
    pub fn register(&self, id: Id, map_2d: &mut Map2d<T>)
        ensures
            final(map_2d).grid_spec() == old(map_2d).grid_spec().insert(
                self.y_spec(),
                (if old(map_2d).grid_spec().dom().contains(self.y_spec()) {
                    old(map_2d).grid_spec()[self.y_spec()]
                } else {
                    Map::<T, Id>::empty()
                }).insert(self.x_spec(), id),
            ),
            final(map_2d).dirty_spec(),
            final(map_2d).ticks_spec() == 0,
    {
        map_2d.insert(self.x, self.y, id);
    }
}

} // verus!
