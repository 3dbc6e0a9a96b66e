//! A 3D spatial grid: three levels of nested dictionaries keyed by
//! quantized axis values, mapping each occupied cell to one entity handle,
//! with the same two-tick dirty debounce as the 2D grid.

use vstd::prelude::*;

use crate::err::DorpErr;
use crate::ids::Id;
use crate::table::{KeyEq, Table};

verus! {

pub struct Map3d<T> {
    tiles: Table<T, Table<T, Table<T, Id>>>,
    dirty_tiles: bool,
    ticks: i32,
}

impl<T> Map3d<T> {
    /// The grid: plane key to (row key to (cell key to handle)).
    pub closed spec fn grid_spec(&self) -> Map<T, Map<T, Map<T, Id>>> {
        Map::new(
            |z: T| self.tiles@.dom().contains(z),
            |z: T|
                Map::new(
                    |y: T| self.tiles@[z]@.dom().contains(y),
                    |y: T| self.tiles@[z]@[y]@,
                ),
        )
    }

    /// The underlying plane tables, with their iteration order.
    pub closed spec fn tiles_spec(&self) -> Table<T, Table<T, Table<T, Id>>> {
        self.tiles
    }

    /// Whether an insert happened recently (cleared two ticks after the
    /// last one).
    pub closed spec fn dirty_spec(&self) -> bool {
        self.dirty_tiles
    }

    /// How many ticks the dirty flag has survived since the last insert.
    pub closed spec fn ticks_spec(&self) -> i32 {
        self.ticks
    }

    /// The handle at cell (x, y, z), if the cell is occupied.
    pub open spec fn cell_spec(&self, x: T, y: T, z: T) -> Option<Id> {
        if self.grid_spec().dom().contains(z) && self.grid_spec()[z].dom().contains(y)
            && self.grid_spec()[z][y].dom().contains(x) {
            Some(self.grid_spec()[z][y][x])
        } else {
            None
        }
    }

    #[verifier::type_invariant]
    spec fn inv(self) -> bool {
        &&& 0 <= self.ticks <= 1
        &&& !self.dirty_tiles ==> self.ticks == 0
    }

    /// An empty, clean grid.
    pub fn new() -> (r: Map3d<T>)
        ensures
            r.grid_spec() == Map::<T, Map<T, Map<T, Id>>>::empty(),
            !r.dirty_spec(),
            r.ticks_spec() == 0,
    {
        let r = Map3d { tiles: Table::new(), dirty_tiles: false, ticks: 0 };
        proof {
            assert(r.grid_spec() =~= Map::<T, Map<T, Map<T, Id>>>::empty());
        }
        r
    }

    /// One debounce step: a clean grid is untouched; a dirty grid stays
    /// dirty for one counted tick and clears on the next.
    pub fn tick_mut(&mut self)
        ensures
            final(self).grid_spec() == old(self).grid_spec(),
            final(self).tiles_spec() == old(self).tiles_spec(),
            !old(self).dirty_spec() ==> final(self).dirty_spec() == old(self).dirty_spec()
                && final(self).ticks_spec() == old(self).ticks_spec(),
            old(self).dirty_spec() && old(self).ticks_spec() == 0 ==> final(self).dirty_spec()
                && final(self).ticks_spec() == 1,
            old(self).dirty_spec() && old(self).ticks_spec() == 1 ==> !final(self).dirty_spec()
                && final(self).ticks_spec() == 0,
    {
        proof {
            use_type_invariant(&*self);
        }
        if self.dirty_tiles {
            if self.ticks >= 1 {
                self.ticks = 0;
                self.dirty_tiles = false;
            } else {
                self.ticks = self.ticks + 1;
            }
        }
    }

    /// Whether an insert happened within the last two ticks.
    pub fn is_dirty(&self) -> (r: bool)
        ensures
            r == self.dirty_spec(),
    {
        self.dirty_tiles
    }
}

impl<T: KeyEq + Copy> Map3d<T> {
    /// Puts `id` at cell (x, y, z), overwriting any handle there, marks
    /// the grid dirty and restarts the two-tick countdown. Always
    /// succeeds; the result mirrors the levels descended.
    pub fn insert(&mut self, x: T, y: T, z: T, id: Id) -> (r: Result<(), DorpErr>)
        ensures
            r is Ok,
            final(self).grid_spec() == old(self).grid_spec().insert(
                z,
                (if old(self).grid_spec().dom().contains(z) {
                    old(self).grid_spec()[z]
                } else {
                    Map::<T, Map<T, Id>>::empty()
                }).insert(
                    y,
                    (if old(self).grid_spec().dom().contains(z) && old(self).grid_spec()[
                        z
                    ].dom().contains(y) {
                        old(self).grid_spec()[z][y]
                    } else {
                        Map::<T, Id>::empty()
                    }).insert(x, id),
                ),
            ),
            final(self).dirty_spec(),
            final(self).ticks_spec() == 0,
    {
        proof {
            use_type_invariant(&*self);
        }
        let mut tiles: Table<T, Table<T, Table<T, Id>>> = Table::new();
        core::mem::swap(&mut tiles, &mut self.tiles);
        let mut plane: Table<T, Table<T, Id>> = match tiles.remove(&z) {
            Some(plane) => plane,
            None => Table::new(),
        };
        let mut line: Table<T, Id> = match plane.remove(&y) {
            Some(line) => line,
            None => Table::new(),
        };
        line.insert(x, id);
        plane.insert(y, line);
        tiles.insert(z, plane);
        self.tiles = tiles;
        self.dirty_tiles = true;
        self.ticks = 0;
        proof {
            assert(self.grid_spec()[z] =~= (if old(self).grid_spec().dom().contains(z) {
                old(self).grid_spec()[z]
            } else {
                Map::<T, Map<T, Id>>::empty()
            }).insert(
                y,
                (if old(self).grid_spec().dom().contains(z) && old(self).grid_spec()[
                    z
                ].dom().contains(y) {
                    old(self).grid_spec()[z][y]
                } else {
                    Map::<T, Id>::empty()
                }).insert(x, id),
            ));
            assert(self.grid_spec() =~= old(self).grid_spec().insert(z, self.grid_spec()[z]));
        }
        Ok(())
    }

    /// The handle at cell (x, y, z), if the cell is occupied. A pure
    /// lookup.
    pub fn get(&self, x: T, y: T, z: T) -> (r: Option<Id>)
        ensures
            r == self.cell_spec(x, y, z),
    {
        match self.tiles.get(&z) {
            Some(plane) => match plane.get(&y) {
                Some(row) => match row.get(&x) {
                    Some(id) => Some(*id),
                    None => None,
                },
                None => None,
            },
            None => None,
        }
    }

    /// Shared access to the whole grid.
    pub fn get_all(&self) -> (r: &Table<T, Table<T, Table<T, Id>>>)
        ensures
            *r == self.tiles_spec(),
    {
        &self.tiles
    }
}

} // verus!
