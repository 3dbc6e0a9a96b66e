//! A 2D spatial grid: nested dictionaries keyed by quantized axis values,
//! mapping each occupied cell to one entity handle, with a coalesced dirty
//! flag. The flag survives exactly one tick after the last insert and
//! clears on the second, so consumers observe "became dirty" for one full
//! tick; a fresh insert restarts that countdown.

use vstd::prelude::*;

use crate::ids::Id;
use crate::table::{KeyEq, Table};

verus! {

pub struct Map2d<T> {
    tiles: Table<T, Table<T, Id>>,
    dirty_tiles: bool,
    ticks: i32,
}

impl<T> Map2d<T> {
    /// The grid: row key to (cell key to handle).
    pub closed spec fn grid_spec(&self) -> Map<T, Map<T, Id>> {
        Map::new(|y: T| self.tiles@.dom().contains(y), |y: T| self.tiles@[y]@)
    }

    /// The underlying row tables, with their iteration order.
    pub closed spec fn tiles_spec(&self) -> Table<T, Table<T, Id>> {
        self.tiles
    }

    /// Whether an insert happened recently (cleared two ticks after the
    /// last one).
    pub closed spec fn dirty_spec(&self) -> bool {
        self.dirty_tiles
    }

    /// How many ticks the dirty flag has survived since the last insert.
    pub closed spec fn ticks_spec(&self) -> i32 {
        self.ticks
    }

    /// The handle at cell (x, y), if the cell is occupied.
    pub open spec fn cell_spec(&self, x: T, y: T) -> Option<Id> {
        if self.grid_spec().dom().contains(y) && self.grid_spec()[y].dom().contains(x) {
            Some(self.grid_spec()[y][x])
        } else {
            None
        }
    }

    #[verifier::type_invariant]
    spec fn inv(self) -> bool {
        &&& 0 <= self.ticks <= 1
        &&& !self.dirty_tiles ==> self.ticks == 0
    }

    /// An empty, clean grid.
    pub fn new() -> (r: Map2d<T>)
        ensures
            r.grid_spec() == Map::<T, Map<T, Id>>::empty(),
            !r.dirty_spec(),
            r.ticks_spec() == 0,
    {
        let r = Map2d { tiles: Table::new(), dirty_tiles: false, ticks: 0 };
        proof {
            assert(r.grid_spec() =~= Map::<T, Map<T, Id>>::empty());
        }
        r
    }

    /// One debounce step: a clean grid is untouched; a dirty grid stays
    /// dirty for one counted tick and clears on the next.
    pub fn tick_mut(&mut self)
        ensures
            final(self).grid_spec() == old(self).grid_spec(),
            final(self).tiles_spec() == old(self).tiles_spec(),
            !old(self).dirty_spec() ==> final(self).dirty_spec() == old(self).dirty_spec()
                && final(self).ticks_spec() == old(self).ticks_spec(),
            old(self).dirty_spec() && old(self).ticks_spec() == 0 ==> final(self).dirty_spec()
                && final(self).ticks_spec() == 1,
            old(self).dirty_spec() && old(self).ticks_spec() == 1 ==> !final(self).dirty_spec()
                && final(self).ticks_spec() == 0,
    {
        proof {
            use_type_invariant(&*self);
        }
        if self.dirty_tiles {
            if self.ticks >= 1 {
                self.ticks = 0;
                self.dirty_tiles = false;
            } else {
                self.ticks = self.ticks + 1;
            }
        }
    }

    /// Whether an insert happened within the last two ticks.
    pub fn is_dirty(&self) -> (r: bool)
        ensures
            r == self.dirty_spec(),
    {
        self.dirty_tiles
    }
}

impl<T: KeyEq + Copy> Map2d<T> {
    /// Puts `id` at cell (x, y), overwriting any handle there, marks the
    /// grid dirty and restarts the two-tick countdown.
    pub fn insert(&mut self, x: T, y: T, id: Id)
        ensures
            final(self).grid_spec() == old(self).grid_spec().insert(
                y,
                (if old(self).grid_spec().dom().contains(y) {
                    old(self).grid_spec()[y]
                } else {
                    Map::<T, Id>::empty()
                }).insert(x, id),
            ),
            final(self).dirty_spec(),
            final(self).ticks_spec() == 0,
    {
        proof {
            use_type_invariant(&*self);
        }
        let mut tiles: Table<T, Table<T, Id>> = Table::new();
        core::mem::swap(&mut tiles, &mut self.tiles);
        let mut row: Table<T, Id> = match tiles.remove(&y) {
            Some(row) => row,
            None => Table::new(),
        };
        row.insert(x, id);
        tiles.insert(y, row);
        self.tiles = tiles;
        self.dirty_tiles = true;
        self.ticks = 0;
        proof {
            assert(self.grid_spec() =~= old(self).grid_spec().insert(
                y,
                (if old(self).grid_spec().dom().contains(y) {
                    old(self).grid_spec()[y]
                } else {
                    Map::<T, Id>::empty()
                }).insert(x, id),
            ));
        }
    }

    /// The handle at cell (x, y), if the cell is occupied. A pure lookup.
    pub fn get(&self, x: T, y: T) -> (r: Option<Id>)
        ensures
            r == self.cell_spec(x, y),
    {
        match self.tiles.get(&y) {
            Some(row) => match row.get(&x) {
                Some(id) => Some(*id),
                None => None,
            },
            None => None,
        }
    }

    /// Shared access to the whole grid.
    pub fn get_all(&self) -> (r: &Table<T, Table<T, Id>>)
        ensures
            *r == self.tiles_spec(),
    {
        &self.tiles
    }
}

} // verus!
