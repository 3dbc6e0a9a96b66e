//! A three-way result: a value, no value, or an error — for lookups where
//! "not found" must not be conflated with a real failure. The engine's own
//! exclusive lookups return `Option`, since under outright ownership
//! exclusivity is the borrow itself; this shape is offered to entity
//! implementations whose own operations still have all three outcomes.

use vstd::prelude::*;

verus! {

#[derive(Debug, Clone, PartialEq, Eq)]
pub enum OptErr<T, E> {
    Full(T),
    Empty,
    Error(E),
}

} // verus!
