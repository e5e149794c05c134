//! Connection to automotive data sources.
use vstd::prelude::*;

verus! {

/// A source of automotive data that can be paused and resumed.
pub trait AutoProvider: Sized {
    fn init() -> Self;

    fn pause(&mut self);

    fn resume(&mut self);
}

} // verus!
