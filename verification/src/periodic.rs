use vstd::prelude::*;
use crate::errors::Error;

verus! {

/// Work done over and over, once per tick; `i` counts the ticks.
pub trait Periodic {
    fn tick(&mut self, i: usize) -> Result<(), Error>;
}

} // verus!
