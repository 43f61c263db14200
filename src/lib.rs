use vstd::prelude::*;

pub mod alarm;
pub mod disposition;
pub mod errno;
pub mod flags;
pub mod signal;
pub mod unistd;
pub mod wait;

verus! {

} // verus!
