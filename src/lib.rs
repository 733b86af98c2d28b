use vstd::prelude::*;

pub mod codec;
pub mod device;
pub mod enroll;

verus! {

} // verus!
