//! The notification target that a pending consumer registers.
use vstd::prelude::*;
use std::task::Waker;

verus! {

/// `std::task::Waker`, carried through the shared slot as an opaque value.
#[verifier::external_type_specification]
#[verifier::external_body]
pub struct ExWaker(std::task::Waker);

/// Relies on `Waker::wake`: it consumes the waker and asks the executor that
/// made it to poll its task again. Nothing of the slot depends on it.
pub assume_specification[ std::task::Waker::wake ](w: Waker);

} // verus!
