use std::task::Waker;
use vstd::prelude::*;

verus! {

/// `std::task::Waker` is carried through the library as an opaque value.
#[verifier::external_type_specification]
#[verifier::external_body]
pub struct ExWaker(Waker);

/// Relies on `<Waker as Clone>::clone`, which returns a handle to the same task; nothing
/// about it is claimed.
pub assume_specification[ <Waker as Clone>::clone ](w: &Waker) -> (r: Waker);

/// Relies on `Waker::wake_by_ref`, which signals the task without consuming the waker;
/// nothing about it is claimed.
pub assume_specification[ Waker::wake_by_ref ](w: &Waker);

} // verus!
