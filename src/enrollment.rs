use vstd::prelude::*;

verus! {

/// A table of the players currently connected for enrollment.
pub trait EnrollmentTable {}

/// The enrollment endpoints' shared state.
pub struct EnrollmentServer {
    table: Box<dyn EnrollmentTable>,
}

} // verus!
