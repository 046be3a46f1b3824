use vstd::prelude::*;

verus! {

/// Returned by a send that could not place its value; it hands the value back.
#[derive(Debug)]
pub struct SendError<T>(pub T);

/// Returned by a receive when nothing is left and the sending side is gone.
#[derive(Debug)]
pub struct RecvError;

} // verus!
