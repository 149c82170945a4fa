use vstd::prelude::*;

verus! {

/// The error type carried through every fallible operation of the library:
/// a plain message describing what went wrong.
#[derive(Debug)]
pub struct Error {
    pub message: String,
}

impl Error {
    pub fn new(message: String) -> (r: Self)
        ensures
            r.message == message,
    {
        Self { message }
    }
}

} // verus!
