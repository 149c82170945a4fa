use vstd::prelude::*;

verus! {

/// The version of this crate, as its manifest states it.
pub fn get_version() -> (r: String)
    ensures
        r@ == "0.1.0"@,
{
    "0.1.0".to_owned()
}

} // verus!
