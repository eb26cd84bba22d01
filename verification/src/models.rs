use vstd::prelude::*;

verus! {

/// The payload of the greeting endpoints.
#[derive(Clone, Copy, Debug)]
pub struct HelloWorld {
    pub greeting: &'static str,
}

} // verus!
