use vstd::prelude::*;

verus! {

/// A collaborator stated as a trait so that callers can substitute their
/// own implementation — in tests, a hand-written double.
#[allow(non_camel_case_types)]
pub trait example_trait {
    fn example_method(&self, x: u32) -> u32;
}

/// Forward one call through the substitutable collaborator.
pub fn example_func<T: example_trait>(x: &T, v: u32) -> u32 {
    x.example_method(v)
}

} // verus!
