use vstd::prelude::*;

verus! {

/// A future that completes with whatever the wrapped response future yields.
pub struct ExampleFuture<F> {
    pub response_future: F,
}

impl<F> ExampleFuture<F> {
    pub fn new(response_future: F) -> (r: Self)
        ensures
            r.response_future == response_future,
    {
        ExampleFuture { response_future }
    }
}

} // verus!
