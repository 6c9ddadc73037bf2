use vstd::prelude::*;

verus! {

/// A computation paired with the function that maps its output: the value
/// handed out is `mapper(output)`.
pub struct MapFuture<F, M> {
    future: F,
    mapper: M,
}

impl<F, M> MapFuture<F, M> {
    /// The computation whose output is mapped.
    pub closed spec fn future(&self) -> F {
        self.future
    }

    /// The function applied to its output.
    pub closed spec fn mapper(&self) -> M {
        self.mapper
    }

    /// Pairs `future` with `mapper`.
    pub fn new(future: F, mapper: M) -> (r: Self)
        ensures
            r.future() == future,
            r.mapper() == mapper,
    {
        Self { future, mapper }
    }

    /// The value handed out once the computation has produced `output`.
    pub fn map_ready<T, O>(&self, output: T) -> (r: O)
        where
            M: Fn(T) -> O,
        requires
            self.mapper().requires((output,)),
        ensures
            self.mapper().ensures((output,), r),
    {
        (self.mapper)(output)
    }
}

} // verus!
