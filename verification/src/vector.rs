use vstd::prelude::*;

verus! {

/// A fixed-length coordinate vector over any component type.
#[derive(Clone, Copy)]
pub struct Vector<T, const N: usize>(pub [T; N]);

impl<T: Copy, const N: usize> Vector<T, N> {
    /// The components as a sequence.
    pub open spec fn view_spec(self) -> Seq<T> {
        self.0@
    }

    pub fn new(components: [T; N]) -> (r: Vector<T, N>)
        ensures
            r.view_spec() == components@,
    {
        Vector(components)
    }

    /// The component at `index`.
    pub fn index(&self, index: usize) -> (r: T)
        requires
            index < N,
        ensures
            r == self.view_spec()[index as int],
    {
        self.0[index]
    }
}

} // verus!
