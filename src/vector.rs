use vstd::prelude::*;

verus! {

use vstd::std_specs::ops::AddSpec;

/// A point or displacement in the plane, generic over its scalar type.
pub struct Vector<T> {
    pub x: T,
    pub y: T,
}

impl<T: Copy + core::ops::Add<Output = T>> Vector<T> {
    /// Makes the vector `(x, y)`.
    pub fn new(x: T, y: T) -> (r: Vector<T>)
        ensures
            r.x == x,
            r.y == y,
    {
        Vector { x, y }
    }

    /// Adds `other` to this vector in place, coordinate by coordinate.
    pub fn add(&mut self, other_vector: &Vector<T>) -> (r: &Vector<T>)
        requires
            old(self).x.add_req(other_vector.x),
            old(self).y.add_req(other_vector.y),
        ensures
            T::obeys_add_spec() ==> final(self).x == old(self).x.add_spec(other_vector.x),
            T::obeys_add_spec() ==> final(self).y == old(self).y.add_spec(other_vector.y),
            *r == *final(self),
    {
        self.x = self.x + other_vector.x;
        self.y = self.y + other_vector.y;
        self
    }

    /// Overwrites this vector with the coordinates of `other`.
    pub fn set(&mut self, other_vector: Vector<T>) -> (r: &Vector<T>)
        ensures
            final(self).x == other_vector.x,
            final(self).y == other_vector.y,
            *r == *final(self),
    {
        self.x = other_vector.x;
        self.y = other_vector.y;
        self
    }
}

} // verus!
