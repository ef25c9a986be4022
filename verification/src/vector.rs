//! A dense embedding, as the engine holds it.

use vstd::prelude::*;

verus! {

/// A window on the components of one embedding.
///
/// The components stay where the engine put them; the window borrows them for
/// `'a` and copies nothing. `T` is the type of a component.
pub struct Vector<'a, T> {
    data: &'a [T],
}

impl<'a, T> View for Vector<'a, T> {
    type V = Seq<T>;

    closed spec fn view(&self) -> Seq<T> {
        self.data@
    }
}

impl<'a, T> Vector<'a, T> {
    /// The window on `data`.
    pub fn new(data: &'a [T]) -> (vector: Vector<'a, T>)
        ensures
            vector@ == data@,
    {
        Vector { data }
    }

    /// The components, for as long as the engine keeps them.
    pub fn as_slice(&self) -> (data: &'a [T])
        ensures
            data@ == self@,
    {
        self.data
    }

    /// The number of components.
    pub fn len(&self) -> (n: usize)
        ensures
            n == self@.len(),
    {
        self.data.len()
    }

    /// Whether there is no component at all.
    pub fn is_empty(&self) -> (empty: bool)
        ensures
            empty <==> self@.len() == 0,
    {
        self.len() == 0
    }
}

} // verus!
