use vstd::prelude::*;

verus! {

/// Carrier of the payload of one storage cell.
///
/// The payload is set when the carrier is made and can only be read
/// afterwards: no operation hands out a way to change it. That is the
/// condition under which one cell may be read from many places at once.
pub struct MakeSync<T>(T);

impl<T> View for MakeSync<T> {
    type V = T;

    /// The payload that the carrier was made with.
    closed spec fn view(&self) -> T {
        self.0
    }
}

impl<T> MakeSync<T> {
    /// Wraps `value`, which becomes the payload for good.
    pub fn new(value: T) -> (cell: Self)
        ensures
            cell@ == value,
    {
        MakeSync(value)
    }

    /// Reads the payload.
    pub fn get(&self) -> (r: &T)
        ensures
            *r == self@,
    {
        &self.0
    }
}

} // verus!
