use vstd::prelude::*;

verus! {

/// Binds one immutable value of type `T` to the key `(Self, T, TAG)`.
///
/// `Self` is the owner, `T` the target and `TAG` a marker that tells apart
/// several values of one target type on one owner; `()` is the tag of an owner
/// that needs a single value of `T`. Two keys are the same only if all three
/// types are the same, so one key can be bound once in a program, and a key
/// that was never bound cannot be named.
pub trait AssocStatic<T, TAG> {
    /// The value bound to the key `(Self, T, TAG)`: fixed once and for all
    /// where the binding is declared.
    spec fn static_value() -> T;

    /// Returns a reference to the value bound to the key `(Self, T, TAG)`.
    fn get_static() -> (r: &'static T)
        ensures
            *r == Self::static_value(),
    ;

    /// Returns a reference to the value bound to the key of an owner at hand.
    ///
    /// Only the type of `_this` matters: the result is that of
    /// [`get_static`](AssocStatic::get_static) for the same key.
    fn from(_this: &Self) -> (r: &'static T)
        ensures
            *r == Self::static_value(),
    {
        Self::get_static()
    }
}

} // verus!
