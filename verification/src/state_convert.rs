//! Two parallel copies of the standard conversion pair, so that state
//! setters can accept "anything convertible to a point" and "anything
//! convertible to a vector" as two distinct families even when one concrete
//! type can act as both.

use vstd::prelude::*;

verus! {

/// Conversion into `Self` from a point-like value.
pub trait FromPoint3<T>: Sized {
    fn from_point(t: T) -> Self;
}

impl<T> FromPoint3<T> for T {
    fn from_point(t: T) -> T {
        t
    }
}

/// The reflection of [`FromPoint3`], as `Into` reflects `From`.
pub trait Point3Into<T>: Sized {
    fn point_into(self) -> T;
}

impl<T, U: FromPoint3<T>> Point3Into<U> for T {
    fn point_into(self) -> U {
        U::from_point(self)
    }
}

/// Conversion into `Self` from a vector-like value.
pub trait FromVector3<T>: Sized {
    fn from_vector(t: T) -> Self;
}

impl<T> FromVector3<T> for T {
    fn from_vector(t: T) -> T {
        t
    }
}

/// The reflection of [`FromVector3`], as `Into` reflects `From`.
pub trait Vector3Into<T>: Sized {
    fn vector_into(self) -> T;
}

impl<T, U: FromVector3<T>> Vector3Into<U> for T {
    fn vector_into(self) -> U {
        U::from_vector(self)
    }
}

} // verus!
