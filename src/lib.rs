//! Fallback values for empty values.
//!
//! A value that is empty by its type's own definition is replaced by a fallback
//! of the same type; a value that is not empty is kept. [`IfEmpty`] moves both
//! values and returns one of them; [`IfEmptyBorrowed`] takes two references and
//! returns one of them. [`if_empty`] does the same for any type that states its
//! emptiness through [`Emptiness`].
use vstd::prelude::*;

pub mod laws;
mod text;

verus! {

/// The result that both fallback contracts describe: `f` when `v` is empty,
/// `v` otherwise.
pub open spec fn fallback_if_empty<T>(empty: bool, v: T, f: T) -> T {
    if empty {
        f
    } else {
        v
    }
}

/// The content of a text value after its fallback has been applied.
pub open spec fn text_or_fallback(v: Seq<char>, f: Seq<char>) -> Seq<char> {
    if v.len() == 0 {
        f
    } else {
        v
    }
}

/// Substitutes a fallback for a value that is empty, by value.
pub trait IfEmpty: Sized {
    /// Whether `self` counts as empty for this type.
    spec fn spec_is_empty(&self) -> bool;

    /// Returns `val` if `self` is empty, and `self` otherwise.
    fn if_empty(self, val: Self) -> (r: Self)
        ensures
            r == fallback_if_empty(self.spec_is_empty(), self, val),
    ;
}

/// Substitutes a fallback for a value that is empty, by reference.
pub trait IfEmptyBorrowed {
    /// Whether `self` counts as empty for this type.
    spec fn spec_is_empty(&self) -> bool;

    /// Returns `val` if `self` is empty, and `self` otherwise.
    fn if_empty<'a>(&'a self, val: &'a Self) -> (r: &'a Self)
        ensures
            r == fallback_if_empty(self.spec_is_empty(), self, val),
    ;
}

/// A type with an emptiness predicate: what [`if_empty`] needs of a type to
/// give it the fallback contract without an impl of [`IfEmpty`].
pub trait Emptiness {
    /// Whether `self` counts as empty.
    spec fn spec_is_empty(&self) -> bool;

    /// Reports whether `self` is empty.
    fn is_empty(&self) -> (r: bool)
        ensures
            r == self.spec_is_empty(),
    ;
}

/// Returns `fallback` if `value` is empty by its own predicate, and `value`
/// otherwise: the fallback contract for every type with an emptiness
/// predicate.
pub fn if_empty<T: Emptiness>(value: T, fallback: T) -> (r: T)
    ensures
        r == fallback_if_empty(value.spec_is_empty(), value, fallback),
{
    if value.is_empty() {
        fallback
    } else {
        value
    }
}

} // verus!
