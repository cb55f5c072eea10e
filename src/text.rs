//! The fallback contracts on text: `String` by value, `str` by reference.
use vstd::prelude::*;

use crate::{text_or_fallback, Emptiness, IfEmpty, IfEmptyBorrowed};

verus! {

impl IfEmptyBorrowed for str {
    /// A string slice is empty when it holds no characters.
    open spec fn spec_is_empty(&self) -> bool {
        self@.len() == 0
    }

    fn if_empty<'a>(&'a self, input: &'a Self) -> (r: &'a Self)
        ensures
            r@ == text_or_fallback(self@, input@),
    {
        if self.is_empty() {
            input
        } else {
            self
        }
    }
}

impl IfEmpty for String {
    /// A string is empty when it holds no characters.
    open spec fn spec_is_empty(&self) -> bool {
        self@.len() == 0
    }

    fn if_empty(self, input: Self) -> (r: Self)
        ensures
            r@ == text_or_fallback(self@, input@),
    {
        if self.as_str().is_empty() {
            input
        } else {
            self
        }
    }
}

impl Emptiness for String {
    /// A string is empty when it holds no characters.
    open spec fn spec_is_empty(&self) -> bool {
        self@.len() == 0
    }

    fn is_empty(&self) -> (r: bool) {
        self.as_str().is_empty()
    }
}

} // verus!
