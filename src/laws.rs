//! Laws that relate several applications of the fallback contracts.
use vstd::prelude::*;

use crate::{fallback_if_empty, text_or_fallback, Emptiness, IfEmpty, IfEmptyBorrowed};

verus! {

/// Applying a second fallback `g` to the result of `v.if_empty(f)` gives that
/// same result, unless `v` and `f` are both empty and `g` differs from `f`.
pub proof fn lemma_if_empty_idempotent<T: IfEmpty>(v: T, f: T, g: T)
    requires
        !v.spec_is_empty() || !f.spec_is_empty() || g == f,
    ensures
        ({
            let once = fallback_if_empty(v.spec_is_empty(), v, f);
            fallback_if_empty(once.spec_is_empty(), once, g) == once
        }),
{
}

/// The borrowed contract applied twice: a second fallback `g` changes nothing,
/// unless `v` and `f` are both empty and `g` differs from `f`.
pub proof fn lemma_if_empty_borrowed_idempotent<T: IfEmptyBorrowed + ?Sized>(
    v: &T,
    f: &T,
    g: &T,
)
    requires
        !v.spec_is_empty() || !f.spec_is_empty() || g == f,
    ensures
        ({
            let once = fallback_if_empty(v.spec_is_empty(), v, f);
            fallback_if_empty(once.spec_is_empty(), once, g) == once
        }),
{
}

/// The generic `if_empty` applied twice: a second fallback `g` changes
/// nothing, unless `v` and `f` are both empty and `g` differs from `f`.
pub proof fn lemma_generic_if_empty_idempotent<T: Emptiness>(v: T, f: T, g: T)
    requires
        !v.spec_is_empty() || !f.spec_is_empty() || g == f,
    ensures
        ({
            let once = fallback_if_empty(v.spec_is_empty(), v, f);
            fallback_if_empty(once.spec_is_empty(), once, g) == once
        }),
{
}

/// For a `String` and a `str` of equal content, and fallbacks of equal
/// content, the owned and the borrowed contract give results of equal
/// content: the value's own when it is not empty, the fallback's otherwise.
pub proof fn lemma_owned_and_borrowed_agree(v: String, f: String, bv: &str, bf: &str)
    requires
        v@ == bv@,
        f@ == bf@,
    ensures
        fallback_if_empty(IfEmpty::spec_is_empty(&v), v, f)@ == fallback_if_empty(
            IfEmptyBorrowed::spec_is_empty(bv),
            bv,
            bf,
        )@,
        fallback_if_empty(IfEmpty::spec_is_empty(&v), v, f)@ == text_or_fallback(v@, f@),
{
}

} // verus!
