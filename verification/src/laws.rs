//! Cross-function laws of the wrapper, stated for every input and
//! checked by the verifier.
//!
//! Each function here composes public operations of
//! [`crate::TaggedType`] and pins the outcome down in its `ensures`:
//! the verifier proves the law from the operations' contracts alone.

use vstd::prelude::*;

use crate::tagged_type::TaggedType;
use crate::traits::ImplementClone;
use crate::traits::ImplementCopy;
use crate::traits::ImplementDefault;
use crate::traits::ImplementPartialEq;
use crate::traits::InnerAccess;
use crate::traits::TransparentFromStr;
use vstd::std_specs::cmp::PartialEqSpec;

verus! {

/// Round-trip identity: wrapping a value and unwrapping it again gives
/// the very value back, for every brand granted inner access.
pub fn round_trip_into_inner<V, T: InnerAccess>(v: V) -> (r: V)
    ensures
        r == v,
{
    TaggedType::<V, T>::new(v).into_inner()
}

/// Clone-then-equal: wherever `V`'s own clone hands back a value its
/// own equality accepts, a cloned wrapper compares equal to the
/// original, for every brand granted cloning and equality.
pub fn clone_equals_original<V: Clone + PartialEq, T: ImplementClone + ImplementPartialEq>(
    w: &TaggedType<V, T>,
) -> (r: bool)
    requires
        V::obeys_eq_spec(),
        forall|a: V, b: V| vstd::pervasive::cloned::<V>(a, b) ==> V::eq_spec(&b, &a),
    ensures
        r,
{
    let c = w.clone();
    c.eq(w)
}

/// Copy semantics: a wrapper granted copy may be handed on by value
/// while the original binding stays usable, and both are the same
/// wrapper.
pub fn copy_leaves_original_usable<V: Copy, T: ImplementCopy + ImplementClone>(
    w: TaggedType<V, T>,
) -> (r: (TaggedType<V, T>, TaggedType<V, T>))
    ensures
        r.0 == w,
        r.1 == w,
{
    let copied = w;
    (copied, w)
}

/// Default round trip: the default wrapper unwraps to a value `V`'s own
/// default constructor could have returned, for every brand granted
/// default construction and inner access.
pub fn default_into_inner<V: Default, T: ImplementDefault + InnerAccess>() -> (r: V)
    ensures
        call_ensures(V::default, (), r),
{
    TaggedType::<V, T>::default().into_inner()
}

/// Parse transparency: re-tagging the outcome of the inner type's
/// parser and unwrapping it again is the identity — a success carries
/// the parsed value, a failure is the very failure the parser gave.
pub fn parse_round_trip<V, E, T: TransparentFromStr + InnerAccess>(parsed: Result<V, E>) -> (r:
    Result<V, E>)
    ensures
        r == parsed,
{
    match TaggedType::<V, T>::from_parsed(parsed) {
        Ok(w) => Ok(w.into_inner()),
        Err(e) => Err(e),
    }
}

} // verus!
