//! The capability-marker catalogue.
//!
//! Each trait here is an empty, data-less marker.  A brand (tag) type
//! opts into one behaviour of [`crate::TaggedType`] by implementing the
//! matching marker; the wrapper's conditional impls are gated on these
//! markers.  [`Permissive`] structurally implies every other marker.

use vstd::prelude::*;

verus! {

/// Grants `TaggedType` the `inner()` and `into_inner()` accessors.
pub trait InnerAccess {}

/// Grants `TaggedType<&V, T>` the `cloned()` method that turns it into
/// an owning `TaggedType<V, T>`.
pub trait Cloned {}

/// Grants `TaggedType` the `map` and `try_map` methods over the inner
/// value.
pub trait ValueMap {}

/// Grants `TaggedType` the `as_ref()` conversion from `&TaggedType<V, T>`
/// to `TaggedType<&V, T>`.
pub trait AsReference {}

/// Grants `TaggedType` the `deref()` accessor to the inner value.
pub trait ImplementDeref {}

/// Grants `TaggedType` a `Default` impl when the inner type has one.
pub trait ImplementDefault {}

/// Grants `TaggedType` a pass-through rendering of the inner value's
/// `Debug` formatting.
pub trait TransparentDebug {}

/// Grants `TaggedType` a pass-through rendering of the inner value's
/// `Display` formatting.
pub trait TransparentDisplay {}

/// Grants `TaggedType` a `Clone` impl when the inner type has one.
pub trait ImplementClone {}

/// Grants `TaggedType` a `Copy` impl when the inner type has one.
pub trait ImplementCopy {}

/// Grants `TaggedType` a `Hash` impl when the inner type has one.
pub trait ImplementHash {}

/// Grants `TaggedType` pass-through parsing from text via the inner
/// type's `FromStr`.
pub trait TransparentFromStr {}

/// Grants `TaggedType` a `From<V>` conversion from the inner value.
pub trait FromInner {}

/// Backward compatible alias for [`FromInner`].
pub trait TransparentFromInner {}

impl<T: TransparentFromInner> FromInner for T {}

/// Grants `TaggedType` an `Add` impl forwarding to the inner type's.
pub trait ImplementAdd {}

/// Grants `TaggedType` a `Sub` impl forwarding to the inner type's.
pub trait ImplementSub {}

/// Grants `TaggedType` a `Mul` impl forwarding to the inner type's.
pub trait ImplementMul {}

/// Grants `TaggedType` a `Div` impl forwarding to the inner type's.
pub trait ImplementDiv {}

/// Grants `TaggedType` a `PartialEq` impl when the inner type has one.
pub trait ImplementPartialEq {}

/// Grants `TaggedType` an `Eq` impl; requires [`ImplementPartialEq`] as
/// its transitive prerequisite.
pub trait ImplementEq {}

/// Grants `TaggedType` a `PartialOrd` impl; requires
/// [`ImplementPartialEq`] as its transitive prerequisite.
pub trait ImplementPartialOrd {}

/// Grants `TaggedType` a total-order comparison; requires the full
/// equality and partial-order chain as transitive prerequisites.
pub trait ImplementOrd {}

/// Grants `TaggedType` transparent serialization of the inner value.
/// The codec itself is an outside collaborator; the marker only makes
/// the brand's opt-in a compile-time fact.
pub trait TransparentSerialize {}

/// Grants `TaggedType` transparent deserialization into the inner value.
pub trait TransparentDeserialize {}

/// The aggregate grant: a brand implementing `Permissive` structurally
/// satisfies every marker in the catalogue, with no marker beyond it.
pub trait Permissive {}

impl<T: Permissive> InnerAccess for T {}

impl<T: Permissive> Cloned for T {}

impl<T: Permissive> ValueMap for T {}

impl<T: Permissive> AsReference for T {}

impl<T: Permissive> ImplementDeref for T {}

impl<T: Permissive> ImplementDefault for T {}

impl<T: Permissive> TransparentDebug for T {}

impl<T: Permissive> TransparentDisplay for T {}

impl<T: Permissive> ImplementClone for T {}

impl<T: Permissive> ImplementCopy for T {}

impl<T: Permissive> ImplementHash for T {}

impl<T: Permissive> TransparentFromStr for T {}

impl<T: Permissive> TransparentFromInner for T {}

impl<T: Permissive> ImplementAdd for T {}

impl<T: Permissive> ImplementSub for T {}

impl<T: Permissive> ImplementMul for T {}

impl<T: Permissive> ImplementDiv for T {}

impl<T: Permissive> ImplementPartialEq for T {}

impl<T: Permissive> ImplementEq for T {}

impl<T: Permissive> ImplementPartialOrd for T {}

impl<T: Permissive> ImplementOrd for T {}

impl<T: Permissive> TransparentSerialize for T {}

impl<T: Permissive> TransparentDeserialize for T {}

} // verus!
