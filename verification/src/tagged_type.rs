//! The branded wrapper itself and its capability-gated behaviour.

use vstd::prelude::*;

use crate::traits::AsReference;
use crate::traits::Cloned;
use crate::traits::FromInner;
use crate::traits::ImplementAdd;
use crate::traits::ImplementClone;
use crate::traits::ImplementCopy;
use crate::traits::ImplementDefault;
use crate::traits::ImplementDeref;
use crate::traits::ImplementDiv;
use crate::traits::ImplementEq;
use crate::traits::ImplementMul;
use crate::traits::ImplementOrd;
use crate::traits::ImplementPartialEq;
use crate::traits::ImplementPartialOrd;
use crate::traits::ImplementSub;
use crate::traits::InnerAccess;
use crate::traits::TransparentDebug;
use crate::traits::TransparentDisplay;
use crate::traits::TransparentFromStr;
use crate::traits::ValueMap;
use core::ops::Add;
use core::ops::Div;
use core::ops::Mul;
use core::ops::Sub;
use vstd::std_specs::cmp::OrdSpec;
use vstd::std_specs::cmp::PartialEqSpec;
use vstd::std_specs::cmp::PartialEqSpecImpl;
use vstd::std_specs::cmp::PartialOrdSpec;
use vstd::std_specs::cmp::PartialOrdSpecImpl;
use vstd::std_specs::convert::FromSpecImpl;
use vstd::std_specs::ops::AddSpec;
use vstd::std_specs::ops::AddSpecImpl;
use vstd::std_specs::ops::DivSpec;
use vstd::std_specs::ops::DivSpecImpl;
use vstd::std_specs::ops::MulSpec;
use vstd::std_specs::ops::MulSpecImpl;
use vstd::std_specs::ops::SubSpec;
use vstd::std_specs::ops::SubSpecImpl;

verus! {

/// A branded container: exactly one value of type `Value`, tagged with
/// the zero-sized brand `Tag`.  The brand stores no data at runtime;
/// it only makes wrappers over the same `Value` with different brands
/// mutually non-interchangeable.  Every behaviour beyond `new` is gated
/// on a marker trait of the brand (see [`crate::traits`]).
pub struct TaggedType<Value, Tag> {
    v: Value,
    _brand: core::marker::PhantomData<Tag>,
}

impl<V, T> TaggedType<V, T> {
    /// The single value this wrapper holds: the mathematical model of
    /// the type.
    pub closed spec fn spec_inner(self) -> V {
        self.v
    }

    /// The wrapper holding `v`: the spec-level constructor.
    pub closed spec fn spec_new(v: V) -> Self {
        TaggedType { v, _brand: core::marker::PhantomData }
    }

    /// Wrap an inner value.  Always succeeds and needs no marker.
    pub fn new(v: V) -> (r: Self)
        ensures
            r == Self::spec_new(v),
            r.spec_inner() == v,
    {
        TaggedType { v, _brand: core::marker::PhantomData }
    }

    /// Every wrapper is the one its inner value determines: the brand
    /// holds no data of its own.
    pub proof fn lemma_determined_by_inner(self)
        ensures
            self == Self::spec_new(self.spec_inner()),
    {
    }
}

impl<V, T: InnerAccess> TaggedType<V, T> {
    /// A reference to the inner value.
    pub fn inner(&self) -> (r: &V)
        ensures
            *r == self.spec_inner(),
    {
        &self.v
    }

    /// Unwrap the inner value.
    pub fn into_inner(self) -> (r: V)
        ensures
            r == self.spec_inner(),
    {
        self.v
    }
}

impl<V: Clone, T: Cloned> TaggedType<&V, T> {
    /// Turn a wrapper of a reference into an owning wrapper by cloning
    /// the referent.  The result is a clone of the referent in the sense
    /// of `V::clone`'s own contract.
    pub fn cloned(self) -> (r: TaggedType<V, T>)
        ensures
            vstd::pervasive::cloned::<V>(*self.spec_inner(), r.spec_inner()),
    {
        TaggedType::new(<V as Clone>::clone(self.v))
    }
}

impl<V, T: ValueMap> TaggedType<V, T> {
    /// Convert the inner value with `f`, keeping the brand.
    pub fn map<F, U>(self, f: F) -> (r: TaggedType<U, T>) where F: FnOnce(V) -> U
        requires
            call_requires(f, (self.spec_inner(),)),
        ensures
            call_ensures(f, (self.spec_inner(),), r.spec_inner()),
    {
        TaggedType::<U, T>::new(f(self.v))
    }

    /// Convert the inner value with a fallible `f`: a success is
    /// re-tagged with the brand, a failure of `f` is handed back
    /// unchanged.
    pub fn try_map<F, U, E>(self, f: F) -> (r: Result<TaggedType<U, T>, E>) where
        F: FnOnce(V) -> Result<U, E>,

        requires
            call_requires(f, (self.spec_inner(),)),
        ensures
            exists|res: Result<U, E>|
                {
                    &&& #[trigger] call_ensures(f, (self.spec_inner(),), res)
                    &&& match (res, r) {
                        (Ok(u), Ok(w)) => w.spec_inner() == u,
                        (Err(e0), Err(e1)) => e0 == e1,
                        _ => false,
                    }
                },
    {
        match f(self.v) {
            Ok(u) => Ok(TaggedType::<U, T>::new(u)),
            Err(e) => Err(e),
        }
    }
}

impl<V, T: AsReference> TaggedType<V, T> {
    /// Convert `&TaggedType<V, T>` into `TaggedType<&V, T>`: a wrapper
    /// of a reference to the same inner value, under the same brand.
    pub fn as_ref<'a>(&'a self) -> (r: TaggedType<&'a V, T>)
        ensures
            *r.spec_inner() == self.spec_inner(),
    {
        TaggedType::<&V, T>::new(&self.v)
    }
}

impl<V, T: ImplementDeref> TaggedType<V, T> {
    /// A reference to the inner value, for brands that opt into
    /// dereferencing.
    pub fn deref(&self) -> (r: &V)
        ensures
            *r == self.spec_inner(),
    {
        &self.v
    }
}

impl<V: Clone, T: ImplementClone> Clone for TaggedType<V, T> {
    /// Cloning forwards to `V::clone` and keeps the brand: the result's
    /// inner value is a clone of the original's, in the sense of
    /// `V::clone`'s own contract.
    fn clone(&self) -> (r: Self)
        ensures
            vstd::pervasive::cloned::<V>(self.spec_inner(), r.spec_inner()),
    {
        TaggedType { v: self.v.clone(), _brand: core::marker::PhantomData }
    }
}

impl<V: Copy, T: ImplementCopy + ImplementClone> Copy for TaggedType<V, T> {

}

impl<V: Default, T: ImplementDefault> Default for TaggedType<V, T> {
    /// The default wrapper holds exactly a value `V::default` returns.
    fn default() -> (r: Self)
        ensures
            call_ensures(V::default, (), r.spec_inner()),
    {
        TaggedType { v: V::default(), _brand: core::marker::PhantomData }
    }
}

impl<V: PartialEq, T: ImplementPartialEq> PartialEqSpecImpl for TaggedType<V, T> {
    open spec fn obeys_eq_spec() -> bool {
        V::obeys_eq_spec()
    }

    open spec fn eq_spec(&self, other: &Self) -> bool {
        V::eq_spec(&self.spec_inner(), &other.spec_inner())
    }
}

impl<V: PartialEq, T: ImplementPartialEq> PartialEq for TaggedType<V, T> {
    /// Equality of wrappers is `V`'s own equality of the inner values.
    fn eq(&self, other: &Self) -> (r: bool) {
        self.v.eq(&other.v)
    }
}

impl<V: Eq, T: ImplementEq + ImplementPartialEq> Eq for TaggedType<V, T> {

}

impl<V: PartialOrd, T: ImplementPartialOrd + ImplementPartialEq> PartialOrdSpecImpl for TaggedType<V, T> {
    open spec fn obeys_partial_cmp_spec() -> bool {
        V::obeys_partial_cmp_spec()
    }

    open spec fn partial_cmp_spec(&self, other: &Self) -> Option<core::cmp::Ordering> {
        V::partial_cmp_spec(&self.spec_inner(), &other.spec_inner())
    }
}

impl<V: PartialOrd, T: ImplementPartialOrd + ImplementPartialEq> PartialOrd for TaggedType<V, T> {
    /// Ordering of wrappers is `V`'s own ordering of the inner values.
    fn partial_cmp(&self, other: &Self) -> (r: Option<core::cmp::Ordering>) {
        self.v.partial_cmp(&other.v)
    }
}

impl<
    V: Ord,
    T: ImplementOrd + ImplementPartialOrd + ImplementEq + ImplementPartialEq,
> TaggedType<V, T> {
    /// Total-order comparison, forwarding to `V`'s own `cmp`.
    pub fn cmp(&self, other: &Self) -> (r: core::cmp::Ordering)
        ensures
            V::obeys_cmp_spec() ==> r == V::cmp_spec(&self.spec_inner(), &other.spec_inner()),
    {
        self.v.cmp(&other.v)
    }
}

impl<V, T: FromInner> FromSpecImpl<V> for TaggedType<V, T> {
    open spec fn obeys_from_spec() -> bool {
        true
    }

    open spec fn from_spec(v: V) -> Self {
        Self::spec_new(v)
    }
}

impl<V, T: FromInner> From<V> for TaggedType<V, T> {
    /// Conversion from the inner value: the same wrapper `new` builds.
    fn from(v: V) -> (r: Self) {
        TaggedType { v, _brand: core::marker::PhantomData }
    }
}

impl<Rhs, V: Add<Rhs, Output = V>, T: ImplementAdd> AddSpecImpl<Rhs> for TaggedType<V, T> {
    open spec fn obeys_add_spec() -> bool {
        V::obeys_add_spec()
    }

    open spec fn add_req(self, rhs: Rhs) -> bool {
        V::add_req(self.spec_inner(), rhs)
    }

    open spec fn add_spec(self, rhs: Rhs) -> Self::Output {
        Self::spec_new(V::add_spec(self.spec_inner(), rhs))
    }
}

impl<Rhs, V: Add<Rhs, Output = V>, T: ImplementAdd> Add<Rhs> for TaggedType<V, T> {
    type Output = TaggedType<V, T>;

    /// Addition forwards to `V`'s own `+` on the inner value and keeps
    /// the brand.
    fn add(self, rhs: Rhs) -> (r: Self::Output) {
        TaggedType { v: self.v + rhs, _brand: core::marker::PhantomData }
    }
}

impl<Rhs, V: Sub<Rhs, Output = V>, T: ImplementSub> SubSpecImpl<Rhs> for TaggedType<V, T> {
    open spec fn obeys_sub_spec() -> bool {
        V::obeys_sub_spec()
    }

    open spec fn sub_req(self, rhs: Rhs) -> bool {
        V::sub_req(self.spec_inner(), rhs)
    }

    open spec fn sub_spec(self, rhs: Rhs) -> Self::Output {
        Self::spec_new(V::sub_spec(self.spec_inner(), rhs))
    }
}

impl<Rhs, V: Sub<Rhs, Output = V>, T: ImplementSub> Sub<Rhs> for TaggedType<V, T> {
    type Output = TaggedType<V, T>;

    /// Subtraction forwards to `V`'s own `-` on the inner value and
    /// keeps the brand.
    fn sub(self, rhs: Rhs) -> (r: Self::Output) {
        TaggedType { v: self.v - rhs, _brand: core::marker::PhantomData }
    }
}

impl<Rhs, V: Mul<Rhs, Output = V>, T: ImplementMul> MulSpecImpl<Rhs> for TaggedType<V, T> {
    open spec fn obeys_mul_spec() -> bool {
        V::obeys_mul_spec()
    }

    open spec fn mul_req(self, rhs: Rhs) -> bool {
        V::mul_req(self.spec_inner(), rhs)
    }

    open spec fn mul_spec(self, rhs: Rhs) -> Self::Output {
        Self::spec_new(V::mul_spec(self.spec_inner(), rhs))
    }
}

impl<Rhs, V: Mul<Rhs, Output = V>, T: ImplementMul> Mul<Rhs> for TaggedType<V, T> {
    type Output = TaggedType<V, T>;

    /// Multiplication forwards to `V`'s own `*` on the inner value and
    /// keeps the brand.
    fn mul(self, rhs: Rhs) -> (r: Self::Output) {
        TaggedType { v: self.v * rhs, _brand: core::marker::PhantomData }
    }
}

impl<Rhs, V: Div<Rhs, Output = V>, T: ImplementDiv> DivSpecImpl<Rhs> for TaggedType<V, T> {
    open spec fn obeys_div_spec() -> bool {
        V::obeys_div_spec()
    }

    open spec fn div_req(self, rhs: Rhs) -> bool {
        V::div_req(self.spec_inner(), rhs)
    }

    open spec fn div_spec(self, rhs: Rhs) -> Self::Output {
        Self::spec_new(V::div_spec(self.spec_inner(), rhs))
    }
}

impl<Rhs, V: Div<Rhs, Output = V>, T: ImplementDiv> Div<Rhs> for TaggedType<V, T> {
    type Output = TaggedType<V, T>;

    /// Division forwards to `V`'s own `/` on the inner value and keeps
    /// the brand.
    fn div(self, rhs: Rhs) -> (r: Self::Output) {
        TaggedType { v: self.v / rhs, _brand: core::marker::PhantomData }
    }
}

impl<V: core::fmt::Display, T: TransparentDisplay> TaggedType<V, T> {
    /// Render the inner value exactly as `V`'s `Display` renders it: the
    /// result is a valid `to_string` outcome for the inner value itself,
    /// with nothing of the brand in it.
    pub fn to_display_string(&self) -> (r: String)
        ensures
            vstd::string::to_string_from_display_ensures::<V>(&self.spec_inner(), r),
    {
        self.v.to_string()
    }
}

/// Relies on `alloc::format!` over `core::fmt::Debug`: renders the
/// value's own debug formatting and touches nothing else.
#[verifier::external_body]
fn format_debug<V: core::fmt::Debug>(v: &V) -> String {
    format!("{v:?}")
}

impl<V: core::fmt::Debug, T: TransparentDebug> TaggedType<V, T> {
    /// Render the inner value exactly as `V`'s `Debug` renders it.
    /// Verus has no model of debug formatting, so nothing is claimed of
    /// the text beyond what the pass-through body does.
    pub fn to_debug_string(&self) -> String {
        format_debug(&self.v)
    }
}

impl<V, T: TransparentFromStr> TaggedType<V, T> {
    /// Re-tag the outcome of the inner type's parser: a success becomes
    /// a wrapper of the parsed value, a failure is handed back
    /// unchanged.
    pub fn from_parsed<E>(parsed: Result<V, E>) -> (r: Result<Self, E>)
        ensures
            match parsed {
                Ok(v) => r matches Ok(w) && w.spec_inner() == v,
                Err(e) => r matches Err(e2) && e2 == e,
            },
    {
        match parsed {
            Ok(v) => Ok(TaggedType::new(v)),
            Err(e) => Err(e),
        }
    }
}

} // verus!
