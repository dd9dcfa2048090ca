//! Branded newtype wrappers with capability-gated behaviour.
//!
//! A `TaggedType<V, T>` holds exactly one value of type `V` and a
//! zero-sized brand `T`.  Two wrappers over the same `V` with different
//! brands are never interchangeable.  Each behaviour of the wrapper
//! (equality, ordering, cloning, defaulting, parsing, formatting,
//! arithmetic, inner access, ...) becomes available only when the brand
//! type opts in by implementing the matching marker trait from
//! [`traits`], or the blanket [`traits::Permissive`] marker.
//!
//! The [`generator`] module holds the declarative side: it validates a
//! capability declaration against the fixed catalogue and computes the
//! set of marker grants it stands for.

pub mod generator;
pub mod laws;
pub mod tagged_type;
pub mod traits;

pub use crate::tagged_type::TaggedType;
pub use crate::traits::AsReference;
pub use crate::traits::Cloned;
pub use crate::traits::FromInner;
pub use crate::traits::ImplementAdd;
pub use crate::traits::ImplementClone;
pub use crate::traits::ImplementCopy;
pub use crate::traits::ImplementDefault;
pub use crate::traits::ImplementDeref;
pub use crate::traits::ImplementDiv;
pub use crate::traits::ImplementEq;
pub use crate::traits::ImplementHash;
pub use crate::traits::ImplementMul;
pub use crate::traits::ImplementOrd;
pub use crate::traits::ImplementPartialEq;
pub use crate::traits::ImplementPartialOrd;
pub use crate::traits::ImplementSub;
pub use crate::traits::InnerAccess;
pub use crate::traits::Permissive;
pub use crate::traits::TransparentDebug;
pub use crate::traits::TransparentDeserialize;
pub use crate::traits::TransparentDisplay;
pub use crate::traits::TransparentFromInner;
pub use crate::traits::TransparentFromStr;
pub use crate::traits::TransparentSerialize;
pub use crate::traits::ValueMap;
