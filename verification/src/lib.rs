//! Abstract algebra as capabilities of types.
//!
//! A capability is a trait. There are three layers of them:
//!
//! - [`ops`] and [`euclid`]: one capability for each operator that stays within a type,
//!   `ClosedAdd`, `ClosedMulAssign`, `ClosedZero`, `ClosedRemEuclid` and so on;
//! - [`markers`]: tags by which an author asserts that an operator commutes, is
//!   associative or distributes;
//! - [`group`], [`ring`], [`field`], [`ordered`], [`extension`] and [`polynomial`]: the
//!   structures, each the conjunction of the capabilities after its name, from
//!   `AdditiveMagma` by way of `Ring` and `Field` to `FieldExtensionTower`.
//!
//! A structure states its laws as proof functions over the specification of its
//! operators, for the elements of its carrier set. Code that is generic over a structure
//! may rely on them; [`laws`] and [`characteristic`] hold what follows for every type of
//! a structure, among it that the characteristic of a field is prime. A type declares a
//! structure by implementing its trait: where a verifier reads the implementation the
//! laws are proved, elsewhere they are the author's assertion.
//!
//! Nothing here computes but the Euclidean remainder of the primitive integers, and no
//! type of numbers is defined: those are for the crates that use these capabilities.
pub mod characteristic;
pub mod euclid;
pub mod extension;
pub mod field;
pub mod group;
pub mod laws;
pub mod markers;
pub mod ops;
pub mod ordered;
pub mod polynomial;
pub mod ring;

pub use crate::euclid::{ClosedDivEuclid, ClosedRemEuclid};
pub use crate::extension::{FieldExtension, FieldExtensionTower, Module, VectorSpace};
pub use crate::field::{Field, FiniteField};
pub use crate::group::{
    AdditiveAbelianGroup, AdditiveGroup, AdditiveMagma, AdditiveMonoid, AdditiveSemigroup,
    CarrierSet, MultiplicativeAbelianGroup, MultiplicativeGroup, MultiplicativeMagma,
    MultiplicativeMonoid, MultiplicativeSemigroup,
};
pub use crate::markers::{
    AssociativeAddition, AssociativeMultiplication, CommutativeAddition,
    CommutativeMultiplication, DistributiveAddition,
};
pub use crate::ops::{
    ClosedAdd, ClosedAddAssign, ClosedAddAssignRef, ClosedAddRef, ClosedDiv, ClosedDivAssign,
    ClosedDivAssignRef, ClosedDivRef, ClosedInv, ClosedMul, ClosedMulAssign, ClosedMulAssignRef,
    ClosedMulRef, ClosedNeg, ClosedOne, ClosedRem, ClosedRemAssign, ClosedRemAssignRef,
    ClosedRemRef, ClosedSub, ClosedSubAssign, ClosedSubAssignRef, ClosedSubRef, ClosedZero,
};
pub use crate::ordered::RealField;
pub use crate::polynomial::Polynomial;
pub use crate::ring::{
    CommutativeRing, EuclideanDomain, IntegralDomain, PrincipalIdealDomain, Ring, Semiring,
    UniqueFactorizationDomain,
};
