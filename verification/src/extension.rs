//! Structures over a second set of scalars: modules, vector spaces and field extensions.
//!
//! A structure names its scalars and what they are. The product of a scalar with an
//! element is not among the capabilities, so its laws are not stated.
use crate::field::Field;
use crate::group::{AdditiveAbelianGroup, MultiplicativeAbelianGroup};
use crate::ring::Ring;
use vstd::prelude::*;

verus! {

/// A module over a ring of scalars.
pub trait Module: MultiplicativeAbelianGroup {
    /// The ring that the scalars are taken from.
    type Scalar: Ring;
}

/// A vector space over a field of scalars.
pub trait VectorSpace: AdditiveAbelianGroup {
    /// The field that the scalars are taken from.
    type Scalar: Field;
}

/// A field extension: a field that is a vector space over a subfield, its base field.
pub trait FieldExtension: Field + VectorSpace<Scalar = Self::BaseField> {
    /// The subfield that the extension is built on.
    type BaseField: Field;
}

/// A tower of field extensions: a field extension whose base field may be an extension in
/// turn.
pub trait FieldExtensionTower: FieldExtension {

}

} // verus!
