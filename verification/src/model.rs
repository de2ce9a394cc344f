//! What identifies a model of a celestial body: its identifier and its longitude range.

use vstd::prelude::*;

verus! {

/// The range of longitudes used by a model.
#[derive(Debug, Clone, Copy, PartialEq, Eq, Structural)]
pub enum LongitudeRange {
    /// Longitudes in [-180°, 180°].
    L180,
    /// Longitudes in [0°, 360°].
    L360,
}

/// The identifier of a model.
#[derive(Debug, PartialEq, Eq)]
pub struct ModelId {
    id: String,
}

impl View for ModelId {
    type V = Seq<char>;

    closed spec fn view(&self) -> Seq<char> {
        self.id@
    }
}

impl ModelId {
    /// Creates an identifier.
    pub fn new(id: String) -> (r: ModelId)
        ensures
            r@ == id@,
    {
        ModelId { id }
    }

    /// The identifier as text.
    pub fn as_str(&self) -> (r: &str)
        ensures
            r@ == self@,
    {
        self.id.as_str()
    }
}

/// A model of a celestial body.
pub trait Model: Clone + Copy {
    /// The identifier of this model.
    spec fn id_of(&self) -> Seq<char>;

    /// The longitude range of this model.
    spec fn range_of(&self) -> LongitudeRange;

    /// Returns the identifier of this model.
    fn model_id(&self) -> (r: ModelId)
        ensures
            r@ == self.id_of(),
    ;

    /// Returns the longitude range of this model.
    fn longitude_range(&self) -> (r: LongitudeRange)
        ensures
            r == self.range_of(),
    ;
}

/// A model whose surface is a sphere.
pub trait Spherical: Model {

}

/// A model whose surface is an ellipsoid.
pub trait Ellipsoidal: Model {

}

} // verus!
