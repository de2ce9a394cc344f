//! Orientations of local frames: which way the z-axis points.

use std::fmt::Debug;

use vstd::prelude::*;

verus! {

/// Indicates the spatial orientation of a frame's axes, specifically
/// whether its Z-axis points up or down according to the right-hand rule.
pub trait FrameOrientation: Copy + Clone + Debug + PartialEq + Eq + Default {
    /// Whether the z-axis of this orientation points up.
    spec fn z_up() -> bool;

    /// Returns true if the z-axis points UP (away from the Earth's center).
    /// Returns false if the z-axis points DOWN (towards the Earth's center).
    fn is_z_up() -> (r: bool)
        ensures
            r == Self::z_up(),
    ;
}

/// East-North-Up (ENU) orientation.
#[derive(Debug, Clone, Copy, PartialEq, Eq, Default, Structural)]
pub struct Enu;

impl FrameOrientation for Enu {
    open spec fn z_up() -> bool {
        true
    }

    fn is_z_up() -> (r: bool)
        ensures
            r == true,
    {
        true
    }
}

/// North-East-Down (NED) orientation.
#[derive(Debug, Clone, Copy, PartialEq, Eq, Default, Structural)]
pub struct Ned;

impl FrameOrientation for Ned {
    open spec fn z_up() -> bool {
        false
    }

    fn is_z_up() -> (r: bool)
        ensures
            r == false,
    {
        false
    }
}

/// Body (Vehicle) orientation.
#[derive(Debug, Clone, Copy, PartialEq, Eq, Default, Structural)]
pub struct Body;

impl FrameOrientation for Body {
    open spec fn z_up() -> bool {
        false
    }

    fn is_z_up() -> (r: bool)
        ensures
            r == false,
    {
        false
    }
}

/// Wander azimuth orientation.
#[derive(Debug, Clone, Copy, PartialEq, Eq, Default, Structural)]
pub struct WanderAzimuth;

impl FrameOrientation for WanderAzimuth {
    open spec fn z_up() -> bool {
        false
    }

    fn is_z_up() -> (r: bool)
        ensures
            r == false,
    {
        false
    }
}

/// Only the east-north-up orientation has its z-axis pointing up; north-east-down, body and
/// wander azimuth orientations point it down.
pub proof fn lemma_only_enu_is_z_up()
    ensures
        Enu::z_up(),
        !Ned::z_up(),
        !Body::z_up(),
        !WanderAzimuth::z_up(),
{
}

/// Marker trait representing a local-level navigation reference frame tangent to the Earth's surface.
pub trait LocalNavigationFrame: FrameOrientation {

}

impl LocalNavigationFrame for Enu {

}

impl LocalNavigationFrame for Ned {

}

impl LocalNavigationFrame for WanderAzimuth {

}

} // verus!
