//! Common ellipsoidal and spherical models.

use vstd::prelude::*;
use vstd::string::*;

use crate::model::{Ellipsoidal, LongitudeRange, Model, ModelId, Spherical};

verus! {

/// World Geodetic System 1984.
pub const WGS84: WGS84Model = WGS84Model;

/// Struct for model: World Geodetic System 1984.
#[derive(Clone, Copy, Debug, PartialEq, Eq, Structural)]
pub struct WGS84Model;

impl Model for WGS84Model {
    open spec fn id_of(&self) -> Seq<char> {
        "WGS84"@
    }

    open spec fn range_of(&self) -> LongitudeRange {
        LongitudeRange::L180
    }

    fn model_id(&self) -> (r: ModelId)
        ensures
            r@ == "WGS84"@,
    {
        ModelId::new(String::from_str("WGS84"))
    }

    fn longitude_range(&self) -> (r: LongitudeRange)
        ensures
            r == LongitudeRange::L180,
    {
        LongitudeRange::L180
    }
}

impl Ellipsoidal for WGS84Model {

}

/// Geodetic Reference System 1980.
pub const GRS80: GRS80Model = GRS80Model;

/// Struct for model: Geodetic Reference System 1980.
#[derive(Clone, Copy, Debug, PartialEq, Eq, Structural)]
pub struct GRS80Model;

impl Model for GRS80Model {
    open spec fn id_of(&self) -> Seq<char> {
        "GRS80"@
    }

    open spec fn range_of(&self) -> LongitudeRange {
        LongitudeRange::L180
    }

    fn model_id(&self) -> (r: ModelId)
        ensures
            r@ == "GRS80"@,
    {
        ModelId::new(String::from_str("GRS80"))
    }

    fn longitude_range(&self) -> (r: LongitudeRange)
        ensures
            r == LongitudeRange::L180,
    {
        LongitudeRange::L180
    }
}

impl Ellipsoidal for GRS80Model {

}

/// World Geodetic System 1972.
pub const WGS72: WGS72Model = WGS72Model;

/// Struct for model: World Geodetic System 1972.
#[derive(Clone, Copy, Debug, PartialEq, Eq, Structural)]
pub struct WGS72Model;

impl Model for WGS72Model {
    open spec fn id_of(&self) -> Seq<char> {
        "WGS72"@
    }

    open spec fn range_of(&self) -> LongitudeRange {
        LongitudeRange::L180
    }

    fn model_id(&self) -> (r: ModelId)
        ensures
            r@ == "WGS72"@,
    {
        ModelId::new(String::from_str("WGS72"))
    }

    fn longitude_range(&self) -> (r: LongitudeRange)
        ensures
            r == LongitudeRange::L180,
    {
        LongitudeRange::L180
    }
}

impl Ellipsoidal for WGS72Model {

}

/// European Terrestrial Reference System 1989.
pub const ETRS89: ETRS89Model = ETRS89Model;

/// Struct for model: European Terrestrial Reference System 1989.
#[derive(Clone, Copy, Debug, PartialEq, Eq, Structural)]
pub struct ETRS89Model;

impl Model for ETRS89Model {
    open spec fn id_of(&self) -> Seq<char> {
        "ETRS89"@
    }

    open spec fn range_of(&self) -> LongitudeRange {
        LongitudeRange::L180
    }

    fn model_id(&self) -> (r: ModelId)
        ensures
            r@ == "ETRS89"@,
    {
        ModelId::new(String::from_str("ETRS89"))
    }

    fn longitude_range(&self) -> (r: LongitudeRange)
        ensures
            r == LongitudeRange::L180,
    {
        LongitudeRange::L180
    }
}

impl Ellipsoidal for ETRS89Model {

}

/// North American Datum of 1983.
pub const NAD83: NAD83Model = NAD83Model;

/// Struct for model: North American Datum of 1983.
#[derive(Clone, Copy, Debug, PartialEq, Eq, Structural)]
pub struct NAD83Model;

impl Model for NAD83Model {
    open spec fn id_of(&self) -> Seq<char> {
        "NAD83"@
    }

    open spec fn range_of(&self) -> LongitudeRange {
        LongitudeRange::L180
    }

    fn model_id(&self) -> (r: ModelId)
        ensures
            r@ == "NAD83"@,
    {
        ModelId::new(String::from_str("NAD83"))
    }

    fn longitude_range(&self) -> (r: LongitudeRange)
        ensures
            r == LongitudeRange::L180,
    {
        LongitudeRange::L180
    }
}

impl Ellipsoidal for NAD83Model {

}

/// European Datum 1950.
pub const ED50: ED50Model = ED50Model;

/// Struct for model: European Datum 1950.
#[derive(Clone, Copy, Debug, PartialEq, Eq, Structural)]
pub struct ED50Model;

impl Model for ED50Model {
    open spec fn id_of(&self) -> Seq<char> {
        "ED50"@
    }

    open spec fn range_of(&self) -> LongitudeRange {
        LongitudeRange::L180
    }

    fn model_id(&self) -> (r: ModelId)
        ensures
            r@ == "ED50"@,
    {
        ModelId::new(String::from_str("ED50"))
    }

    fn longitude_range(&self) -> (r: LongitudeRange)
        ensures
            r == LongitudeRange::L180,
    {
        LongitudeRange::L180
    }
}

impl Ellipsoidal for ED50Model {

}

/// Irland.
pub const IRL_1975: Irl1975Model = Irl1975Model;

/// Struct for model: Irland.
#[derive(Clone, Copy, Debug, PartialEq, Eq, Structural)]
pub struct Irl1975Model;

impl Model for Irl1975Model {
    open spec fn id_of(&self) -> Seq<char> {
        "IRL_1975"@
    }

    open spec fn range_of(&self) -> LongitudeRange {
        LongitudeRange::L180
    }

    fn model_id(&self) -> (r: ModelId)
        ensures
            r@ == "IRL_1975"@,
    {
        ModelId::new(String::from_str("IRL_1975"))
    }

    fn longitude_range(&self) -> (r: LongitudeRange)
        ensures
            r == LongitudeRange::L180,
    {
        LongitudeRange::L180
    }
}

impl Ellipsoidal for Irl1975Model {

}

/// North American Datum of 1927.
pub const NAD27: NAD27Model = NAD27Model;

/// Struct for model: North American Datum of 1927.
#[derive(Clone, Copy, Debug, PartialEq, Eq, Structural)]
pub struct NAD27Model;

impl Model for NAD27Model {
    open spec fn id_of(&self) -> Seq<char> {
        "NAD27"@
    }

    open spec fn range_of(&self) -> LongitudeRange {
        LongitudeRange::L180
    }

    fn model_id(&self) -> (r: ModelId)
        ensures
            r@ == "NAD27"@,
    {
        ModelId::new(String::from_str("NAD27"))
    }

    fn longitude_range(&self) -> (r: LongitudeRange)
        ensures
            r == LongitudeRange::L180,
    {
        LongitudeRange::L180
    }
}

impl Ellipsoidal for NAD27Model {

}

/// NTF (Paris) / France I.
pub const NTF: NTFModel = NTFModel;

/// Struct for model: NTF (Paris) / France I.
#[derive(Clone, Copy, Debug, PartialEq, Eq, Structural)]
pub struct NTFModel;

impl Model for NTFModel {
    open spec fn id_of(&self) -> Seq<char> {
        "NTF"@
    }

    open spec fn range_of(&self) -> LongitudeRange {
        LongitudeRange::L180
    }

    fn model_id(&self) -> (r: ModelId)
        ensures
            r@ == "NTF"@,
    {
        ModelId::new(String::from_str("NTF"))
    }

    fn longitude_range(&self) -> (r: LongitudeRange)
        ensures
            r == LongitudeRange::L180,
    {
        LongitudeRange::L180
    }
}

impl Ellipsoidal for NTFModel {

}

/// Ordnance Survey Great Britain 1936.
pub const OSGB36: OSGB36Model = OSGB36Model;

/// Struct for model: Ordnance Survey Great Britain 1936.
#[derive(Clone, Copy, Debug, PartialEq, Eq, Structural)]
pub struct OSGB36Model;

impl Model for OSGB36Model {
    open spec fn id_of(&self) -> Seq<char> {
        "OSGB36"@
    }

    open spec fn range_of(&self) -> LongitudeRange {
        LongitudeRange::L180
    }

    fn model_id(&self) -> (r: ModelId)
        ensures
            r@ == "OSGB36"@,
    {
        ModelId::new(String::from_str("OSGB36"))
    }

    fn longitude_range(&self) -> (r: LongitudeRange)
        ensures
            r == LongitudeRange::L180,
    {
        LongitudeRange::L180
    }
}

impl Ellipsoidal for OSGB36Model {

}

/// Geodetic Datum for Germany.
pub const POTSDAM: PotsdamModel = PotsdamModel;

/// Struct for model: Geodetic Datum for Germany.
#[derive(Clone, Copy, Debug, PartialEq, Eq, Structural)]
pub struct PotsdamModel;

impl Model for PotsdamModel {
    open spec fn id_of(&self) -> Seq<char> {
        "POTSDAM"@
    }

    open spec fn range_of(&self) -> LongitudeRange {
        LongitudeRange::L180
    }

    fn model_id(&self) -> (r: ModelId)
        ensures
            r@ == "POTSDAM"@,
    {
        ModelId::new(String::from_str("POTSDAM"))
    }

    fn longitude_range(&self) -> (r: LongitudeRange)
        ensures
            r == LongitudeRange::L180,
    {
        LongitudeRange::L180
    }
}

impl Ellipsoidal for PotsdamModel {

}

/// Tokyo Japan.
pub const TOKYO_JAPAN: TokyoJapanModel = TokyoJapanModel;

/// Struct for model: Tokyo Japan.
#[derive(Clone, Copy, Debug, PartialEq, Eq, Structural)]
pub struct TokyoJapanModel;

impl Model for TokyoJapanModel {
    open spec fn id_of(&self) -> Seq<char> {
        "TOKYO_JAPAN"@
    }

    open spec fn range_of(&self) -> LongitudeRange {
        LongitudeRange::L180
    }

    fn model_id(&self) -> (r: ModelId)
        ensures
            r@ == "TOKYO_JAPAN"@,
    {
        ModelId::new(String::from_str("TOKYO_JAPAN"))
    }

    fn longitude_range(&self) -> (r: LongitudeRange)
        ensures
            r == LongitudeRange::L180,
    {
        LongitudeRange::L180
    }
}

impl Ellipsoidal for TokyoJapanModel {

}

/// Mars Orbiter Laser Altimeter.
pub const MARS_2000: Mars2000Model = Mars2000Model;

/// Struct for model: Mars Orbiter Laser Altimeter.
#[derive(Clone, Copy, Debug, PartialEq, Eq, Structural)]
pub struct Mars2000Model;

impl Model for Mars2000Model {
    open spec fn id_of(&self) -> Seq<char> {
        "MARS_2000"@
    }

    open spec fn range_of(&self) -> LongitudeRange {
        LongitudeRange::L360
    }

    fn model_id(&self) -> (r: ModelId)
        ensures
            r@ == "MARS_2000"@,
    {
        ModelId::new(String::from_str("MARS_2000"))
    }

    fn longitude_range(&self) -> (r: LongitudeRange)
        ensures
            r == LongitudeRange::L360,
    {
        LongitudeRange::L360
    }
}

impl Ellipsoidal for Mars2000Model {

}

/// Spherical Earth model derived from WGS84 ellipsoid.
pub const S84: S84Model = S84Model;

/// Struct for model: Spherical Earth model derived from WGS84 ellipsoid.
#[derive(Clone, Copy, Debug, PartialEq, Eq, Structural)]
pub struct S84Model;

impl Model for S84Model {
    open spec fn id_of(&self) -> Seq<char> {
        "S84"@
    }

    open spec fn range_of(&self) -> LongitudeRange {
        LongitudeRange::L180
    }

    fn model_id(&self) -> (r: ModelId)
        ensures
            r@ == "S84"@,
    {
        ModelId::new(String::from_str("S84"))
    }

    fn longitude_range(&self) -> (r: LongitudeRange)
        ensures
            r == LongitudeRange::L180,
    {
        LongitudeRange::L180
    }
}

impl Spherical for S84Model {

}

/// Spherical Mars model derived from Mars2000 ellipsoid.
pub const SMARS_2000: SMars2000Model = SMars2000Model;

/// Struct for model: Spherical Mars model derived from Mars2000 ellipsoid.
#[derive(Clone, Copy, Debug, PartialEq, Eq, Structural)]
pub struct SMars2000Model;

impl Model for SMars2000Model {
    open spec fn id_of(&self) -> Seq<char> {
        "SMARS_2000"@
    }

    open spec fn range_of(&self) -> LongitudeRange {
        LongitudeRange::L360
    }

    fn model_id(&self) -> (r: ModelId)
        ensures
            r@ == "SMARS_2000"@,
    {
        ModelId::new(String::from_str("SMARS_2000"))
    }

    fn longitude_range(&self) -> (r: LongitudeRange)
        ensures
            r == LongitudeRange::L360,
    {
        LongitudeRange::L360
    }
}

impl Spherical for SMars2000Model {

}

/// Moon IAU/IAG.
pub const MOON: MoonModel = MoonModel;

/// Struct for model: Moon IAU/IAG.
#[derive(Clone, Copy, Debug, PartialEq, Eq, Structural)]
pub struct MoonModel;

impl Model for MoonModel {
    open spec fn id_of(&self) -> Seq<char> {
        "MOON"@
    }

    open spec fn range_of(&self) -> LongitudeRange {
        LongitudeRange::L180
    }

    fn model_id(&self) -> (r: ModelId)
        ensures
            r@ == "MOON"@,
    {
        ModelId::new(String::from_str("MOON"))
    }

    fn longitude_range(&self) -> (r: LongitudeRange)
        ensures
            r == LongitudeRange::L180,
    {
        LongitudeRange::L180
    }
}

impl Spherical for MoonModel {

}

/// The longitude range of each standard model: every Earth and Moon model uses longitudes in
/// [-180°, 180°]; only the Mars models use [0°, 360°].
pub proof fn lemma_standard_longitude_ranges()
    ensures
        WGS84.range_of() == LongitudeRange::L180,
        GRS80.range_of() == LongitudeRange::L180,
        WGS72.range_of() == LongitudeRange::L180,
        ETRS89.range_of() == LongitudeRange::L180,
        NAD83.range_of() == LongitudeRange::L180,
        ED50.range_of() == LongitudeRange::L180,
        IRL_1975.range_of() == LongitudeRange::L180,
        NAD27.range_of() == LongitudeRange::L180,
        NTF.range_of() == LongitudeRange::L180,
        OSGB36.range_of() == LongitudeRange::L180,
        POTSDAM.range_of() == LongitudeRange::L180,
        TOKYO_JAPAN.range_of() == LongitudeRange::L180,
        MARS_2000.range_of() == LongitudeRange::L360,
        S84.range_of() == LongitudeRange::L180,
        SMARS_2000.range_of() == LongitudeRange::L360,
        MOON.range_of() == LongitudeRange::L180,
{
}

/// The identifier of each standard model is the name of its constant.
pub proof fn lemma_standard_ids()
    ensures
        WGS84.id_of() == "WGS84"@,
        GRS80.id_of() == "GRS80"@,
        WGS72.id_of() == "WGS72"@,
        ETRS89.id_of() == "ETRS89"@,
        NAD83.id_of() == "NAD83"@,
        ED50.id_of() == "ED50"@,
        IRL_1975.id_of() == "IRL_1975"@,
        NAD27.id_of() == "NAD27"@,
        NTF.id_of() == "NTF"@,
        OSGB36.id_of() == "OSGB36"@,
        POTSDAM.id_of() == "POTSDAM"@,
        TOKYO_JAPAN.id_of() == "TOKYO_JAPAN"@,
        MARS_2000.id_of() == "MARS_2000"@,
        S84.id_of() == "S84"@,
        SMARS_2000.id_of() == "SMARS_2000"@,
        MOON.id_of() == "MOON"@,
{
}

} // verus!
