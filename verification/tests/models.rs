use jord::error::Error;
use jord::great_circle::Side;
use jord::model::{LongitudeRange, Model, ModelId};
use jord::models::{
    ED50, ETRS89, GRS80, IRL_1975, MARS_2000, MOON, NAD27, NAD83, NTF, OSGB36, POTSDAM, S84,
    SMARS_2000, TOKYO_JAPAN, WGS72, WGS84,
};
use jord::orientation::{Body, Enu, FrameOrientation, Ned, WanderAzimuth};
use jord::spherical::LoopRelation;

fn id_of<M: Model>(m: M) -> String {
    m.model_id().as_str().to_string()
}

#[test]
fn model_ids() {
    assert_eq!("WGS84", id_of(WGS84));
    assert_eq!("GRS80", id_of(GRS80));
    assert_eq!("WGS72", id_of(WGS72));
    assert_eq!("ETRS89", id_of(ETRS89));
    assert_eq!("NAD83", id_of(NAD83));
    assert_eq!("ED50", id_of(ED50));
    assert_eq!("IRL_1975", id_of(IRL_1975));
    assert_eq!("NAD27", id_of(NAD27));
    assert_eq!("NTF", id_of(NTF));
    assert_eq!("OSGB36", id_of(OSGB36));
    assert_eq!("POTSDAM", id_of(POTSDAM));
    assert_eq!("TOKYO_JAPAN", id_of(TOKYO_JAPAN));
    assert_eq!("MARS_2000", id_of(MARS_2000));
    assert_eq!("S84", id_of(S84));
    assert_eq!("SMARS_2000", id_of(SMARS_2000));
    assert_eq!("MOON", id_of(MOON));
}

#[test]
fn model_id_equality() {
    assert_eq!(ModelId::new("WGS84".to_string()), WGS84.model_id());
    assert_ne!(WGS84.model_id(), GRS80.model_id());
}

#[test]
fn longitude_ranges() {
    assert_eq!(LongitudeRange::L180, WGS84.longitude_range());
    assert_eq!(LongitudeRange::L360, MARS_2000.longitude_range());
    assert_eq!(LongitudeRange::L360, SMARS_2000.longitude_range());
    assert_eq!(LongitudeRange::L180, MOON.longitude_range());
}

#[test]
fn orientations() {
    assert!(Enu::is_z_up());
    assert!(!Ned::is_z_up());
    assert!(!Body::is_z_up());
    assert!(!WanderAzimuth::is_z_up());
}

#[test]
fn error_text() {
    assert_eq!("AntipodalPositions", Error::AntipodalPositions.to_string());
    assert_eq!("OutOfRange", Error::OutOfRange.to_string());
    assert_eq!("CoincidentalGreatCircles", Error::CoincidentalGreatCircles.to_string());
    assert_eq!("CoincidentalPositions", Error::CoincidentalPositions.to_string());
    assert_eq!("NotEnoughPositions", Error::NotEnoughPositions.to_string());
}

#[test]
fn enums_compare() {
    assert_ne!(Side::LeftOf, Side::RightOf);
    assert_eq!(Side::Neither, Side::Neither);
    assert_ne!(LoopRelation::Containing, LoopRelation::Within);
}

#[test]
fn loop_relation_from_containment() {
    assert_eq!(LoopRelation::Within, LoopRelation::from_containment(true, false, true));
    assert_eq!(LoopRelation::Containing, LoopRelation::from_containment(false, true, false));
    assert_eq!(LoopRelation::Touching, LoopRelation::from_containment(false, false, true));
    assert_eq!(LoopRelation::Disjoint, LoopRelation::from_containment(false, false, false));
}

#[test]
fn loop_relation_converse() {
    assert_eq!(LoopRelation::Containing, LoopRelation::from_containment(false, true, true));
    assert_eq!(LoopRelation::Within, LoopRelation::from_containment(true, false, true));
    assert_eq!(
        LoopRelation::from_containment(false, false, true),
        LoopRelation::from_containment(false, false, true)
    );
}

#[test]
fn loop_relation_predicates() {
    assert!(!LoopRelation::Disjoint.intersects());
    assert!(LoopRelation::Touching.intersects());
    assert!(LoopRelation::Equal.intersects());
    assert!(LoopRelation::Containing.contains_loop());
    assert!(LoopRelation::Equal.contains_loop());
    assert!(!LoopRelation::Within.contains_loop());
    assert!(LoopRelation::Touching.touches());
    assert!(!LoopRelation::Intersecting.touches());
}
