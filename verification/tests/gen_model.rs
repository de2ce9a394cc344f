use jord::gen::model::{gen_model, model_imports, parse_model, ModelDef, Type};
use jord::gen::text::{ParseError, Text};

fn model_text(lines: &[&str]) -> Text {
    Text::new(lines.iter().map(|l| l.to_string()).collect())
}

fn model_def(t: &Text) -> ModelDef {
    match parse_model(t) {
        Ok((m, _)) => m,
        Err(e) => panic!("unexpected error: {:?}", e),
    }
}

#[test]
fn parse_model_ellipsoidal() {
    let t = model_text(&[
        "# Irland.",
        "ellipsoidal Irl_1975",
        "  surface: airy_modified",
        "  longitude_range: L180",
        "",
        "# next",
    ]);
    let (m, rest) = parse_model(&t).unwrap();
    assert_eq!("Irland.", m.comment);
    assert_eq!(Type::Ellipsoidal, m.mtype);
    assert_eq!("Irl_1975", m.id);
    assert_eq!("airy_modified", m.surface);
    assert_eq!("L180", m.longitude_range);
    let (l1, rest) = rest.next().unwrap();
    assert_eq!("", l1);
    let (l2, rest) = rest.next().unwrap();
    assert_eq!("# next", l2);
    assert!(rest.is_eot());
}

#[test]
fn parse_model_spherical_with_extra_whitespace() {
    let t = model_text(&["# Moon IAU/IAG.", "  spherical \t Moon  extra", "  surface: moon", "  longitude_range: L180"]);
    let m = model_def(&t);
    assert_eq!(Type::Spherical, m.mtype);
    assert_eq!("Moon", m.id);
}

#[test]
fn parse_model_missing_comment() {
    let t = model_text(&["ellipsoidal WGS84"]);
    match parse_model(&t) {
        Err(ParseError::MissingPrefix { expected, found }) => {
            assert_eq!("# ", expected);
            assert_eq!(Some("ellipsoidal WGS84".to_string()), found);
        }
        _ => panic!("expected a missing prefix"),
    }
}

#[test]
fn parse_model_empty_text() {
    let t = model_text(&[]);
    match parse_model(&t) {
        Err(ParseError::MissingPrefix { expected, found }) => {
            assert_eq!("# ", expected);
            assert_eq!(None, found);
        }
        _ => panic!("expected a missing prefix"),
    }
}

#[test]
fn parse_model_missing_type_line() {
    let t = model_text(&["# comment"]);
    assert!(matches!(parse_model(&t), Err(ParseError::EndOfText)));
}

#[test]
fn parse_model_missing_type() {
    let t = model_text(&["# comment", "   ", "  surface: x", "  longitude_range: L180"]);
    assert!(matches!(parse_model(&t), Err(ParseError::MissingType)));
}

#[test]
fn parse_model_invalid_type() {
    let t = model_text(&["# comment", "planar WGS84", "  surface: x", "  longitude_range: L180"]);
    match parse_model(&t) {
        Err(ParseError::InvalidType(ty)) => assert_eq!("planar", ty),
        _ => panic!("expected an invalid type"),
    }
}

#[test]
fn parse_model_missing_id() {
    let t = model_text(&["# comment", "spherical", "  surface: x", "  longitude_range: L180"]);
    assert!(matches!(parse_model(&t), Err(ParseError::MissingId)));
}

#[test]
fn parse_model_missing_surface() {
    let t = model_text(&["# comment", "spherical S84", "  longitude_range: L180"]);
    match parse_model(&t) {
        Err(ParseError::MissingPrefix { expected, found }) => {
            assert_eq!("  surface: ", expected);
            assert_eq!(Some("  longitude_range: L180".to_string()), found);
        }
        _ => panic!("expected a missing prefix"),
    }
}

#[test]
fn parse_model_missing_longitude_range() {
    let t = model_text(&["# comment", "spherical S84", "  surface: wgs84"]);
    match parse_model(&t) {
        Err(ParseError::MissingPrefix { expected, found }) => {
            assert_eq!("  longitude_range: ", expected);
            assert_eq!(None, found);
        }
        _ => panic!("expected a missing prefix"),
    }
}

#[test]
fn gen_model_ellipsoidal() {
    let t = model_text(&["# Irland.", "ellipsoidal Irl_1975", "  surface: airy_modified", "  longitude_range: L180"]);
    let expected = "/// Irland.\npub const IRL_1975: Irl1975Model = Irl1975Model {};\n\n/// Struct for model: Irland.\n#[derive(Clone, Copy, Debug, PartialEq)]\npub struct Irl1975Model {}\n\nimpl Model for Irl1975Model {\n    type Surface = Ellipsoid;\n    fn model_id(&self) -> ModelId {\n        ModelId::new(\"IRL_1975\".to_string())\n    }\n    fn longitude_range(&self) -> LongitudeRange {\n        LongitudeRange::L180\n    }\n    fn surface(&self) -> Ellipsoid {\n        crate::surfaces::AIRY_MODIFIED_ELLIPSOID\n    }\n}\n\nimpl Ellipsoidal for Irl1975Model {}\n\n";
    assert_eq!(expected, gen_model(model_def(&t)));
}

#[test]
fn gen_model_spherical() {
    let t = model_text(&["# Moon IAU/IAG.", "spherical Moon", "  surface: moon", "  longitude_range: L180"]);
    let expected = "/// Moon IAU/IAG.\npub const MOON: MoonModel = MoonModel {};\n\n/// Struct for model: Moon IAU/IAG.\n#[derive(Clone, Copy, Debug, PartialEq)]\npub struct MoonModel {}\n\nimpl Model for MoonModel {\n    type Surface = Sphere;\n    fn model_id(&self) -> ModelId {\n        ModelId::new(\"MOON\".to_string())\n    }\n    fn longitude_range(&self) -> LongitudeRange {\n        LongitudeRange::L180\n    }\n    fn surface(&self) -> Sphere {\n        crate::surfaces::MOON_SPHERE\n    }\n}\n\nimpl Spherical for MoonModel {}\n\n";
    assert_eq!(expected, gen_model(model_def(&t)));
}

#[test]
fn model_imports_names() {
    assert_eq!(
        "Ellipsoid, Ellipsoidal, LongitudeRange, Model, ModelId, Sphere, Spherical",
        model_imports()
    );
}

#[test]
fn render_model_uses_given_upper_case_names() {
    let m = model_def(&model_text(&["# c", "spherical a_b", "  surface: s", "  longitude_range: L360"]));
    let out = jord::gen::model::render_model(&m, "X_Y", "SURF");
    assert!(out.starts_with("/// c\npub const X_Y: abModel = abModel {};\n"));
    assert!(out.contains("ModelId::new(\"X_Y\".to_string())"));
    assert!(out.contains("crate::surfaces::SURF_SPHERE\n"));
    assert!(out.ends_with("impl Spherical for abModel {}\n\n"));
}
