use jord::gen::surface::{
    gen_ellispoid, gen_sphere, parse_metres, parse_surface, surface_imports,
    surface_lengths_present, SurfaceData, SurfaceDef,
};
use jord::gen::text::{ParseError, Text};

fn surface_text(lines: &[&str]) -> Text {
    Text::new(lines.iter().map(|l| l.to_string()).collect())
}

fn surface_def(t: &Text) -> SurfaceDef {
    assert!(surface_lengths_present(t));
    match parse_surface(t) {
        Ok((s, _)) => s,
        Err(e) => panic!("unexpected error: {:?}", e),
    }
}

#[test]
fn parse_sphere() {
    let t = surface_text(&["", "", "# Moon IAU/IAG.", "moon", "  r: 1737400m", "", "# x"]);
    assert!(surface_lengths_present(&t));
    let (s, rest) = parse_surface(&t).unwrap();
    assert_eq!("Moon IAU/IAG.", s.comment);
    assert_eq!("moon", s.name);
    match s.data {
        SurfaceData::Sphere { radius } => assert_eq!("1737400", radius),
        _ => panic!("expected a sphere"),
    }
    let (l, rest) = rest.next().unwrap();
    assert_eq!("", l);
    let (l, rest) = rest.next().unwrap();
    assert_eq!("# x", l);
    assert!(rest.is_eot());
}

#[test]
fn parse_ellipsoid() {
    let t = surface_text(&["# World Geodetic System 1984.", "wgs84", "  a: 6378137m", "  1/f: 298.257223563"]);
    let s = surface_def(&t);
    assert_eq!("wgs84", s.name);
    match s.data {
        SurfaceData::Ellipsoid { equatorial_radius, inverse_flattening } => {
            assert_eq!("6378137", equatorial_radius);
            assert_eq!("298.257223563", inverse_flattening);
        }
        _ => panic!("expected an ellipsoid"),
    }
}

#[test]
fn parse_surface_missing_unit() {
    let t = surface_text(&["# c", "s", "  r: 1737400"]);
    assert!(surface_lengths_present(&t));
    assert!(matches!(parse_surface(&t), Err(ParseError::MissingMetreUnit)));
    let t = surface_text(&["# c", "s", "  r: 1737400km"]);
    match parse_surface(&t).unwrap().0.data {
        SurfaceData::Sphere { radius } => assert_eq!("1737400k", radius),
        _ => panic!("expected a sphere"),
    }
}

#[test]
fn parse_surface_missing_inverse_flattening() {
    let t = surface_text(&["# c", "e", "  a: 1m", "  r: 2m"]);
    match parse_surface(&t) {
        Err(ParseError::MissingPrefix { expected, found }) => {
            assert_eq!("  1/f: ", expected);
            assert_eq!(Some("  r: 2m".to_string()), found);
        }
        _ => panic!("expected a missing prefix"),
    }
}

#[test]
fn parse_surface_neither_sphere_nor_ellipsoid() {
    let t = surface_text(&["# c", "e", "  b: 1m"]);
    match parse_surface(&t) {
        Err(ParseError::MissingPrefix { expected, found }) => {
            assert_eq!("  r: ", expected);
            assert_eq!(Some("  b: 1m".to_string()), found);
        }
        _ => panic!("expected a missing prefix"),
    }
}

#[test]
fn parse_surface_missing_name() {
    let t = surface_text(&["# c"]);
    assert!(matches!(parse_surface(&t), Err(ParseError::EndOfText)));
}

#[test]
fn empty_length_is_detected() {
    assert!(!surface_lengths_present(&surface_text(&["# c", "s", "  r: "])));
    assert!(!surface_lengths_present(&surface_text(&["# c", "e", "  a: ", "  1/f: 3"])));
    assert!(surface_lengths_present(&surface_text(&["# c", "e", "  a: "])));
}

#[test]
fn parse_metres_values() {
    assert_eq!(Ok("12.5".to_string()), parse_metres("12.5m".to_string()));
    assert_eq!(Ok("".to_string()), parse_metres("m".to_string()));
    assert_eq!(Err(ParseError::MissingMetreUnit), parse_metres("12.5".to_string()));
}

#[test]
fn gen_sphere_text() {
    let s = gen_sphere("Moon IAU/IAG.".to_string(), "moon".to_string(), "1737400000000".to_string());
    assert_eq!(
        "/// Moon IAU/IAG.\npub const MOON: Sphere = Sphere::new(Length::from_micrometres(1737400000000));\n\n",
        s
    );
}

#[test]
fn gen_ellipsoid_text() {
    let s = gen_ellispoid(
        "WGS 84.".to_string(),
        "wgs84".to_string(),
        "6378137000000".to_string(),
        "6356752314245".to_string(),
        "0.08181919084262149".to_string(),
        "0.0033528106647474805".to_string(),
        "6371008771415".to_string(),
    );
    let expected = "/// WGS 84.
pub const WGS84: Ellipsoid = Ellipsoid::from_all(
    Length::from_micrometres(6378137000000),
    Length::from_micrometres(6356752314245),
    0.08181919084262149,
    0.0033528106647474805,
);

/// Sphere derived from: WGS 84.
pub const WGS84_SPHERE: Sphere = Sphere::new(Length::from_micrometres(6371008771415));

";
    assert_eq!(expected, s);
}

#[test]
fn surface_imports_names() {
    assert_eq!("Ellipsoid, Length, Sphere", surface_imports());
}

#[test]
fn render_sphere_uses_given_name() {
    let s = jord::gen::surface::render_sphere("c".to_string(), "Moon".to_string(), "1".to_string());
    assert_eq!("/// c\npub const Moon: Sphere = Sphere::new(Length::from_micrometres(1));\n\n", s);
}

#[test]
fn render_ellipsoid_uses_given_name() {
    let s = jord::gen::surface::render_ellipsoid(
        "c".to_string(),
        "E".to_string(),
        "1".to_string(),
        "2".to_string(),
        "3".to_string(),
        "4".to_string(),
        "5".to_string(),
    );
    assert!(s.starts_with("/// c\npub const E: Ellipsoid = Ellipsoid::from_all(\n"));
    assert!(s.ends_with("/// Sphere derived from: c\npub const E_SPHERE: Sphere = Sphere::new(Length::from_micrometres(5));\n\n"));
}
