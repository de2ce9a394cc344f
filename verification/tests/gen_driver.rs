use jord::gen::driver::{header, parse, parse_comments, parse_module, write_comments};
use jord::gen::model::{gen_model, parse_model, Type};
use jord::gen::text::{ParseError, Text};

fn driver_text(lines: &[&str]) -> Text {
    Text::new(lines.iter().map(|l| l.to_string()).collect())
}

#[test]
fn comments_after_empty_lines() {
    let (cs, rest) = parse_comments(driver_text(&["", "# one", "# two", "#three", "# four"]));
    assert_eq!(vec!["one".to_string(), "two".to_string()], cs);
    let (l, _) = rest.next().unwrap();
    assert_eq!("#three", l);
}

#[test]
fn no_comments() {
    let (cs, rest) = parse_comments(driver_text(&["mod models"]));
    assert!(cs.is_empty());
    assert!(!rest.is_eot());
}

#[test]
fn module_line() {
    let (m, rest) = parse_module(driver_text(&["", "mod models", "x"])).unwrap();
    assert_eq!("models", m);
    let (l, _) = rest.next().unwrap();
    assert_eq!("x", l);
}

#[test]
fn module_line_missing() {
    assert!(matches!(
        parse_module(driver_text(&["module models"])),
        Err(ParseError::MissingPrefix { .. })
    ));
}

#[test]
fn parse_models_description() {
    let t = driver_text(&[
        "# Common ellipsoidal and spherical models.",
        "",
        "mod models",
        "",
        "# World Geodetic System 1984.",
        "ellipsoidal WGS84",
        "  surface: wgs84",
        "  longitude_range: L180",
        "",
        "# Moon IAU/IAG.",
        "spherical Moon",
        "  surface: moon",
        "  longitude_range: L180",
        "",
        "",
    ]);
    let (cs, m, models) = parse(t, parse_model).unwrap();
    assert_eq!(vec!["Common ellipsoidal and spherical models.".to_string()], cs);
    assert_eq!("models", m);
    assert_eq!(2, models.len());
    assert_eq!("WGS84", models[0].id);
    assert_eq!(Type::Spherical, models[1].mtype);
}

#[test]
fn parse_models_error_in_item() {
    let t = driver_text(&["mod models", "# WGS84", "planar WGS84", "  surface: wgs84", "  longitude_range: L180"]);
    match parse(t, parse_model) {
        Err(ParseError::InvalidType(ty)) => assert_eq!("planar", ty),
        _ => panic!("expected an invalid type"),
    }
}

#[test]
fn parse_without_items_fails() {
    let t = driver_text(&["mod models", ""]);
    assert!(matches!(parse(t, parse_model), Err(ParseError::MissingPrefix { .. })));
}

#[test]
fn parse_without_module_fails() {
    let t = driver_text(&["# c", "# WGS84"]);
    match parse(t, parse_model) {
        Err(ParseError::MissingPrefix { expected, found }) => {
            assert_eq!("mod ", expected);
            assert_eq!(None, found);
        }
        _ => panic!("expected a missing module line"),
    }
}

#[test]
fn parse_then_generate() {
    let t = driver_text(&["mod models", "# Moon.", "spherical Moon", "  surface: moon", "  longitude_range: L360"]);
    let (_, _, models) = parse(t, parse_model).unwrap();
    let out: String = models.into_iter().map(gen_model).collect();
    assert!(out.starts_with("/// Moon.\npub const MOON: MoonModel = MoonModel {};\n"));
    assert!(out.contains("        LongitudeRange::L360\n"));
    assert!(out.ends_with("impl Spherical for MoonModel {}\n\n"));
}

#[test]
fn comments_text() {
    assert_eq!("\n", write_comments(&vec![]));
    assert_eq!("//! a\n//!//! b\n//!\n", write_comments(&vec!["a".to_string(), "b".to_string()]));
}

#[test]
fn header_text() {
    assert_eq!(
        "// Copyright: (c) 2020 Cedric Liegeois\n// License: BSD3\n\n//! c\n//!\n\nuse crate::{X, Y};\n\n",
        header(&vec!["c".to_string()], "X, Y")
    );
}

#[test]
fn comments_give_back_their_lines() {
    let lines = ["# a", "# ", "#  b", "mod m"];
    let (cs, rest) = parse_comments(driver_text(&lines));
    let rebuilt: Vec<String> = cs.iter().map(|c| format!("# {}", c)).collect();
    assert_eq!(vec!["# a".to_string(), "# ".to_string(), "#  b".to_string()], rebuilt);
    let (l, rest) = rest.next().unwrap();
    assert_eq!("mod m", l);
    assert!(rest.is_eot());
}
