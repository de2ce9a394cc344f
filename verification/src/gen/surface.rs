//! Surface descriptions: parsing, and generation of the Rust declarations of a surface.
//!
//! The lengths and the inverse flattening of a surface are read and written as decimal text
//! here; turning that text into floating-point values (and back) is left to the caller.

use vstd::prelude::*;
use vstd::string::*;

use crate::gen::model::{has_fragment, has_suffix, uppercase};
use crate::gen::text::{
    drop_empty, has_prefix, lemma_prefix_concat, lemma_prefix_split, next_if_prefixed_spec, next_spec, starts_with_prefixed, ParseError,
    ParseErrorView, Text,
};

verus! {

/// The size of a surface, as written in a surface description.
pub enum SurfaceData {
    /// A sphere of the given radius, in metres.
    Sphere { radius: String },
    /// An ellipsoid of the given equatorial radius, in metres, and inverse flattening.
    Ellipsoid { equatorial_radius: String, inverse_flattening: String },
}

/// A surface as described in a surface description file.
pub struct SurfaceDef {
    pub comment: String,
    pub name: String,
    pub data: SurfaceData,
}

/// [SurfaceData] as plain character sequences.
pub enum SurfaceDataView {
    Sphere { radius: Seq<char> },
    Ellipsoid { equatorial_radius: Seq<char>, inverse_flattening: Seq<char> },
}

/// [SurfaceDef] as plain character sequences.
pub struct SurfaceDefView {
    pub comment: Seq<char>,
    pub name: Seq<char>,
    pub data: SurfaceDataView,
}

impl View for SurfaceDef {
    type V = SurfaceDefView;

    open spec fn view(&self) -> SurfaceDefView {
        SurfaceDefView {
            comment: self.comment@,
            name: self.name@,
            data: match &self.data {
                SurfaceData::Sphere { radius } => SurfaceDataView::Sphere { radius: radius@ },
                SurfaceData::Ellipsoid { equatorial_radius, inverse_flattening } =>
                    SurfaceDataView::Ellipsoid {
                    equatorial_radius: equatorial_radius@,
                    inverse_flattening: inverse_flattening@,
                },
            },
        }
    }
}

/// What reading a length in metres from `s` gives: the number text before the final `m`.
pub open spec fn parse_metres_spec(s: Seq<char>) -> Result<Seq<char>, ParseErrorView> {
    if s.len() > 0 && s.last() == 'm' {
        Ok(s.drop_last())
    } else {
        Err(ParseErrorView::MissingMetreUnit)
    }
}

/// Reading a length succeeds exactly when the text ends with `m`, and the number text followed
/// by `m` is the text.
pub proof fn lemma_parse_metres_spec(s: Seq<char>)
    ensures
        parse_metres_spec(s) is Ok <==> (s.len() > 0 && s[s.len() - 1] == 'm'),
        parse_metres_spec(s) matches Ok(v) ==> v + "m"@ == s,
{
    reveal_strlit("m");
    if s.len() > 0 && s[s.len() - 1] == 'm' {
        assert(s.drop_last() + "m"@ =~= s);
    }
}

/// What parsing a surface description from `lines` gives: the surface and the remaining
/// lines, or why it fails.
pub open spec fn parse_surface_spec(lines: Seq<Seq<char>>) -> Result<
    (SurfaceDefView, Seq<Seq<char>>),
    ParseErrorView,
> {
    match next_if_prefixed_spec(drop_empty(lines), "# "@) {
        Err(e) => Err(e),
        Ok((comment, l1)) => match next_spec(l1) {
            Err(e) => Err(e),
            Ok((name, l2)) => match next_if_prefixed_spec(l2, "  a: "@) {
                Err(_) => match next_if_prefixed_spec(l2, "  r: "@) {
                    Err(e) => Err(e),
                    Ok((r, l3)) => match parse_metres_spec(r) {
                        Err(e) => Err(e),
                        Ok(radius) => Ok(
                            (
                                SurfaceDefView {
                                    comment,
                                    name,
                                    data: SurfaceDataView::Sphere { radius },
                                },
                                l3,
                            ),
                        ),
                    },
                },
                Ok((a, l3)) => match next_if_prefixed_spec(l3, "  1/f: "@) {
                    Err(e) => Err(e),
                    Ok((invf, l4)) => match parse_metres_spec(a) {
                        Err(e) => Err(e),
                        Ok(equatorial_radius) => Ok(
                            (
                                SurfaceDefView {
                                    comment,
                                    name,
                                    data: SurfaceDataView::Ellipsoid {
                                        equatorial_radius,
                                        inverse_flattening: invf,
                                    },
                                },
                                l4,
                            ),
                        ),
                    },
                },
            },
        },
    }
}

/// A surface description takes, after its leading empty lines, three lines for a sphere and
/// four for an ellipsoid; what is left is shorter than the text.
pub proof fn lemma_parse_surface_lines(lines: Seq<Seq<char>>)
    requires
        parse_surface_spec(lines) is Ok,
    ensures
        ({
            let (d, rest) = parse_surface_spec(lines)->Ok_0;
            &&& d.data is Sphere ==> rest == drop_empty(lines).skip(3)
            &&& d.data is Ellipsoid ==> rest == drop_empty(lines).skip(4)
            &&& rest.len() < lines.len()
        }),
{
    let l = drop_empty(lines);
    crate::gen::driver::lemma_drop_empty_len(lines);
    let (d, _) = parse_surface_spec(lines)->Ok_0;
    if d.data is Sphere {
        assert(l.drop_first().drop_first().drop_first() =~= l.skip(3));
    } else {
        assert(l.drop_first().drop_first().drop_first().drop_first() =~= l.skip(4));
    }
}

/// What a successfully read surface is made of: after the leading empty lines of the text,
/// the first line is `# ` followed by the comment and the second is the name; a sphere's
/// third line is `  r: ` followed by its radius and `m`; an ellipsoid's third line is `  a: `
/// followed by its equatorial radius and `m`, and its fourth is `  1/f: ` followed by its
/// inverse flattening. The lines after these are left.
pub proof fn lemma_parse_surface_reads_lines(lines: Seq<Seq<char>>)
    requires
        parse_surface_spec(lines) is Ok,
    ensures
        ({
            let l = drop_empty(lines);
            let (d, rest) = parse_surface_spec(lines)->Ok_0;
            &&& l.len() >= 3
            &&& "# "@ + d.comment == l[0]
            &&& d.name == l[1]
            &&& match d.data {
                SurfaceDataView::Sphere { radius } => {
                    &&& "  r: "@ + radius + "m"@ == l[2]
                    &&& !has_prefix(l[2], "  a: "@)
                    &&& rest == l.skip(3)
                },
                SurfaceDataView::Ellipsoid { equatorial_radius, inverse_flattening } => {
                    &&& l.len() >= 4
                    &&& "  a: "@ + equatorial_radius + "m"@ == l[2]
                    &&& "  1/f: "@ + inverse_flattening == l[3]
                    &&& rest == l.skip(4)
                },
            }
        }),
{
    reveal_strlit("m");
    let l = drop_empty(lines);
    let (d, rest) = parse_surface_spec(lines)->Ok_0;
    lemma_prefix_split(l[0], "# "@);
    match d.data {
        SurfaceDataView::Sphere { radius } => {
            let r = l[2].skip("  r: "@.len() as int);
            lemma_prefix_split(l[2], "  r: "@);
            assert(r =~= r.drop_last().push('m'));
            assert("  r: "@ + radius + "m"@ =~= "  r: "@ + r);
            assert(l.drop_first().drop_first().drop_first() =~= l.skip(3));
        },
        SurfaceDataView::Ellipsoid { equatorial_radius, inverse_flattening } => {
            let a = l[2].skip("  a: "@.len() as int);
            lemma_prefix_split(l[2], "  a: "@);
            lemma_prefix_split(l[3], "  1/f: "@);
            assert(a =~= a.drop_last().push('m'));
            assert("  a: "@ + equatorial_radius + "m"@ =~= "  a: "@ + a);
            assert(l.drop_first().drop_first().drop_first().drop_first() =~= l.skip(4));
        },
    }
}

/// A sphere description is read as that sphere: when, after the leading empty lines, the text
/// holds `# ` and a comment, a name, and `  r: ` followed by a radius and `m`, reading it gives
/// that comment, name and radius, and leaves the lines after them.
pub proof fn lemma_parse_sphere_description(
    lines: Seq<Seq<char>>,
    comment: Seq<char>,
    name: Seq<char>,
    radius: Seq<char>,
)
    requires
        drop_empty(lines).len() >= 3,
        drop_empty(lines)[0] == "# "@ + comment,
        drop_empty(lines)[1] == name,
        drop_empty(lines)[2] == "  r: "@ + radius + "m"@,
    ensures
        parse_surface_spec(lines) == Ok::<(SurfaceDefView, Seq<Seq<char>>), ParseErrorView>(
            (
                SurfaceDefView { comment, name, data: SurfaceDataView::Sphere { radius } },
                drop_empty(lines).skip(3),
            ),
        ),
{
    reveal_strlit("  r: ");
    reveal_strlit("  a: ");
    reveal_strlit("m");
    let l = drop_empty(lines);
    lemma_prefix_concat("# "@, comment);
    lemma_prefix_concat("  r: "@, radius + "m"@);
    assert("  r: "@ + radius + "m"@ =~= "  r: "@ + (radius + "m"@));
    assert(l[2][2] == 'r');
    assert(!has_prefix(l[2], "  a: "@)) by {
        if has_prefix(l[2], "  a: "@) {
            assert(l[2].subrange(0, 5)[2] == 'a');
        }
    }
    assert((radius + "m"@).drop_last() =~= radius);
    assert(l.drop_first().drop_first().drop_first() =~= l.skip(3));
}

/// An ellipsoid description is read as that ellipsoid: when, after the leading empty lines,
/// the text holds `# ` and a comment, a name, `  a: ` followed by an equatorial radius and `m`,
/// and `  1/f: ` followed by an inverse flattening, reading it gives those values and leaves
/// the lines after them.
pub proof fn lemma_parse_ellipsoid_description(
    lines: Seq<Seq<char>>,
    comment: Seq<char>,
    name: Seq<char>,
    equatorial_radius: Seq<char>,
    inverse_flattening: Seq<char>,
)
    requires
        drop_empty(lines).len() >= 4,
        drop_empty(lines)[0] == "# "@ + comment,
        drop_empty(lines)[1] == name,
        drop_empty(lines)[2] == "  a: "@ + equatorial_radius + "m"@,
        drop_empty(lines)[3] == "  1/f: "@ + inverse_flattening,
    ensures
        parse_surface_spec(lines) == Ok::<(SurfaceDefView, Seq<Seq<char>>), ParseErrorView>(
            (
                SurfaceDefView {
                    comment,
                    name,
                    data: SurfaceDataView::Ellipsoid { equatorial_radius, inverse_flattening },
                },
                drop_empty(lines).skip(4),
            ),
        ),
{
    reveal_strlit("m");
    let l = drop_empty(lines);
    lemma_prefix_concat("# "@, comment);
    lemma_prefix_concat("  a: "@, equatorial_radius + "m"@);
    assert("  a: "@ + equatorial_radius + "m"@ =~= "  a: "@ + (equatorial_radius + "m"@));
    lemma_prefix_concat("  1/f: "@, inverse_flattening);
    assert((equatorial_radius + "m"@).drop_last() =~= equatorial_radius);
    assert(l.drop_first().drop_first().drop_first().drop_first() =~= l.skip(4));
}

/// Reading a surface always shortens the text.
pub proof fn lemma_parse_surface_shortens()
    ensures
        forall|t: Text, o: Result<(SurfaceDef, Text), ParseError>|
            call_ensures(parse_surface, (&t,), o) ==> (o matches Ok((_, t2)) ==> t2@.len()
                < t@.len()),
{
    assert forall|t: Text, o: Result<(SurfaceDef, Text), ParseError>|
        call_ensures(parse_surface, (&t,), o) implies (o matches Ok((_, t2)) ==> t2@.len()
        < t@.len()) by {
        if o is Ok {
            lemma_parse_surface_lines(t@);
        }
    }
}

/// The lengths that a surface description is read from are not empty: reading the unit of an
/// empty length is refused.
pub open spec fn surface_lengths_not_empty(lines: Seq<Seq<char>>) -> bool {
    match next_if_prefixed_spec(drop_empty(lines), "# "@) {
        Err(_) => true,
        Ok((_, l1)) => match next_spec(l1) {
            Err(_) => true,
            Ok((_, l2)) => match next_if_prefixed_spec(l2, "  a: "@) {
                Err(_) => match next_if_prefixed_spec(l2, "  r: "@) {
                    Err(_) => true,
                    Ok((r, _)) => r.len() > 0,
                },
                Ok((a, l3)) => starts_with_prefixed(l3, "  1/f: "@) ==> a.len() > 0,
            },
        },
    }
}

/// The names the generated surface declarations import.
pub fn surface_imports() -> (r: String)
    ensures
        r@ == "Ellipsoid, Length, Sphere"@,
{
    String::from_str("Ellipsoid, Length, Sphere")
}

/// Reads a length in metres: returns the number text before the final `m`.
pub fn parse_metres(s: String) -> (r: Result<String, ParseError>)
    requires
        s@.len() > 0,
    ensures
        match r {
            Ok(v) => parse_metres_spec(s@) == Ok::<Seq<char>, ParseErrorView>(v@),
            Err(e) => parse_metres_spec(s@) == Err::<Seq<char>, ParseErrorView>(e@),
        },
{
    let n = s.as_str().unicode_len();
    let last = s.as_str().get_char(n - 1);
    if last == 'm' {
        let v = s.as_str().substring_char(0, n - 1);
        Ok(String::from_str(v))
    } else {
        Err(ParseError::MissingMetreUnit)
    }
}

/// Tells whether the lengths that [parse_surface] reads from `text` are not empty, which
/// [parse_surface] requires.
pub fn surface_lengths_present(text: &Text) -> (r: bool)
    ensures
        r == surface_lengths_not_empty(text@),
{
    let txt = text.skip_empty();
    let txt = match txt.next_if_prefixed("# ") {
        Err(_) => return true,
        Ok((_, t)) => t,
    };
    let txt = match txt.next() {
        Err(_) => return true,
        Ok((_, t)) => t,
    };
    match txt.next_if_prefixed("  a: ") {
        Err(_) => match txt.next_if_prefixed("  r: ") {
            Err(_) => true,
            Ok((r, _)) => r.as_str().unicode_len() > 0,
        },
        Ok((a, t)) => match t.next_if_prefixed("  1/f: ") {
            Err(_) => true,
            Ok(_) => a.as_str().unicode_len() > 0,
        },
    }
}

/// Parses a surface description: after any empty lines, a `# ` comment line, a line holding
/// the name, then either a `  r: ` line (a sphere) or a `  a: ` line followed by a `  1/f: `
/// line (an ellipsoid). Lengths end with the unit `m`.
pub fn parse_surface(text: &Text) -> (r: Result<(SurfaceDef, Text), ParseError>)
    requires
        surface_lengths_not_empty(text@),
    ensures
        match r {
            Ok((d, t)) => parse_surface_spec(text@) == Ok::<
                (SurfaceDefView, Seq<Seq<char>>),
                ParseErrorView,
            >((d@, t@)),
            Err(e) => parse_surface_spec(text@) == Err::<
                (SurfaceDefView, Seq<Seq<char>>),
                ParseErrorView,
            >(e@),
        },
{
    let txt = text.skip_empty();
    let (comment, txt) = match txt.next_if_prefixed("# ") {
        Err(e) => return Err(e),
        Ok(v) => v,
    };
    let (name, txt) = match txt.next() {
        Err(e) => return Err(e),
        Ok(v) => v,
    };
    match txt.next_if_prefixed("  a: ") {
        Err(_) => {
            let (r, txt) = match txt.next_if_prefixed("  r: ") {
                Err(e) => return Err(e),
                Ok(v) => v,
            };
            let radius = match parse_metres(r) {
                Err(e) => return Err(e),
                Ok(v) => v,
            };
            Ok((SurfaceDef { comment, name, data: SurfaceData::Sphere { radius } }, txt))
        },
        Ok((a, txt)) => {
            let (invf, txt) = match txt.next_if_prefixed("  1/f: ") {
                Err(e) => return Err(e),
                Ok(v) => v,
            };
            let equatorial_radius = match parse_metres(a) {
                Err(e) => return Err(e),
                Ok(v) => v,
            };
            Ok(
                (
                    SurfaceDef {
                        comment,
                        name,
                        data: SurfaceData::Ellipsoid { equatorial_radius, inverse_flattening: invf },
                    },
                    txt,
                ),
            )
        },
    }
}

/// The generated declaration of a sphere, its radius given as the decimal text of a number
/// of micrometres.
/// `upper_name` is the name of the sphere in upper case.
pub open spec fn sphere_text(c: Seq<char>, upper_name: Seq<char>, radius: Seq<char>) -> Seq<char> {
    "/// "@ + c + "\npub const "@ + upper_name + ": Sphere = Sphere::new(Length::from_micrometres("@
        + radius + "));\n\n"@
}

/// The generated declarations of an ellipsoid and of the sphere derived from it, lengths
/// given as decimal texts of numbers of micrometres.
/// `upper_name` is the name of the ellipsoid in upper case.
pub open spec fn ellipsoid_text(
    c: Seq<char>,
    upper_name: Seq<char>,
    equatorial: Seq<char>,
    polar: Seq<char>,
    eccentricity: Seq<char>,
    flattening: Seq<char>,
    mean: Seq<char>,
) -> Seq<char> {
    "/// "@ + c + "\npub const "@ + upper_name
        + ": Ellipsoid = Ellipsoid::from_all(\n    Length::from_micrometres("@ + equatorial
        + "),\n    Length::from_micrometres("@ + polar + "),\n    "@ + eccentricity + ",\n    "@
        + flattening + ",\n);\n\n/// "@ + ("Sphere derived from: "@ + c) + "\npub const "@ + (
    upper_name + "_SPHERE"@) + ": Sphere = Sphere::new(Length::from_micrometres("@ + mean
        + "));\n\n"@
}

/// The declaration of a sphere is its comment as a doc line, then the constant named by the
/// upper-case name, a sphere of the given radius.
pub proof fn lemma_sphere_text_parts(c: Seq<char>, upper_name: Seq<char>, radius: Seq<char>)
    ensures
        has_prefix(sphere_text(c, upper_name, radius), "/// "@ + c + "\n"@),
        has_suffix(
            sphere_text(c, upper_name, radius),
            "pub const "@ + upper_name + ": Sphere = Sphere::new(Length::from_micrometres("@
                + radius + "));\n\n"@,
        ),
{
    reveal_strlit("\npub const ");
    reveal_strlit("\n");
    reveal_strlit("pub const ");
    assert("\npub const "@ =~= "\n"@ + "pub const "@);
    let decl = "pub const "@ + upper_name + ": Sphere = Sphere::new(Length::from_micrometres("@
        + radius + "));\n\n"@;
    let text = sphere_text(c, upper_name, radius);
    assert(text =~= ("/// "@ + c + "\n"@) + decl);
    lemma_prefix_concat("/// "@ + c + "\n"@, decl);
    assert(text.subrange(text.len() - decl.len(), text.len() as int) =~= decl);
}

/// The declarations of an ellipsoid are its comment as a doc line; the constant named by the
/// upper-case name, an ellipsoid of the given equatorial radius, polar radius, eccentricity and
/// flattening, in this order; then the sphere derived from it, documented as derived from the
/// comment, named by the upper-case name followed by `_SPHERE`, of the given mean radius.
pub proof fn lemma_ellipsoid_text_parts(
    c: Seq<char>,
    upper_name: Seq<char>,
    equatorial: Seq<char>,
    polar: Seq<char>,
    eccentricity: Seq<char>,
    flattening: Seq<char>,
    mean: Seq<char>,
)
    ensures
        ({
            let text = ellipsoid_text(
                c,
                upper_name,
                equatorial,
                polar,
                eccentricity,
                flattening,
                mean,
            );
            &&& has_prefix(text, "/// "@ + c + "\n"@)
            &&& has_fragment(
                text,
                "pub const "@ + upper_name
                    + ": Ellipsoid = Ellipsoid::from_all(\n    Length::from_micrometres("@
                    + equatorial + "),\n    Length::from_micrometres("@ + polar + "),\n    "@
                    + eccentricity + ",\n    "@ + flattening + ",\n);\n"@,
            )
            &&& has_suffix(
                text,
                "/// "@ + "Sphere derived from: "@ + c + "\npub const "@ + upper_name
                    + "_SPHERE"@ + ": Sphere = Sphere::new(Length::from_micrometres("@ + mean
                    + "));\n\n"@,
            )
        }),
{
    reveal_strlit("\npub const ");
    reveal_strlit("\n");
    reveal_strlit("pub const ");
    reveal_strlit(",\n);\n\n/// ");
    reveal_strlit(",\n);\n");
    reveal_strlit("\n/// ");
    reveal_strlit("/// ");
    assert("\npub const "@ =~= "\n"@ + "pub const "@);
    assert(",\n);\n\n/// "@ =~= ",\n);\n"@ + "\n/// "@);
    assert("\n/// "@ =~= "\n"@ + "/// "@);
    let text = ellipsoid_text(c, upper_name, equatorial, polar, eccentricity, flattening, mean);
    let head = "/// "@ + c + "\n"@;
    let decl = "pub const "@ + upper_name
        + ": Ellipsoid = Ellipsoid::from_all(\n    Length::from_micrometres("@ + equatorial
        + "),\n    Length::from_micrometres("@ + polar + "),\n    "@ + eccentricity
        + ",\n    "@ + flattening + ",\n);\n"@;
    let sphere = "/// "@ + "Sphere derived from: "@ + c + "\npub const "@ + upper_name
        + "_SPHERE"@ + ": Sphere = Sphere::new(Length::from_micrometres("@ + mean
        + "));\n\n"@;
    assert(text =~= head + decl + ("\n"@ + sphere));
    lemma_prefix_concat(head, decl + ("\n"@ + sphere));
    assert(text =~= head + (decl + ("\n"@ + sphere)));
    assert(text =~= (head + decl + "\n"@) + sphere);
    assert(text.subrange(text.len() - sphere.len(), text.len() as int) =~= sphere);
}

/// Generates the declaration of a sphere named `n` described by `c`.
pub fn gen_sphere(c: String, n: String, radius: String) -> (r: String)
    ensures
        r@ == sphere_text(c@, uppercase(n@), radius@),
{
    let up = crate::gen::model::to_uppercase(n.as_str());
    render_sphere(c, up, radius)
}

/// Writes the declaration of a sphere described by `c`, given its name in upper case.
pub fn render_sphere(c: String, up: String, radius: String) -> (r: String)
    ensures
        r@ == sphere_text(c@, up@, radius@),
{
    let mut s = String::from_str("/// ");
    s.append(c.as_str());
    s.append("\npub const ");
    s.append(up.as_str());
    s.append(": Sphere = Sphere::new(Length::from_micrometres(");
    s.append(radius.as_str());
    s.append("));\n\n");
    s
}

/// Generates the declarations of an ellipsoid named `n` described by `c`, and of the sphere
/// derived from it.
pub fn gen_ellispoid(
    c: String,
    n: String,
    equatorial: String,
    polar: String,
    eccentricity: String,
    flattening: String,
    mean: String,
) -> (r: String)
    ensures
        r@ == ellipsoid_text(
            c@,
            uppercase(n@),
            equatorial@,
            polar@,
            eccentricity@,
            flattening@,
            mean@,
        ),
{
    let up = crate::gen::model::to_uppercase(n.as_str());
    render_ellipsoid(c, up, equatorial, polar, eccentricity, flattening, mean)
}

/// Writes the declarations of an ellipsoid described by `c` and of the sphere derived from
/// it, given its name in upper case.
pub fn render_ellipsoid(
    c: String,
    up: String,
    equatorial: String,
    polar: String,
    eccentricity: String,
    flattening: String,
    mean: String,
) -> (r: String)
    ensures
        r@ == ellipsoid_text(c@, up@, equatorial@, polar@, eccentricity@, flattening@, mean@),
{
    let mut s = String::from_str("/// ");
    s.append(c.as_str());
    s.append("\npub const ");
    s.append(up.as_str());
    s.append(": Ellipsoid = Ellipsoid::from_all(\n    Length::from_micrometres(");
    s.append(equatorial.as_str());
    s.append("),\n    Length::from_micrometres(");
    s.append(polar.as_str());
    s.append("),\n    ");
    s.append(eccentricity.as_str());
    s.append(",\n    ");
    s.append(flattening.as_str());
    s.append(",\n);\n\n/// ");
    let derived = String::from_str("Sphere derived from: ").concat(c.as_str());
    s.append(derived.as_str());
    s.append("\npub const ");
    let sphere_name = up.concat("_SPHERE");
    s.append(sphere_name.as_str());
    s.append(": Sphere = Sphere::new(Length::from_micrometres(");
    s.append(mean.as_str());
    s.append("));\n\n");
    s
}

} // verus!
