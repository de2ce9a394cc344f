//! Model descriptions: parsing and generation of the Rust declarations of a model.

use vstd::prelude::*;
use vstd::string::*;

use crate::gen::text::{
    next_if_prefixed_spec, next_spec, split_view, ParseError, ParseErrorView, Text,
};
use crate::gen::text::{has_prefix, lemma_prefix_concat, lemma_prefix_split};
use crate::gen::words::{
    after_word, first_two_words, is_ascii_ws, lemma_skip_ws_at, lemma_two_words, lemma_word_end_at, next_word,
    skip_ws, word_end, word_from,
};

verus! {

/// The kind of reference surface of a model.
#[derive(Debug, Clone, Copy, PartialEq, Eq)]
pub enum Type {
    Spherical,
    Ellipsoidal,
}

/// A model as described in a model description file.
pub struct ModelDef {
    pub comment: String,
    pub mtype: Type,
    pub id: String,
    pub surface: String,
    pub longitude_range: String,
}

/// A model description as plain character sequences.
pub struct ModelDefView {
    pub comment: Seq<char>,
    pub mtype: Type,
    pub id: Seq<char>,
    pub surface: Seq<char>,
    pub longitude_range: Seq<char>,
}

impl View for ModelDef {
    type V = ModelDefView;

    open spec fn view(&self) -> ModelDefView {
        ModelDefView {
            comment: self.comment@,
            mtype: self.mtype,
            id: self.id@,
            surface: self.surface@,
            longitude_range: self.longitude_range@,
        }
    }
}

/// What `str::to_uppercase` returns for a string.
pub uninterp spec fn uppercase(s: Seq<char>) -> Seq<char>;

/// Calls `str::to_uppercase`; its result is named [uppercase] of the argument.
#[verifier::external_body]
pub(crate) fn to_uppercase(s: &str) -> (r: String)
    ensures
        r@ == uppercase(s@),
{
    s.to_uppercase()
}

/// `s` without its underscores.
pub open spec fn without_underscores(s: Seq<char>) -> Seq<char> {
    s.filter(|c: char| c != '_')
}

/// Dropping the underscores of a text keeps its other characters, in order, and leaves no
/// underscore; a text without underscores is kept as it is.
pub proof fn lemma_without_underscores(s: Seq<char>)
    ensures
        forall|i: int|
            0 <= i < without_underscores(s).len() ==> #[trigger] without_underscores(s)[i] != '_',
        without_underscores(s).len() <= s.len(),
        (forall|i: int| 0 <= i < s.len() ==> #[trigger] s[i] != '_') ==> without_underscores(s) == s,
    decreases s.len(),
{
    broadcast use vstd::seq_lib::group_filter_ensures;

    if s.len() > 0 {
        let p = s.drop_last();
        lemma_without_underscores(p);
        assert(s =~= p.push(s.last()));
        p.lemma_filter_push(s.last(), |c: char| c != '_');
    } else {
        assert(without_underscores(s) =~= s);
    }
}

/// The model type named by a word.
pub open spec fn type_of_word(w: Seq<char>) -> Option<Type> {
    if w == "ellipsoidal"@ {
        Some(Type::Ellipsoidal)
    } else if w == "spherical"@ {
        Some(Type::Spherical)
    } else {
        None
    }
}

/// What parsing a model description from `lines` gives: the model and the remaining lines, or
/// why it fails.
pub open spec fn parse_model_spec(lines: Seq<Seq<char>>) -> Result<
    (ModelDefView, Seq<Seq<char>>),
    ParseErrorView,
> {
    match next_if_prefixed_spec(lines, "# "@) {
        Err(e) => Err(e),
        Ok((comment, l1)) => match next_spec(l1) {
            Err(e) => Err(e),
            Ok((type_id, l2)) => match word_from(type_id, 0) {
                None => Err(ParseErrorView::MissingType),
                Some(t) => match type_of_word(t) {
                    None => Err(ParseErrorView::InvalidType(t)),
                    Some(mtype) => match word_from(type_id, after_word(type_id, 0)) {
                        None => Err(ParseErrorView::MissingId),
                        Some(id) => match next_if_prefixed_spec(l2, "  surface: "@) {
                            Err(e) => Err(e),
                            Ok((surface, l3)) => match next_if_prefixed_spec(
                                l3,
                                "  longitude_range: "@,
                            ) {
                                Err(e) => Err(e),
                                Ok((longitude_range, l4)) => Ok(
                                    (
                                        ModelDefView {
                                            comment,
                                            mtype,
                                            id,
                                            surface,
                                            longitude_range,
                                        },
                                        l4,
                                    ),
                                ),
                            },
                        },
                    },
                },
            },
        },
    }
}

/// A model description takes exactly four lines: what is left after it is the text without
/// its first four lines.
pub proof fn lemma_parse_model_takes_four_lines(lines: Seq<Seq<char>>)
    requires
        parse_model_spec(lines) is Ok,
    ensures
        parse_model_spec(lines)->Ok_0.1 == lines.skip(4),
        parse_model_spec(lines)->Ok_0.1.len() < lines.len(),
{
    assert(lines.drop_first().drop_first().drop_first().drop_first() =~= lines.skip(4));
}

/// Reading a model always shortens the text, as reading a whole description requires of
/// the function that reads its items.
pub proof fn lemma_parse_model_shortens()
    ensures
        forall|t: Text, o: Result<(ModelDef, Text), ParseError>|
            call_ensures(parse_model, (&t,), o) ==> (o matches Ok((_, t2)) ==> t2@.len()
                < t@.len()),
{
    assert forall|t: Text, o: Result<(ModelDef, Text), ParseError>|
        call_ensures(parse_model, (&t,), o) implies (o matches Ok((_, t2)) ==> t2@.len()
        < t@.len()) by {
        if o is Ok {
            lemma_parse_model_takes_four_lines(t@);
        }
    }
}

/// The word that names a model type in a description.
pub open spec fn type_word(t: Type) -> Seq<char> {
    match t {
        Type::Ellipsoidal => "ellipsoidal"@,
        Type::Spherical => "spherical"@,
    }
}

/// What a successfully read model is made of: its first line is `# ` followed by the comment;
/// the first two words of its second line are the word of its type (`ellipsoidal` or
/// `spherical`) and its identifier; its third line is `  surface: ` followed by the surface and
/// its fourth is `  longitude_range: ` followed by the longitude range. The lines after these
/// are left.
pub proof fn lemma_parse_model_reads_lines(lines: Seq<Seq<char>>)
    requires
        parse_model_spec(lines) is Ok,
    ensures
        ({
            let (m, rest) = parse_model_spec(lines)->Ok_0;
            &&& lines.len() >= 4
            &&& "# "@ + m.comment == lines[0]
            &&& first_two_words(
                lines[1],
                if m.mtype == Type::Ellipsoidal {
                    "ellipsoidal"@
                } else {
                    "spherical"@
                },
                m.id,
            )
            &&& "  surface: "@ + m.surface == lines[2]
            &&& "  longitude_range: "@ + m.longitude_range == lines[3]
            &&& rest == lines.skip(4)
        }),
{
    lemma_prefix_split(lines[0], "# "@);
    lemma_two_words(lines[1]);
    lemma_prefix_split(lines[2], "  surface: "@);
    lemma_prefix_split(lines[3], "  longitude_range: "@);
    lemma_parse_model_takes_four_lines(lines);
}

/// A model description is read as that model: when the text holds `# ` and a comment, a line
/// whose first two words are the word of a type and an identifier, `  surface: ` and a surface,
/// and `  longitude_range: ` and a longitude range, reading it gives these and leaves the lines
/// after them.
pub proof fn lemma_parse_model_description(
    lines: Seq<Seq<char>>,
    comment: Seq<char>,
    mtype: Type,
    id: Seq<char>,
    surface: Seq<char>,
    longitude_range: Seq<char>,
)
    requires
        lines.len() >= 4,
        lines[0] == "# "@ + comment,
        first_two_words(lines[1], type_word(mtype), id),
        lines[2] == "  surface: "@ + surface,
        lines[3] == "  longitude_range: "@ + longitude_range,
    ensures
        parse_model_spec(lines) == Ok::<(ModelDefView, Seq<Seq<char>>), ParseErrorView>(
            (ModelDefView { comment, mtype, id, surface, longitude_range }, lines.skip(4)),
        ),
{
    reveal_strlit("ellipsoidal");
    reveal_strlit("spherical");
    lemma_prefix_concat("# "@, comment);
    lemma_prefix_concat("  surface: "@, surface);
    lemma_prefix_concat("  longitude_range: "@, longitude_range);
    let line = lines[1];
    let (a, b, c, d) = choose|a: int, b: int, c: int, d: int|
        {
            &&& 0 <= a < b < c < d <= line.len()
            &&& forall|k: int| 0 <= k < a ==> is_ascii_ws(#[trigger] line[k])
            &&& forall|k: int| a <= k < b ==> !is_ascii_ws(#[trigger] line[k])
            &&& forall|k: int| b <= k < c ==> is_ascii_ws(#[trigger] line[k])
            &&& forall|k: int| c <= k < d ==> !is_ascii_ws(#[trigger] line[k])
            &&& (d == line.len() || is_ascii_ws(line[d]))
            &&& type_word(mtype) == line.subrange(a, b)
            &&& id == line.subrange(c, d)
        };
    lemma_skip_ws_at(line, 0, a);
    lemma_word_end_at(line, a, b);
    lemma_skip_ws_at(line, b, c);
    lemma_word_end_at(line, c, d);
    assert(skip_ws(line, 0) == a);
    assert(word_end(line, a) == b);
    assert(after_word(line, 0) == b);
    assert(word_from(line, 0) == Some(type_word(mtype)));
    assert(word_from(line, b) == Some(id));
    assert("ellipsoidal"@ != "spherical"@) by {
        assert("ellipsoidal"@[0] != "spherical"@[0]);
    }
    assert(lines.drop_first().drop_first().drop_first().drop_first() =~= lines.skip(4));
}

/// `text` ends with `suffix`.
pub open spec fn has_suffix(text: Seq<char>, suffix: Seq<char>) -> bool {
    suffix.len() <= text.len() && text.subrange(text.len() - suffix.len(), text.len() as int)
        == suffix
}

/// `needle` occurs in `text`.
pub open spec fn has_fragment(text: Seq<char>, needle: Seq<char>) -> bool {
    exists|before: Seq<char>, after: Seq<char>| text == before + needle + after
}

/// The generated declarations of a model write its longitude range, whatever the type of the
/// model: `LongitudeRange::` followed by the model's longitude range and a line break.
pub proof fn lemma_model_text_longitude_range(m: ModelDefView, upper_id: Seq<char>, upper_surface: Seq<char>)
    ensures
        has_fragment(
            model_text(m, upper_id, upper_surface),
            "LongitudeRange::"@ + m.longitude_range + "\n"@,
        ),
{
    let lit = "\".to_string())\n    }\n    fn longitude_range(&self) -> LongitudeRange {\n        LongitudeRange::"@;
    let lit_a = "\".to_string())\n    }\n    fn longitude_range(&self) -> LongitudeRange {\n        "@;
    let lit2 = "\n    }\n    fn surface(&self) -> "@;
    let lit2_b = "    }\n    fn surface(&self) -> "@;
    reveal_strlit("\".to_string())\n    }\n    fn longitude_range(&self) -> LongitudeRange {\n        LongitudeRange::");
    reveal_strlit("\".to_string())\n    }\n    fn longitude_range(&self) -> LongitudeRange {\n        ");
    reveal_strlit("LongitudeRange::");
    reveal_strlit("\n    }\n    fn surface(&self) -> ");
    reveal_strlit("    }\n    fn surface(&self) -> ");
    reveal_strlit("\n");
    assert(lit =~= lit_a + "LongitudeRange::"@);
    assert(lit2 =~= "\n"@ + lit2_b);
    let (st, sc) = surface_names(m, upper_surface);
    let before = def_text(m, upper_id) + ("impl Model for "@ + model_type_name(m)
        + "Model {\n    type Surface = "@ + st
        + ";\n    fn model_id(&self) -> ModelId {\n        ModelId::new(\""@ + upper_id + lit_a);
    let after = lit2_b + st + " {\n        crate::surfaces::"@ + sc + "\n    }\n}\n\n"@
        + type_impl_text(m);
    assert(model_text(m, upper_id, upper_surface) =~= before + ("LongitudeRange::"@
        + m.longitude_range + "\n"@) + after);
}

/// The generated declarations of a model start with its comment as a doc line.
pub proof fn lemma_model_text_doc_line(m: ModelDefView, upper_id: Seq<char>, upper_surface: Seq<char>)
    ensures
        has_prefix(model_text(m, upper_id, upper_surface), "/// "@ + m.comment + "\n"@),
{
    reveal_strlit("\npub const ");
    reveal_strlit("\n");
    reveal_strlit("pub const ");
    let t = without_underscores(m.id);
    let text = model_text(m, upper_id, upper_surface);
    assert("\npub const "@ =~= "\n"@ + "pub const "@);
    let after = "pub const "@ + upper_id + ": "@ + t + "Model = "@ + t
        + "Model {};\n\n/// Struct for model: "@ + m.comment
        + "\n#[derive(Clone, Copy, Debug, PartialEq)]\npub struct "@ + t + "Model {}\n\n"@
        + impl_text(m, upper_id, upper_surface) + type_impl_text(m);
    assert(text =~= "/// "@ + m.comment + "\n"@ + after);
    lemma_prefix_concat("/// "@ + m.comment + "\n"@, after);
}

/// The generated declarations of a model declare the constant named by the upper-case
/// identifier, of the model type named by the identifier without its underscores.
pub proof fn lemma_model_text_constant(m: ModelDefView, upper_id: Seq<char>, upper_surface: Seq<char>)
    ensures
        ({
            let t = without_underscores(m.id);
            has_fragment(
                model_text(m, upper_id, upper_surface),
                "pub const "@ + upper_id + ": "@ + t + "Model = "@ + t + "Model {};\n"@,
            )
        }),
{
    reveal_strlit("\npub const ");
    reveal_strlit("\n");
    reveal_strlit("pub const ");
    reveal_strlit("Model {};\n\n/// Struct for model: ");
    reveal_strlit("Model {};\n");
    reveal_strlit("\n/// Struct for model: ");
    let t = without_underscores(m.id);
    let text = model_text(m, upper_id, upper_surface);
    assert("\npub const "@ =~= "\n"@ + "pub const "@);
    assert("Model {};\n\n/// Struct for model: "@ =~= "Model {};\n"@ + "\n/// Struct for model: "@);
    let before = "/// "@ + m.comment + "\n"@;
    let after = "\n/// Struct for model: "@ + m.comment
        + "\n#[derive(Clone, Copy, Debug, PartialEq)]\npub struct "@ + t + "Model {}\n\n"@
        + impl_text(m, upper_id, upper_surface) + type_impl_text(m);
    assert(text =~= before + ("pub const "@ + upper_id + ": "@ + t + "Model = "@ + t
        + "Model {};\n"@) + after);
}

/// The generated declarations of a model declare the model type, named by the identifier
/// without its underscores, documented by the comment.
pub proof fn lemma_model_text_struct(m: ModelDefView, upper_id: Seq<char>, upper_surface: Seq<char>)
    ensures
        has_fragment(
            model_text(m, upper_id, upper_surface),
            "/// Struct for model: "@ + m.comment
                + "\n#[derive(Clone, Copy, Debug, PartialEq)]\npub struct "@ + without_underscores(
                m.id,
            ) + "Model {}\n"@,
        ),
{
    reveal_strlit("Model {};\n\n/// Struct for model: ");
    reveal_strlit("Model {};\n\n");
    reveal_strlit("/// Struct for model: ");
    reveal_strlit("Model {}\n\n");
    reveal_strlit("Model {}\n");
    reveal_strlit("\n");
    let t = without_underscores(m.id);
    assert("Model {};\n\n/// Struct for model: "@ =~= "Model {};\n\n"@ + "/// Struct for model: "@);
    assert("Model {}\n\n"@ =~= "Model {}\n"@ + "\n"@);
    let before = "/// "@ + m.comment + "\npub const "@ + upper_id + ": "@ + t + "Model = "@ + t
        + "Model {};\n\n"@;
    let needle = "/// Struct for model: "@ + m.comment
        + "\n#[derive(Clone, Copy, Debug, PartialEq)]\npub struct "@ + t + "Model {}\n"@;
    let after = "\n"@ + impl_text(m, upper_id, upper_surface) + type_impl_text(m);
    assert(model_text(m, upper_id, upper_surface) =~= before + needle + after);
}

/// The generated declarations of a model give the upper-case identifier as the model
/// identifier.
pub proof fn lemma_model_text_id(m: ModelDefView, upper_id: Seq<char>, upper_surface: Seq<char>)
    ensures
        has_fragment(
            model_text(m, upper_id, upper_surface),
            "ModelId::new(\""@ + upper_id + "\".to_string())"@,
        ),
{
    reveal_strlit(";\n    fn model_id(&self) -> ModelId {\n        ModelId::new(\"");
    reveal_strlit(";\n    fn model_id(&self) -> ModelId {\n        ");
    reveal_strlit("ModelId::new(\"");
    reveal_strlit("\".to_string())\n    }\n    fn longitude_range(&self) -> LongitudeRange {\n        LongitudeRange::");
    reveal_strlit("\".to_string())");
    reveal_strlit("\n    }\n    fn longitude_range(&self) -> LongitudeRange {\n        LongitudeRange::");
    let t = without_underscores(m.id);
    let text = model_text(m, upper_id, upper_surface);
    let (st, sc) = surface_names(m, upper_surface);
    let l3a = ";\n    fn model_id(&self) -> ModelId {\n        "@;
    assert(";\n    fn model_id(&self) -> ModelId {\n        ModelId::new(\""@ =~= l3a + "ModelId::new(\""@);
    let l4b = "\n    }\n    fn longitude_range(&self) -> LongitudeRange {\n        LongitudeRange::"@;
    assert("\".to_string())\n    }\n    fn longitude_range(&self) -> LongitudeRange {\n        LongitudeRange::"@
        =~= "\".to_string())"@ + l4b);
    let before = def_text(m, upper_id) + "impl Model for "@ + t + "Model {\n    type Surface = "@ + st + l3a;
    let after = l4b + m.longitude_range + "\n    }\n    fn surface(&self) -> "@ + st
        + " {\n        crate::surfaces::"@ + sc + "\n    }\n}\n\n"@ + type_impl_text(m);
    assert(text =~= before + ("ModelId::new(\""@ + upper_id + "\".to_string())"@) + after);
}

/// The generated declarations of a model name its surface type: `Ellipsoid` for an
/// ellipsoidal model, `Sphere` for a spherical one.
pub proof fn lemma_model_text_surface_type(m: ModelDefView, upper_id: Seq<char>, upper_surface: Seq<char>)
    ensures
        has_fragment(
            model_text(m, upper_id, upper_surface),
            "type Surface = "@ + (if m.mtype == Type::Ellipsoidal {
                "Ellipsoid"@
            } else {
                "Sphere"@
            }) + ";"@,
        ),
{
    reveal_strlit("Model {\n    type Surface = ");
    reveal_strlit("Model {\n    ");
    reveal_strlit("type Surface = ");
    reveal_strlit(";");
    reveal_strlit(";\n    fn model_id(&self) -> ModelId {\n        ModelId::new(\"");
    reveal_strlit("\n    fn model_id(&self) -> ModelId {\n        ModelId::new(\"");
    let t = without_underscores(m.id);
    let text = model_text(m, upper_id, upper_surface);
    let (st, sc) = surface_names(m, upper_surface);
    let l5a = "Model {\n    "@;
    assert("Model {\n    type Surface = "@ =~= l5a + "type Surface = "@);
    let l3c = "\n    fn model_id(&self) -> ModelId {\n        ModelId::new(\""@;
    assert(";\n    fn model_id(&self) -> ModelId {\n        ModelId::new(\""@ =~= ";"@ + l3c);
    let before = def_text(m, upper_id) + "impl Model for "@ + t + l5a;
    let after = l3c + upper_id
        + "\".to_string())\n    }\n    fn longitude_range(&self) -> LongitudeRange {\n        LongitudeRange::"@
        + m.longitude_range + "\n    }\n    fn surface(&self) -> "@ + st
        + " {\n        crate::surfaces::"@ + sc + "\n    }\n}\n\n"@ + type_impl_text(m);
    assert(text =~= before + ("type Surface = "@ + st + ";"@) + after);
}

/// The generated declarations of a model return the surface constant named by the upper-case
/// surface name followed by `_ELLIPSOID` for an ellipsoidal model or `_SPHERE` for a spherical
/// one.
pub proof fn lemma_model_text_surface(m: ModelDefView, upper_id: Seq<char>, upper_surface: Seq<char>)
    ensures
        has_fragment(
            model_text(m, upper_id, upper_surface),
            "crate::surfaces::"@ + upper_surface + (if m.mtype == Type::Ellipsoidal {
                "_ELLIPSOID"@
            } else {
                "_SPHERE"@
            }) + "\n"@,
        ),
{
    reveal_strlit(" {\n        crate::surfaces::");
    reveal_strlit(" {\n        ");
    reveal_strlit("crate::surfaces::");
    reveal_strlit("\n    }\n}\n\n");
    reveal_strlit("    }\n}\n\n");
    reveal_strlit("\n");
    let t = without_underscores(m.id);
    let text = model_text(m, upper_id, upper_surface);
    let (st, sc) = surface_names(m, upper_surface);
    let l6a = " {\n        "@;
    assert(" {\n        crate::surfaces::"@ =~= l6a + "crate::surfaces::"@);
    let l7b = "    }\n}\n\n"@;
    assert("\n    }\n}\n\n"@ =~= "\n"@ + l7b);
    let before = def_text(m, upper_id) + "impl Model for "@ + t + "Model {\n    type Surface = "@ + st
        + ";\n    fn model_id(&self) -> ModelId {\n        ModelId::new(\""@ + upper_id
        + "\".to_string())\n    }\n    fn longitude_range(&self) -> LongitudeRange {\n        LongitudeRange::"@
        + m.longitude_range + "\n    }\n    fn surface(&self) -> "@ + st + l6a;
    let suffix = if m.mtype == Type::Ellipsoidal {
        "_ELLIPSOID"@
    } else {
        "_SPHERE"@
    };
    let needle = "crate::surfaces::"@ + upper_surface + suffix + "\n"@;
    assert(needle =~= "crate::surfaces::"@ + sc + "\n"@);
    assert(text =~= before + needle + (l7b + type_impl_text(m)));
}

/// The generated declarations of a model end with the implementation of the marker trait of
/// its type for the model type.
pub proof fn lemma_model_text_marker(m: ModelDefView, upper_id: Seq<char>, upper_surface: Seq<char>)
    ensures
        has_suffix(
            model_text(m, upper_id, upper_surface),
            "impl "@ + (if m.mtype == Type::Ellipsoidal {
                "Ellipsoidal"@
            } else {
                "Spherical"@
            }) + " for "@ + without_underscores(m.id) + "Model {}\n\n"@,
        ),
{
    let text = model_text(m, upper_id, upper_surface);
    let tt = type_impl_text(m);
    assert(text.subrange(text.len() - tt.len(), text.len() as int) =~= tt);
}

/// The names the generated model declarations import.
pub fn model_imports() -> (r: String)
    ensures
        r@ == "Ellipsoid, Ellipsoidal, LongitudeRange, Model, ModelId, Sphere, Spherical"@,
{
    String::from_str("Ellipsoid, Ellipsoidal, LongitudeRange, Model, ModelId, Sphere, Spherical")
}

/// Parses a model description: a `# ` comment line, a line holding the type
/// (`ellipsoidal` or `spherical`) and the identifier, a `  surface: ` line and a
/// `  longitude_range: ` line.
pub fn parse_model(text: &Text) -> (r: Result<(ModelDef, Text), ParseError>)
    ensures
        match r {
            Ok((m, t)) => parse_model_spec(text@) == Ok::<(ModelDefView, Seq<Seq<char>>), ParseErrorView>((m@, t@)),
            Err(e) => parse_model_spec(text@) == Err::<(ModelDefView, Seq<Seq<char>>), ParseErrorView>(e@),
        },
{
    let r1 = text.next_if_prefixed("# ");
    let (comment, txt) = match r1 {
        Err(e) => return Err(e),
        Ok(v) => v,
    };
    let r2 = txt.next();
    let (type_id, txt) = match r2 {
        Err(e) => return Err(e),
        Ok(v) => v,
    };
    let (t, after) = match next_word(type_id.as_str(), 0) {
        None => return Err(ParseError::MissingType),
        Some(v) => v,
    };
    let mtype = if t.eq(&String::from_str("ellipsoidal")) {
        Type::Ellipsoidal
    } else if t.eq(&String::from_str("spherical")) {
        Type::Spherical
    } else {
        return Err(ParseError::InvalidType(t));
    };
    let id = match next_word(type_id.as_str(), after) {
        None => return Err(ParseError::MissingId),
        Some((i, _)) => i,
    };
    let r3 = txt.next_if_prefixed("  surface: ");
    let (surface, txt) = match r3 {
        Err(e) => return Err(e),
        Ok(v) => v,
    };
    let r4 = txt.next_if_prefixed("  longitude_range: ");
    let (longitude_range, txt) = match r4 {
        Err(e) => return Err(e),
        Ok(v) => v,
    };
    Ok((ModelDef { comment, mtype, id, surface, longitude_range }, txt))
}

/// The name of the generated model type: the identifier without its underscores.
pub open spec fn model_type_name(m: ModelDefView) -> Seq<char> {
    without_underscores(m.id)
}

/// The generated constant and struct declarations of a model.
/// `upper_id` is the identifier in upper case.
pub open spec fn def_text(m: ModelDefView, upper_id: Seq<char>) -> Seq<char> {
    let t = model_type_name(m);
    "/// "@ + m.comment + "\npub const "@ + upper_id + ": "@ + t + "Model = "@ + t
        + "Model {};\n\n/// Struct for model: "@ + m.comment
        + "\n#[derive(Clone, Copy, Debug, PartialEq)]\npub struct "@ + t + "Model {}\n\n"@
}

/// The surface type and the name of the surface constant of a model, `upper_surface` being
/// the surface name in upper case.
pub open spec fn surface_names(m: ModelDefView, upper_surface: Seq<char>) -> (Seq<char>, Seq<char>) {
    match m.mtype {
        Type::Ellipsoidal => ("Ellipsoid"@, upper_surface + "_ELLIPSOID"@),
        Type::Spherical => ("Sphere"@, upper_surface + "_SPHERE"@),
    }
}

/// The generated `Model` implementation of a model, given its identifier and surface name in
/// upper case.
pub open spec fn impl_text(m: ModelDefView, upper_id: Seq<char>, upper_surface: Seq<char>) -> Seq<
    char,
> {
    let (st, sc) = surface_names(m, upper_surface);
    "impl Model for "@ + model_type_name(m) + "Model {\n    type Surface = "@ + st
        + ";\n    fn model_id(&self) -> ModelId {\n        ModelId::new(\""@ + upper_id
        + "\".to_string())\n    }\n    fn longitude_range(&self) -> LongitudeRange {\n        LongitudeRange::"@
        + m.longitude_range + "\n    }\n    fn surface(&self) -> "@ + st
        + " {\n        crate::surfaces::"@ + sc + "\n    }\n}\n\n"@
}

/// The name of the marker trait of a model type.
pub open spec fn type_trait(t: Type) -> Seq<char> {
    match t {
        Type::Ellipsoidal => "Ellipsoidal"@,
        Type::Spherical => "Spherical"@,
    }
}

/// The generated marker trait implementation of a model.
pub open spec fn type_impl_text(m: ModelDefView) -> Seq<char> {
    "impl "@ + type_trait(m.mtype) + " for "@ + model_type_name(m) + "Model {}\n\n"@
}

/// All the generated declarations of a model, given its identifier and surface name in upper
/// case.
pub open spec fn model_text(m: ModelDefView, upper_id: Seq<char>, upper_surface: Seq<char>) -> Seq<
    char,
> {
    def_text(m, upper_id) + impl_text(m, upper_id, upper_surface) + type_impl_text(m)
}

/// Generates the declarations of a model.
pub fn gen_model(model: ModelDef) -> (r: String)
    ensures
        r@ == model_text(model@, uppercase(model@.id), uppercase(model@.surface)),
{
    let upper_id = to_uppercase(model.id.as_str());
    let upper_surface = to_uppercase(model.surface.as_str());
    render_model(&model, upper_id.as_str(), upper_surface.as_str())
}

/// Writes the declarations of a model, given its identifier and surface name in upper case.
pub fn render_model(model: &ModelDef, upper_id: &str, upper_surface: &str) -> (r: String)
    ensures
        r@ == model_text(model@, upper_id@, upper_surface@),
{
    let mut s = gen_def(model, upper_id);
    let i = gen_impl(model, upper_id, upper_surface);
    s.append(i.as_str());
    let t = gen_type_impl(model);
    s.append(t.as_str());
    s
}

fn gen_def(model: &ModelDef, up: &str) -> (r: String)
    ensures
        r@ == def_text(model@, up@),
{
    let t = model_id_type(model);
    let mut s = String::from_str("/// ");
    s.append(model.comment.as_str());
    s.append("\npub const ");
    s.append(up);
    s.append(": ");
    s.append(t.as_str());
    s.append("Model = ");
    s.append(t.as_str());
    s.append("Model {};\n\n/// Struct for model: ");
    s.append(model.comment.as_str());
    s.append("\n#[derive(Clone, Copy, Debug, PartialEq)]\npub struct ");
    s.append(t.as_str());
    s.append("Model {}\n\n");
    s
}

fn gen_impl(model: &ModelDef, up: &str, upper_surface: &str) -> (r: String)
    ensures
        r@ == impl_text(model@, up@, upper_surface@),
{
    let (surface_type, surface) = match model.mtype {
        Type::Ellipsoidal => ("Ellipsoid", String::from_str(upper_surface).concat("_ELLIPSOID")),
        Type::Spherical => ("Sphere", String::from_str(upper_surface).concat("_SPHERE")),
    };
    let t = model_id_type(model);
    let mut s = String::from_str("impl Model for ");
    s.append(t.as_str());
    s.append("Model {\n    type Surface = ");
    s.append(surface_type);
    s.append(";\n    fn model_id(&self) -> ModelId {\n        ModelId::new(\"");
    s.append(up);
    s.append("\".to_string())\n    }\n    fn longitude_range(&self) -> LongitudeRange {\n        LongitudeRange::");
    s.append(model.longitude_range.as_str());
    s.append("\n    }\n    fn surface(&self) -> ");
    s.append(surface_type);
    s.append(" {\n        crate::surfaces::");
    s.append(surface.as_str());
    s.append("\n    }\n}\n\n");
    s
}

fn gen_type_impl(model: &ModelDef) -> (r: String)
    ensures
        r@ == type_impl_text(model@),
{
    let mtrait = match model.mtype {
        Type::Ellipsoidal => "Ellipsoidal",
        Type::Spherical => "Spherical",
    };
    let t = model_id_type(model);
    let mut s = String::from_str("impl ");
    s.append(mtrait);
    s.append(" for ");
    s.append(t.as_str());
    s.append("Model {}\n\n");
    s
}

fn model_id_type(model: &ModelDef) -> (r: String)
    ensures
        r@ == model_type_name(model@),
{
    let id = model.id.as_str();
    let n = id.unicode_len();
    let mut s = String::new();
    let mut i: usize = 0;
    while i < n
        invariant
            n == id@.len(),
            i <= n,
            s@ == without_underscores(id@.subrange(0, i as int)),
        decreases n - i,
    {
        let c = id.get_char(i);
        proof {
            let pre = id@.subrange(0, i as int);
            assert(id@.subrange(0, i + 1) =~= pre.push(c));
            pre.lemma_filter_push(c, |c: char| c != '_');
        }
        if c != '_' {
            let one = id.substring_char(i, i + 1);
            proof {
                assert(one@ =~= seq![c]);
            }
            s.append(one);
        }
        i = i + 1;
    }
    proof {
        assert(id@.subrange(0, n as int) =~= id@);
    }
    s
}

} // verus!
