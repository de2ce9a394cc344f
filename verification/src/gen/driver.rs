//! Reading a whole description file (leading comments, a module line, then items) and the
//! text that starts a generated source file.

use vstd::prelude::*;
use vstd::string::*;

use crate::gen::model::{has_fragment, has_suffix};
use crate::gen::text::{
    drop_empty, has_prefix, lemma_next_if_prefixed_reconstructs, lemma_prefix_concat,
    lemma_prefix_split, lines_view, next_if_prefixed_spec, starts_with_prefixed, LineSplit, ParseError,
    ParseErrorView, Text,
};

verus! {

/// The leading `# ` comment lines of `lines` (without the prefix) and the lines after them.
pub open spec fn comments_spec(lines: Seq<Seq<char>>) -> (Seq<Seq<char>>, Seq<Seq<char>>)
    decreases lines.len(),
{
    if starts_with_prefixed(lines, "# "@) {
        let (cs, rest) = comments_spec(lines.drop_first());
        (seq![lines[0].skip(2)] + cs, rest)
    } else {
        (Seq::empty(), lines)
    }
}

/// The comment lines read from `lines` are exactly its leading lines that start with `# `:
/// putting the prefix back on each comment and appending the remaining lines gives `lines`
/// back, and the remaining lines do not start with `# `.
pub proof fn lemma_comments_reconstruct(lines: Seq<Seq<char>>)
    ensures
        comments_spec(lines).0.map_values(|c: Seq<char>| "# "@ + c) + comments_spec(lines).1
            == lines,
        !starts_with_prefixed(comments_spec(lines).1, "# "@),
    decreases lines.len(),
{
    reveal_strlit("# ");
    if starts_with_prefixed(lines, "# "@) {
        let rest = lines.drop_first();
        lemma_comments_reconstruct(rest);
        let (cs, r) = comments_spec(rest);
        let f = |c: Seq<char>| "# "@ + c;
        assert(lines[0] =~= "# "@ + lines[0].skip(2));
        assert((seq![lines[0].skip(2)] + cs).map_values(f) =~= seq![f(lines[0].skip(2))]
            + cs.map_values(f));
        assert(lines =~= seq![lines[0]] + rest);
        assert(seq![lines[0]] + cs.map_values(f) + r =~= seq![lines[0]] + (cs.map_values(f)
            + r));
    } else {
        assert(Seq::<Seq<char>>::empty().map_values(|c: Seq<char>| "# "@ + c) + lines =~= lines);
    }
}

/// Reading the module line of `lines`: after any empty lines, a line starting with `mod `.
pub open spec fn parse_module_spec(lines: Seq<Seq<char>>) -> LineSplit {
    next_if_prefixed_spec(drop_empty(lines), "mod "@)
}

/// The lines left after the comments and the module line of `lines`, if the module line is
/// there.
pub open spec fn items_start(lines: Seq<Seq<char>>) -> LineSplit {
    parse_module_spec(comments_spec(drop_empty(lines)).1)
}

/// Dropping empty lines never makes a text longer.
pub proof fn lemma_drop_empty_len(lines: Seq<Seq<char>>)
    ensures
        drop_empty(lines).len() <= lines.len(),
    decreases lines.len(),
{
    if lines.len() > 0 && lines[0].len() == 0 {
        lemma_drop_empty_len(lines.drop_first());
    }
}

/// `parse_one` turned the texts `inputs` into `items`, each time leaving the text in
/// `outputs`; each input after the first is the previous output without its leading empty
/// lines, and is not empty.
pub open spec fn parse_chain<T, F: Fn(&Text) -> Result<(T, Text), ParseError>>(
    parse_one: F,
    inputs: Seq<Text>,
    outputs: Seq<Text>,
    items: Seq<T>,
) -> bool {
    &&& inputs.len() == items.len()
    &&& outputs.len() == items.len()
    &&& forall|i: int|
        0 <= i < items.len() ==> call_ensures(
            parse_one,
            (&inputs[i],),
            Ok::<(T, Text), ParseError>((items[i], outputs[i])),
        )
    &&& forall|i: int|
        0 <= i < items.len() - 1 ==> #[trigger] inputs[i + 1]@ == drop_empty(outputs[i]@)
            && inputs[i + 1]@.len() > 0
}

/// The text that the next call of `parse_one` reads after the chain: the first text when the
/// chain is empty, else the last output without its leading empty lines.
pub open spec fn chain_next(first: Seq<Seq<char>>, outputs: Seq<Text>) -> Seq<Seq<char>> {
    if outputs.len() == 0 {
        first
    } else {
        drop_empty(outputs.last()@)
    }
}

/// `parse_one` read one or more `items` from `rest` (after its leading empty lines) and
/// left only empty lines.
pub open spec fn parsed_items<T, F: Fn(&Text) -> Result<(T, Text), ParseError>>(
    parse_one: F,
    rest: Seq<Seq<char>>,
    items: Seq<T>,
) -> bool {
    &&& items.len() > 0
    &&& exists|inputs: Seq<Text>, outputs: Seq<Text>|
        {
            &&& parse_chain(parse_one, inputs, outputs, items)
            &&& inputs[0]@ == drop_empty(rest)
            &&& drop_empty(outputs.last()@).len() == 0
        }
}

/// `parse_one` read some items from `rest` (after its leading empty lines), then failed
/// with `e` on the text that followed them.
pub open spec fn failed_items<T, F: Fn(&Text) -> Result<(T, Text), ParseError>>(
    parse_one: F,
    rest: Seq<Seq<char>>,
    e: ParseError,
) -> bool {
    exists|inputs: Seq<Text>, outputs: Seq<Text>, items: Seq<T>, last: Text|
        {
            &&& parse_chain(parse_one, inputs, outputs, items)
            &&& (items.len() > 0 ==> inputs[0]@ == drop_empty(rest))
            &&& last@ == chain_next(drop_empty(rest), outputs)
            &&& call_ensures(parse_one, (&last,), Err::<(T, Text), ParseError>(e))
        }
}

/// Reads the leading `# ` comment lines, after any empty lines: returns the comments
/// without their prefix and the rest of the text.
pub fn parse_comments(text: Text) -> (r: (Vec<String>, Text))
    ensures
        (lines_view(r.0@), r.1@) == comments_spec(drop_empty(text@)),
{
    let mut txt = text.skip_empty();
    let ghost start = txt@;
    let mut comments: Vec<String> = Vec::new();
    loop
        invariant
            lines_view(comments@) + comments_spec(txt@).0 == comments_spec(start).0,
            comments_spec(txt@).1 == comments_spec(start).1,
            start == drop_empty(text@),
        decreases txt@.len(),
    {
        match txt.next_if_prefixed("# ") {
            Err(_) => {
                proof {
                    assert(lines_view(comments@) + comments_spec(txt@).0 =~= lines_view(comments@));
                }
                return (comments, txt);
            },
            Ok((cmt, rtxt)) => {
                proof {
                    reveal_strlit("# ");
                    assert(comments_spec(txt@).0 =~= seq![cmt@] + comments_spec(rtxt@).0);
                    assert(lines_view(comments@.push(cmt)) =~= lines_view(comments@).push(cmt@));
                    assert(lines_view(comments@).push(cmt@) + comments_spec(rtxt@).0
                        =~= lines_view(comments@) + comments_spec(txt@).0);
                }
                comments.push(cmt);
                txt = rtxt;
            },
        }
    }
}

/// Reads the module line: after any empty lines, a line starting with `mod `; returns the
/// module name and the rest of the text.
pub fn parse_module(text: Text) -> (r: Result<(String, Text), ParseError>)
    ensures
        crate::gen::text::split_view(r) == parse_module_spec(text@),
{
    let txt = text.skip_empty();
    txt.next_if_prefixed("mod ")
}

/// Reads a whole description: its leading comments, its module line, then one or more
/// items read by `parse_one` until only empty lines are left.
pub fn parse<F, T>(text: Text, parse_one: F) -> (r: Result<(Vec<String>, String, Vec<T>), ParseError>)
    where
        F: Fn(&Text) -> Result<(T, Text), ParseError>,
    requires
        forall|t: Text| call_requires(parse_one, (&t,)),
        forall|t: Text, o: Result<(T, Text), ParseError>|
            call_ensures(parse_one, (&t,), o) ==> (o matches Ok((_, t2)) ==> t2@.len() < t@.len()),
    ensures
        r matches Ok((cs, m, items)) ==> {
            &&& lines_view(cs@) == comments_spec(drop_empty(text@)).0
            &&& items_start(text@) is Ok
            &&& m@ == items_start(text@)->Ok_0.0
            &&& parsed_items(parse_one, items_start(text@)->Ok_0.1, items@)
        },
        r matches Err(e) ==> {
            ||| items_start(text@) == Err::<(Seq<char>, Seq<Seq<char>>), ParseErrorView>(e@)
            ||| items_start(text@) is Ok && failed_items(parse_one, items_start(text@)->Ok_0.1, e)
        },
{
    let (comments, txt) = parse_comments(text);
    let (module, txt) = match parse_module(txt) {
        Err(e) => return Err(e),
        Ok(v) => v,
    };
    let ghost rest0 = txt@;
    let mut vec: Vec<T> = Vec::new();
    let mut rest = txt.skip_empty();
    let ghost mut inputs: Seq<Text> = Seq::empty();
    let ghost mut outputs: Seq<Text> = Seq::empty();
    loop
        invariant
            forall|t: Text| call_requires(parse_one, (&t,)),
            forall|t: Text, o: Result<(T, Text), ParseError>|
                call_ensures(parse_one, (&t,), o) ==> (o matches Ok((_, t2)) ==> t2@.len()
                    < t@.len()),
            lines_view(comments@) == comments_spec(drop_empty(text@)).0,
            items_start(text@) == Ok::<(Seq<char>, Seq<Seq<char>>), ParseErrorView>(
                (module@, rest0),
            ),
            parse_chain(parse_one, inputs, outputs, vec@),
            vec@.len() > 0 ==> inputs[0]@ == drop_empty(rest0),
            rest@ == chain_next(drop_empty(rest0), outputs),
            vec@.len() > 0 ==> rest@.len() > 0,
        decreases rest@.len(),
    {
        let r = parse_one(&rest);
        let (s, t) = match r {
            Err(e) => {
                assert(call_ensures(parse_one, (&rest,), Err::<(T, Text), ParseError>(e)));
                assert(failed_items(parse_one, rest0, e)) by {
                    let items = vec@;
                    assert(parse_chain(parse_one, inputs, outputs, items));
                }
                return Err(e);
            },
            Ok(v) => v,
        };
        proof {
            let n = vec@.len() as int;
            let old_inputs = inputs;
            let old_outputs = outputs;
            inputs = inputs.push(rest);
            outputs = outputs.push(t);
            assert(inputs[n] == rest);
            assert forall|i: int| 0 <= i < n + 1 implies call_ensures(
                parse_one,
                (&inputs[i],),
                Ok::<(T, Text), ParseError>((vec@.push(s)[i], outputs[i])),
            ) by {
                if i < n {
                    assert(inputs[i] == old_inputs[i]);
                    assert(outputs[i] == old_outputs[i]);
                }
            }
            assert forall|i: int| 0 <= i < n implies #[trigger] inputs[i + 1]@ == drop_empty(
                outputs[i]@,
            ) && inputs[i + 1]@.len() > 0 by {
                if i + 1 < n {
                    assert(inputs[i + 1] == old_inputs[i + 1]);
                    assert(outputs[i] == old_outputs[i]);
                } else {
                    assert(outputs[i] == old_outputs[i]);
                }
            }
            lemma_drop_empty_len(t@);
        }
        vec.push(s);
        rest = t.skip_empty();
        if rest.is_eot() {
            assert(outputs.last() == t);
            assert(parse_chain(parse_one, inputs, outputs, vec@) && inputs[0]@ == drop_empty(rest0)
                && drop_empty(outputs.last()@).len() == 0);
            assert(parsed_items(parse_one, rest0, vec@));
            return Ok((comments, module, vec));
        }
    }
}

/// The text of the comment lines of a generated file: each comment is written after `//! `
/// and followed by a line break and `//!`; a final line break closes them.
pub open spec fn comments_text(comments: Seq<Seq<char>>) -> Seq<char>
    decreases comments.len(),
{
    if comments.len() == 0 {
        "\n"@
    } else {
        "//! "@ + comments[0] + "\n"@ + "//!"@ + comments_text(comments.drop_first())
    }
}

/// The text that starts a generated file, before the generated items: the copyright
/// notice, the comments and the import line.
pub open spec fn header_text(comments: Seq<Seq<char>>, imports: Seq<char>) -> Seq<char> {
    "// Copyright: (c) 2020 Cedric Liegeois\n// License: BSD3"@ + "\n"@ + "\n"@ + comments_text(
        comments,
    ) + "\n"@ + ("use crate::{"@ + imports + "};\n"@) + "\n"@
}

/// Reading the module line succeeds exactly when, after the leading empty lines, the first line
/// starts with `mod `; the module name is the rest of that line and the lines after it are
/// left.
pub proof fn lemma_parse_module_reads_line(lines: Seq<Seq<char>>)
    ensures
        parse_module_spec(lines) is Ok <==> (drop_empty(lines).len() > 0 && has_prefix(
            drop_empty(lines)[0],
            "mod "@,
        )),
        parse_module_spec(lines) matches Ok((name, rest)) ==> "mod "@ + name == drop_empty(
            lines,
        )[0] && rest == drop_empty(lines).drop_first(),
{
    lemma_next_if_prefixed_reconstructs(drop_empty(lines), "mod "@);
    if parse_module_spec(lines) is Ok {
        lemma_prefix_split(drop_empty(lines)[0], "mod "@);
    }
}

/// The comment text holds each comment on a line of its own after `//! `, that line being
/// followed by `//!`, and it ends with a line break; without comments it is just that line
/// break.
pub proof fn lemma_comments_text_lines(comments: Seq<Seq<char>>)
    ensures
        forall|i: int|
            0 <= i < comments.len() ==> has_fragment(
                comments_text(comments),
                "//! "@ + #[trigger] comments[i] + "\n"@ + "//!"@,
            ),
        has_suffix(comments_text(comments), "\n"@),
        comments.len() == 0 ==> comments_text(comments) == "\n"@,
    decreases comments.len(),
{
    reveal_strlit("\n");
    if comments.len() > 0 {
        let tail = comments.drop_first();
        lemma_comments_text_lines(tail);
        let text = comments_text(comments);
        let rest = comments_text(tail);
        assert(text == "//! "@ + comments[0] + "\n"@ + "//!"@ + rest);
        assert forall|i: int| 0 <= i < comments.len() implies has_fragment(
            text,
            "//! "@ + #[trigger] comments[i] + "\n"@ + "//!"@,
        ) by {
            let needle = "//! "@ + comments[i] + "\n"@ + "//!"@;
            if i == 0 {
                assert(text =~= Seq::<char>::empty() + needle + rest);
            } else {
                assert(comments[i] == tail[i - 1]);
                assert(has_fragment(rest, "//! "@ + tail[i - 1] + "\n"@ + "//!"@));
                let (b, a) = choose|b: Seq<char>, a: Seq<char>| rest == b + needle + a;
                assert(text =~= ("//! "@ + comments[0] + "\n"@ + "//!"@ + b) + needle + a);
            }
        }
        assert(text.subrange(text.len() - 1, text.len() as int) =~= rest.subrange(
            rest.len() - 1,
            rest.len() as int,
        ));
    } else {
        assert("\n"@.subrange(0, 1) =~= "\n"@);
    }
}

/// The text that starts a generated file is the copyright notice, then the comment text, then
/// the import line followed by an empty line.
pub proof fn lemma_header_text_parts(comments: Seq<Seq<char>>, imports: Seq<char>)
    ensures
        has_prefix(
            header_text(comments, imports),
            "// Copyright: (c) 2020 Cedric Liegeois\n// License: BSD3"@ + "\n"@ + "\n"@,
        ),
        has_fragment(header_text(comments, imports), comments_text(comments)),
        has_suffix(header_text(comments, imports), "\n"@ + "use crate::{"@ + imports + "};\n"@ + "\n"@),
{
    let c = "// Copyright: (c) 2020 Cedric Liegeois\n// License: BSD3"@ + "\n"@ + "\n"@;
    let u = "\n"@ + ("use crate::{"@ + imports + "};\n"@) + "\n"@;
    let text = header_text(comments, imports);
    assert(text =~= c + comments_text(comments) + u);
    lemma_prefix_concat(c, comments_text(comments) + u);
    assert(text =~= c + (comments_text(comments) + u));
    assert(text.subrange(text.len() - u.len(), text.len() as int) =~= u);
    assert(u =~= "\n"@ + "use crate::{"@ + imports + "};\n"@ + "\n"@);
}

/// Builds the text of the comment lines of a generated file.
pub fn write_comments(comments: &Vec<String>) -> (r: String)
    ensures
        r@ == comments_text(lines_view(comments@)),
{
    let mut i = comments.len();
    let mut s = String::from_str("\n");
    while i > 0
        invariant
            i <= comments@.len(),
            s@ == comments_text(lines_view(comments@).skip(i as int)),
        decreases i,
    {
        i = i - 1;
        let mut t = String::from_str("//! ");
        t.append(comments[i].as_str());
        t.append("\n");
        t.append("//!");
        t.append(s.as_str());
        proof {
            let v = lines_view(comments@);
            assert(v.skip(i as int).drop_first() =~= v.skip(i + 1));
            assert(v.skip(i as int)[0] == comments@[i as int]@);
        }
        s = t;
    }
    proof {
        assert(lines_view(comments@).skip(0) =~= lines_view(comments@));
    }
    s
}

/// Builds the text that starts a generated file.
pub fn header(comments: &Vec<String>, imports: &str) -> (r: String)
    ensures
        r@ == header_text(lines_view(comments@), imports@),
{
    let mut s = String::from_str("// Copyright: (c) 2020 Cedric Liegeois\n// License: BSD3");
    s.append("\n");
    s.append("\n");
    let c = write_comments(comments);
    s.append(c.as_str());
    s.append("\n");
    let mut u = String::from_str("use crate::{");
    u.append(imports);
    u.append("};\n");
    s.append(u.as_str());
    s.append("\n");
    s
}

} // verus!
