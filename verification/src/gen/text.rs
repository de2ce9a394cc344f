//! Line-oriented text consumed from the top, as read from a data description file.

use vstd::prelude::*;
use vstd::string::*;

verus! {

/// Why the text could not be parsed.
#[derive(Debug, PartialEq, Eq)]
pub enum ParseError {
    /// A line was expected but the text is exhausted.
    EndOfText,
    /// The next line does not start with the expected prefix (or there is no next line).
    MissingPrefix { expected: String, found: Option<String> },
    /// A model type was expected but the line is blank.
    MissingType,
    /// The model type is neither `ellipsoidal` nor `spherical`.
    InvalidType(String),
    /// A model identifier was expected after the type.
    MissingId,
    /// A length was expected to end with the unit `m`.
    MissingMetreUnit,
}

/// What a [ParseError] says, as plain sequences of characters.
pub enum ParseErrorView {
    EndOfText,
    MissingPrefix { expected: Seq<char>, found: Option<Seq<char>> },
    MissingType,
    InvalidType(Seq<char>),
    MissingId,
    MissingMetreUnit,
}

impl View for ParseError {
    type V = ParseErrorView;

    open spec fn view(&self) -> ParseErrorView {
        match self {
            ParseError::EndOfText => ParseErrorView::EndOfText,
            ParseError::MissingPrefix { expected, found } => ParseErrorView::MissingPrefix {
                expected: expected@,
                found: match found {
                    Some(f) => Some(f@),
                    None => None,
                },
            },
            ParseError::MissingType => ParseErrorView::MissingType,
            ParseError::InvalidType(t) => ParseErrorView::InvalidType(t@),
            ParseError::MissingId => ParseErrorView::MissingId,
            ParseError::MissingMetreUnit => ParseErrorView::MissingMetreUnit,
        }
    }
}

/// The outcome of splitting the first line off a text: the line and the remaining lines.
pub type LineSplit = Result<(Seq<char>, Seq<Seq<char>>), ParseErrorView>;

/// The view of an executable split result.
pub open spec fn split_view(r: Result<(String, Text), ParseError>) -> LineSplit {
    match r {
        Ok((l, t)) => Ok((l@, t@)),
        Err(e) => Err(e@),
    }
}

/// Splitting off the first line of `lines`.
pub open spec fn next_spec(lines: Seq<Seq<char>>) -> LineSplit {
    if lines.len() == 0 {
        Err(ParseErrorView::EndOfText)
    } else {
        Ok((lines[0], lines.drop_first()))
    }
}

/// Splitting off the first line of `lines` when it starts with `prefix`; the line is returned
/// without the prefix.
pub open spec fn next_if_prefixed_spec(lines: Seq<Seq<char>>, prefix: Seq<char>) -> LineSplit {
    if starts_with_prefixed(lines, prefix) {
        Ok((lines[0].skip(prefix.len() as int), lines.drop_first()))
    } else {
        Err(
            ParseErrorView::MissingPrefix {
                expected: prefix,
                found: if lines.len() == 0 {
                    None
                } else {
                    Some(lines[0])
                },
            },
        )
    }
}

/// The lines of a text, each without its line terminator.
pub struct Text(Vec<String>);

/// The views of the given strings.
pub open spec fn lines_view(v: Seq<String>) -> Seq<Seq<char>> {
    v.map_values(|l: String| l@)
}

/// `lines` without its leading empty lines.
pub open spec fn drop_empty(lines: Seq<Seq<char>>) -> Seq<Seq<char>>
    decreases lines.len(),
{
    if lines.len() > 0 && lines[0].len() == 0 {
        drop_empty(lines.drop_first())
    } else {
        lines
    }
}

/// Whether `line` starts with `prefix`.
pub open spec fn has_prefix(line: Seq<char>, prefix: Seq<char>) -> bool {
    prefix.len() <= line.len() && line.subrange(0, prefix.len() as int) == prefix
}

/// What `next_if_prefixed` succeeds on: the first line exists and starts with `prefix`.
pub open spec fn starts_with_prefixed(lines: Seq<Seq<char>>, prefix: Seq<char>) -> bool {
    lines.len() > 0 && has_prefix(lines[0], prefix)
}

/// Skipping empty lines twice is the same as skipping them once, and what is left is either
/// nothing or starts with a non-empty line.
pub proof fn lemma_drop_empty_idempotent(lines: Seq<Seq<char>>)
    ensures
        drop_empty(drop_empty(lines)) == drop_empty(lines),
        drop_empty(lines).len() == 0 || drop_empty(lines)[0].len() > 0,
    decreases lines.len(),
{
    if lines.len() > 0 && lines[0].len() == 0 {
        lemma_drop_empty_idempotent(lines.drop_first());
    }
}

/// A line split off with a prefix is the line that `next` splits off, without that prefix;
/// both leave the same remaining lines.
pub proof fn lemma_prefixed_line_is_next_line(lines: Seq<Seq<char>>, prefix: Seq<char>)
    requires
        next_if_prefixed_spec(lines, prefix) is Ok,
    ensures
        next_spec(lines) matches Ok((line, rest)) && line == prefix + next_if_prefixed_spec(
            lines,
            prefix,
        )->Ok_0.0 && rest == next_if_prefixed_spec(lines, prefix)->Ok_0.1,
{
    let line = lines[0];
    assert(line =~= line.subrange(0, prefix.len() as int) + line.skip(prefix.len() as int));
}

/// Skipping empty lines drops exactly the leading empty lines: what is left is the text from
/// the first non-empty line on.
pub proof fn lemma_drop_empty_drops_leading_empty_lines(lines: Seq<Seq<char>>)
    ensures
        exists|k: int|
            {
                &&& 0 <= k <= lines.len()
                &&& drop_empty(lines) == lines.skip(k)
                &&& forall|i: int| 0 <= i < k ==> (#[trigger] lines[i]).len() == 0
                &&& (k == lines.len() || lines[k].len() > 0)
            },
    decreases lines.len(),
{
    if lines.len() > 0 && lines[0].len() == 0 {
        let rest = lines.drop_first();
        lemma_drop_empty_drops_leading_empty_lines(rest);
        let k = choose|k: int|
            {
                &&& 0 <= k <= rest.len()
                &&& drop_empty(rest) == rest.skip(k)
                &&& forall|i: int| 0 <= i < k ==> (#[trigger] rest[i]).len() == 0
                &&& (k == rest.len() || rest[k].len() > 0)
            };
        assert(rest.skip(k) =~= lines.skip(k + 1));
        assert forall|i: int| 0 <= i < k + 1 implies (#[trigger] lines[i]).len() == 0 by {
            if i > 0 {
                assert(lines[i] == rest[i - 1]);
            }
        }
    } else {
        assert(lines.skip(0) =~= lines);
    }
}

/// Splitting off a line and putting it back in front of what is left gives the text back.
pub proof fn lemma_next_reconstructs(lines: Seq<Seq<char>>)
    ensures
        next_spec(lines) is Err <==> lines.len() == 0,
        next_spec(lines) matches Ok((line, rest)) ==> seq![line] + rest == lines,
{
    if lines.len() > 0 {
        assert(seq![lines[0]] + lines.drop_first() =~= lines);
    }
}

/// Splitting off a prefixed line succeeds exactly when the first line starts with the prefix;
/// putting the prefix back on the line and the line back in front of what is left gives the
/// text back.
pub proof fn lemma_next_if_prefixed_reconstructs(lines: Seq<Seq<char>>, prefix: Seq<char>)
    ensures
        next_if_prefixed_spec(lines, prefix) is Ok <==> (lines.len() > 0 && has_prefix(
            lines[0],
            prefix,
        )),
        next_if_prefixed_spec(lines, prefix) matches Ok((line, rest)) ==> seq![prefix + line]
            + rest == lines,
{
    if starts_with_prefixed(lines, prefix) {
        lemma_prefix_split(lines[0], prefix);
        assert(seq![lines[0]] + lines.drop_first() =~= lines);
    }
}

/// A line made of a prefix and a rest starts with that prefix, and what follows it is the rest.
pub proof fn lemma_prefix_concat(prefix: Seq<char>, rest: Seq<char>)
    ensures
        has_prefix(prefix + rest, prefix),
        (prefix + rest).skip(prefix.len() as int) == rest,
{
    assert((prefix + rest).subrange(0, prefix.len() as int) =~= prefix);
    assert((prefix + rest).skip(prefix.len() as int) =~= rest);
}

/// A line that starts with a prefix is that prefix followed by the rest of the line.
pub proof fn lemma_prefix_split(line: Seq<char>, prefix: Seq<char>)
    requires
        has_prefix(line, prefix),
    ensures
        prefix + line.skip(prefix.len() as int) == line,
{
    assert(line =~= line.subrange(0, prefix.len() as int) + line.skip(prefix.len() as int));
}

impl View for Text {
    type V = Seq<Seq<char>>;

    closed spec fn view(&self) -> Seq<Seq<char>> {
        lines_view(self.0@)
    }
}

/// Copies `v[from..]` into a new vector.
fn copy_from(v: &Vec<String>, from: usize) -> (r: Vec<String>)
    requires
        from <= v@.len(),
    ensures
        lines_view(r@) =~= lines_view(v@).skip(from as int),
{
    let mut r: Vec<String> = Vec::new();
    let mut i = from;
    while i < v.len()
        invariant
            from <= i <= v@.len(),
            lines_view(r@) =~= lines_view(v@).subrange(from as int, i as int),
        decreases v@.len() - i,
    {
        let c = v[i].clone();
        assert(c@ == v@[i as int]@);
        r.push(c);
        assert(lines_view(v@).subrange(from as int, i + 1) =~= lines_view(v@).subrange(
            from as int,
            i as int,
        ).push(v@[i as int]@));
        i = i + 1;
    }
    r
}

/// Returns the rest of `line` after `prefix` if `line` starts with `prefix`.
pub fn strip_prefix(line: &str, prefix: &str) -> (r: Option<String>)
    ensures
        r is Some <==> has_prefix(line@, prefix@),
        r matches Some(s) ==> s@ == line@.skip(prefix@.len() as int),
{
    let n = line.unicode_len();
    let p = prefix.unicode_len();
    if p > n {
        return None;
    }
    let mut i: usize = 0;
    while i < p
        invariant
            p == prefix@.len(),
            n == line@.len(),
            p <= n,
            i <= p,
            forall|k: int| 0 <= k < i ==> line@[k] == prefix@[k],
        decreases p - i,
    {
        if line.get_char(i) != prefix.get_char(i) {
            assert(line@.subrange(0, p as int)[i as int] != prefix@[i as int]);
            return None;
        }
        i = i + 1;
    }
    assert(line@.subrange(0, p as int) =~= prefix@);
    let rest = line.substring_char(p, n);
    Some(String::from_str(rest))
}

impl Text {
    /// Builds a text from its lines.
    pub fn new(lines: Vec<String>) -> (r: Text)
        ensures
            r@ == lines_view(lines@),
    {
        Text(lines)
    }

    /// Whether all lines have been consumed.
    pub fn is_eot(&self) -> (r: bool)
        ensures
            r == (self@.len() == 0),
    {
        self.0.len() == 0
    }

    /// The same text without its leading empty lines.
    pub fn skip_empty(&self) -> (r: Self)
        ensures
            r@ == drop_empty(self@),
    {
        let mut i: usize = 0;
        assert(self@.skip(0) =~= self@);
        while i < self.0.len() && self.0[i].unicode_len() == 0
            invariant
                i <= self@.len(),
                drop_empty(self@.skip(i as int)) == drop_empty(self@),
            decreases self@.len() - i,
        {
            assert(self@.skip(i as int).drop_first() =~= self@.skip(i + 1));
            i = i + 1;
        }
        let r = Text(copy_from(&self.0, i));
        proof {
            if i < self@.len() {
                assert(self@.skip(i as int)[0] == self@[i as int]);
            }
        }
        r
    }

    /// Splits off the first line.
    pub fn next(&self) -> (r: Result<(String, Text), ParseError>)
        ensures
            split_view(r) == next_spec(self@),
    {
        if self.0.len() == 0 {
            Err(ParseError::EndOfText)
        } else {
            let first = self.0[0].clone();
            let rest = copy_from(&self.0, 1);
            proof {
                assert(self@.skip(1) =~= self@.drop_first());
            }
            Ok((first, Text(rest)))
        }
    }

    /// Splits off the first line when it starts with `prefix`, returning it without the prefix.
    pub fn next_if_prefixed(&self, prefix: &str) -> (r: Result<(String, Text), ParseError>)
        ensures
            split_view(r) == next_if_prefixed_spec(self@, prefix@),
    {
        if self.0.len() == 0 {
            return Err(ParseError::MissingPrefix { expected: String::from_str(prefix), found: None });
        }
        match strip_prefix(self.0[0].as_str(), prefix) {
            None => Err(
                ParseError::MissingPrefix {
                    expected: String::from_str(prefix),
                    found: Some(self.0[0].clone()),
                },
            ),
            Some(s) => {
                let rest = copy_from(&self.0, 1);
                proof {
                    assert(self@.skip(1) =~= self@.drop_first());
                }
                Ok((s, Text(rest)))
            },
        }
    }
}

} // verus!
