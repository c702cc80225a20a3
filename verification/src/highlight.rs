//! The output viewer's structural highlighter.
//!
//! Pretty-printed JSON text is classified character by character into string
//! delimiters, string contents, structural brackets, colons and commas; a
//! line break is inserted after each top-level comma, and newlines already
//! present are kept. Everything else is emitted unstyled.

use vstd::prelude::*;

verus! {

/// The style class of one rendered character.
#[verifier::ext_equal]
#[derive(Clone, Copy, Debug, PartialEq, Eq, Structural)]
pub enum SpanClass {
    StringDelimiter,
    StringContent,
    Bracket,
    Colon,
    Comma,
    Plain,
}

/// One rendered character with its style class.
#[verifier::ext_equal]
#[derive(Clone, Copy, Debug, PartialEq, Eq, Structural)]
pub struct StyledChar {
    pub class: SpanClass,
    pub ch: char,
}

/// The class of a character, given whether it stands inside a string.
pub open spec fn class_of(c: char, in_string: bool) -> SpanClass {
    if c == '"' {
        SpanClass::StringDelimiter
    } else if in_string {
        SpanClass::StringContent
    } else if c == '{' || c == '}' || c == '[' || c == ']' {
        SpanClass::Bracket
    } else if c == ':' {
        SpanClass::Colon
    } else if c == ',' {
        SpanClass::Comma
    } else {
        SpanClass::Plain
    }
}

/// Whether the next character stands inside a string.
pub open spec fn next_in_string(c: char, in_string: bool) -> bool {
    if c == '"' {
        !in_string
    } else {
        in_string
    }
}

/// What one source character emits: itself, plus an inserted line break
/// after a top-level comma.
pub open spec fn emitted(c: char, in_string: bool) -> Seq<StyledChar> {
    if !in_string && c == ',' {
        seq![
            StyledChar { class: SpanClass::Comma, ch: ',' },
            StyledChar { class: SpanClass::Plain, ch: '\n' },
        ]
    } else {
        seq![StyledChar { class: class_of(c, in_string), ch: c }]
    }
}

/// The rendering of `s`, starting inside or outside a string.
pub open spec fn highlight_from(s: Seq<char>, in_string: bool) -> Seq<StyledChar>
    decreases s.len(),
{
    if s.len() == 0 {
        Seq::empty()
    } else {
        emitted(s[0], in_string) + highlight_from(s.skip(1), next_in_string(s[0], in_string))
    }
}

/// The rendering of a complete text.
pub open spec fn highlighted(s: Seq<char>) -> Seq<StyledChar> {
    highlight_from(s, false)
}

/// Appending what one non-comma character emits is one push.
proof fn lemma_emit_plain(c: char, b: bool, s: Seq<StyledChar>)
    requires
        b || c != ',',
    ensures
        s + emitted(c, b) == s.push(StyledChar { class: class_of(c, b), ch: c }),
{
    assert(s + emitted(c, b) =~= s.push(StyledChar { class: class_of(c, b), ch: c }));
}

/// Appending what a top-level comma emits is two pushes.
proof fn lemma_emit_comma(c: char, b: bool, s: Seq<StyledChar>)
    requires
        !b && c == ',',
    ensures
        s + emitted(c, b) == s.push(StyledChar { class: SpanClass::Comma, ch: ',' }).push(
            StyledChar { class: SpanClass::Plain, ch: '\n' },
        ),
{
    assert(s + emitted(c, b) =~= s.push(StyledChar { class: SpanClass::Comma, ch: ',' }).push(
        StyledChar { class: SpanClass::Plain, ch: '\n' },
    ));
}

/// One step of the rendering, unfolded.
proof fn lemma_highlight_unfold(s: Seq<char>, b: bool)
    requires
        s.len() > 0,
    ensures
        highlight_from(s, b) == emitted(s[0], b) + highlight_from(
            s.skip(1),
            next_in_string(s[0], b),
        ),
{
}

/// Renders a text into styled characters.
pub fn syntax_highlight(text: &Vec<char>) -> (r: Vec<StyledChar>)
    ensures
        r@ == highlighted(text@),
{
    let mut out: Vec<StyledChar> = Vec::new();
    let mut in_string = false;
    let mut i: usize = 0;
    proof {
        assert(text@.skip(0) =~= text@);
        assert(out@ + highlight_from(text@, false) =~= highlight_from(text@, false));
    }
    while i < text.len()
        invariant
            i <= text@.len(),
            highlighted(text@) == out@ + highlight_from(text@.skip(i as int), in_string),
        decreases text@.len() - i,
    {
        let c = text[i];
        let ghost rest = text@.skip(i as int);
        let ghost in0 = in_string;
        let ghost out0 = out@;
        proof {
            assert(rest[0] == c);
            assert(rest.skip(1) =~= text@.skip(i + 1));
        }
        if c == '"' {
            out.push(StyledChar { class: SpanClass::StringDelimiter, ch: c });
            in_string = !in_string;
            proof {
                lemma_emit_plain(c, in0, out0);
                assert(out@ == out0 + emitted(c, in0));
            }
        } else if in_string {
            out.push(StyledChar { class: SpanClass::StringContent, ch: c });
            proof {
                lemma_emit_plain(c, in0, out0);
                assert(out@ == out0 + emitted(c, in0));
            }
        } else if c == '{' || c == '}' || c == '[' || c == ']' {
            out.push(StyledChar { class: SpanClass::Bracket, ch: c });
            proof {
                lemma_emit_plain(c, in0, out0);
                assert(out@ == out0 + emitted(c, in0));
            }
        } else if c == ':' {
            out.push(StyledChar { class: SpanClass::Colon, ch: c });
            proof {
                lemma_emit_plain(c, in0, out0);
                assert(out@ == out0 + emitted(c, in0));
            }
        } else if c == ',' {
            out.push(StyledChar { class: SpanClass::Comma, ch: c });
            out.push(StyledChar { class: SpanClass::Plain, ch: '\n' });
            proof {
                lemma_emit_comma(c, in0, out0);
                assert(out@ == out0 + emitted(c, in0));
            }
        } else {
            out.push(StyledChar { class: SpanClass::Plain, ch: c });
            proof {
                lemma_emit_plain(c, in0, out0);
                assert(out@ == out0 + emitted(c, in0));
            }
        }
        proof {
            assert(in_string == next_in_string(c, in0));
            lemma_highlight_unfold(rest, in0);
            vstd::seq_lib::lemma_concat_associative(
                out0,
                emitted(c, in0),
                highlight_from(text@.skip(i + 1), in_string),
            );
            assert(highlighted(text@) == out@ + highlight_from(text@.skip(i + 1), in_string));
        }
        i = i + 1;
    }
    assert(text@.skip(text@.len() as int) =~= Seq::<char>::empty());
    assert(out@ =~= highlighted(text@));
    out
}

/// How many line breaks the rendering holds.
pub open spec fn break_count(s: Seq<StyledChar>) -> nat
    decreases s.len(),
{
    if s.len() == 0 {
        0
    } else {
        break_count(s.drop_last()) + (if s.last().ch == '\n' {
            1nat
        } else {
            0nat
        })
    }
}

/// Counts the line breaks of a rendering.
pub fn rendered_breaks(spans: &Vec<StyledChar>) -> (n: usize)
    ensures
        n == break_count(spans@),
{
    let mut n: usize = 0;
    let mut i: usize = 0;
    while i < spans.len()
        invariant
            i <= spans@.len(),
            n <= i,
            n == break_count(spans@.take(i as int)),
        decreases spans@.len() - i,
    {
        let ghost pre = spans@.take(i as int);
        let ghost cur = spans@.take(i + 1);
        assert(cur.drop_last() =~= pre);
        assert(cur.last() == spans@[i as int]);
        if spans[i].ch == '\n' {
            n = n + 1;
        }
        i = i + 1;
    }
    assert(spans@.take(spans@.len() as int) =~= spans@);
    n
}

} // verus!
