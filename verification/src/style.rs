//! The render-ready line model pulled from the script: an ordered sequence
//! of lines, each an ordered sequence of styled words. Every field of a
//! script-declared span falls back independently: missing text becomes
//! empty text, an unparseable color leaves the channel rules of the color
//! module to decide, and a missing flag stays unset.

use vstd::prelude::*;
use vstd::string::*;
use crate::color::{hex_to_rgb, spec_hex_to_rgb};

verus! {

/// A text style: optional foreground and background colors and two flags,
/// all defaulting to unset.
#[derive(Clone, Copy, Debug)]
pub struct Style {
    pub fg: Option<(u8, u8, u8)>,
    pub bg: Option<(u8, u8, u8)>,
    pub bold: bool,
    pub italic: bool,
}

impl Style {
    /// The fully-unset style.
    pub fn new() -> (s: Style)
        ensures
            s == (Style { fg: Option::None, bg: Option::None, bold: false, italic: false }),
    {
        Style { fg: Option::None, bg: Option::None, bold: false, italic: false }
    }
}

/// One styled run of text within a line.
pub struct Word {
    pub text: String,
    pub style: Style,
}

/// Mathematical model of a styled word.
pub ghost struct WordV {
    pub text: Seq<char>,
    pub style: Style,
}

impl View for Word {
    type V = WordV;

    open spec fn view(&self) -> WordV {
        WordV { text: self.text@, style: self.style }
    }
}

/// A span as the bridge managed to read it from the script: `None` stands
/// for a field that is absent or of the wrong type.
pub struct RawSpan {
    pub text: Option<String>,
    pub fg: Option<String>,
    pub bg: Option<String>,
    pub bold: Option<bool>,
    pub italic: Option<bool>,
}

/// Mathematical model of a raw span.
pub ghost struct RawSpanV {
    pub text: Option<Seq<char>>,
    pub fg: Option<Seq<char>>,
    pub bg: Option<Seq<char>>,
    pub bold: Option<bool>,
    pub italic: Option<bool>,
}

impl View for RawSpan {
    type V = RawSpanV;

    open spec fn view(&self) -> RawSpanV {
        RawSpanV {
            text: match self.text {
                Option::Some(t) => Option::Some(t@),
                Option::None => Option::None,
            },
            fg: match self.fg {
                Option::Some(t) => Option::Some(t@),
                Option::None => Option::None,
            },
            bg: match self.bg {
                Option::Some(t) => Option::Some(t@),
                Option::None => Option::None,
            },
            bold: self.bold,
            italic: self.italic,
        }
    }
}

/// A color channel of the style: the parsed color where the script gave a
/// string, unset where it gave none.
pub open spec fn spec_color_of(o: Option<Seq<char>>) -> Option<(u8, u8, u8)> {
    match o {
        Option::Some(s) => spec_hex_to_rgb(s),
        Option::None => Option::None,
    }
}

/// A style flag: set exactly when the script declared it `true`.
pub open spec fn spec_flag_of(o: Option<bool>) -> bool {
    o == Option::Some(true)
}

/// The styled word a raw span yields: every field falls back independently.
pub open spec fn spec_word_from_raw(raw: RawSpanV) -> WordV {
    WordV {
        text: match raw.text {
            Option::Some(t) => t,
            Option::None => Seq::empty(),
        },
        style: Style {
            fg: spec_color_of(raw.fg),
            bg: spec_color_of(raw.bg),
            bold: spec_flag_of(raw.bold),
            italic: spec_flag_of(raw.italic),
        },
    }
}

/// The views of a word sequence.
pub open spec fn spec_word_views(ws: Seq<Word>) -> Seq<WordV> {
    ws.map_values(|w: Word| w@)
}

/// The views of a raw span sequence.
pub open spec fn spec_raw_span_views(rs: Seq<RawSpan>) -> Seq<RawSpanV> {
    rs.map_values(|r: RawSpan| r@)
}

/// The word models a raw span line yields, span for span.
pub open spec fn spec_words_from_raw(line: Seq<RawSpanV>) -> Seq<WordV> {
    line.map_values(|r: RawSpanV| spec_word_from_raw(r))
}

/// Build the styled word a raw span yields.
pub fn make_word(raw: &RawSpan) -> (w: Word)
    ensures
        w@ == spec_word_from_raw(raw@),
{
    let text = match &raw.text {
        Option::Some(t) => t.clone(),
        Option::None => String::new(),
    };
    let fg = match &raw.fg {
        Option::Some(s) => hex_to_rgb(s.as_str()),
        Option::None => Option::None,
    };
    let bg = match &raw.bg {
        Option::Some(s) => hex_to_rgb(s.as_str()),
        Option::None => Option::None,
    };
    let bold = match raw.bold {
        Option::Some(b) => b,
        Option::None => false,
    };
    let italic = match raw.italic {
        Option::Some(b) => b,
        Option::None => false,
    };
    Word { text, style: Style { fg, bg, bold, italic } }
}

/// Build the styled line set a raw pull yields: line indices and span
/// indices are preserved exactly, so partial data can never shift what is
/// rendered where.
pub fn lines_from_raw(raw: &Vec<Vec<RawSpan>>) -> (out: Vec<Vec<Word>>)
    ensures
        out@.len() == raw@.len(),
        forall|i: int|
            0 <= i < raw@.len() ==> #[trigger] spec_word_views(out@[i]@) == spec_words_from_raw(
                spec_raw_span_views(raw@[i]@),
            ),
{
    let mut out: Vec<Vec<Word>> = Vec::new();
    let mut i: usize = 0;
    while i < raw.len()
        invariant
            i <= raw@.len(),
            out@.len() == i,
            forall|k: int|
                0 <= k < i ==> #[trigger] spec_word_views(out@[k]@) == spec_words_from_raw(
                    spec_raw_span_views(raw@[k]@),
                ),
        decreases raw@.len() - i,
    {
        let line = &raw[i];
        let mut words: Vec<Word> = Vec::new();
        let mut j: usize = 0;
        while j < line.len()
            invariant
                j <= line@.len(),
                words@.len() == j,
                forall|k: int| 0 <= k < j ==> #[trigger] words@[k]@ == spec_word_from_raw(line@[k]@),
            decreases line@.len() - j,
        {
            words.push(make_word(&line[j]));
            j = j + 1;
        }
        proof {
            assert(spec_word_views(words@) =~= spec_words_from_raw(spec_raw_span_views(line@)));
        }
        out.push(words);
        i = i + 1;
    }
    out
}

/// The width of a line: the total character count of its words' text.
pub open spec fn spec_line_width(line: Seq<WordV>) -> int
    decreases line.len(),
{
    if line.len() == 0 {
        0
    } else {
        spec_line_width(line.drop_last()) + line.last().text.len()
    }
}

/// A line width is never negative.
pub proof fn lemma_line_width_nonneg(line: Seq<WordV>)
    ensures
        spec_line_width(line) >= 0,
    decreases line.len(),
{
    if line.len() > 0 {
        lemma_line_width_nonneg(line.drop_last());
    }
}

/// The views of a line sequence.
pub open spec fn spec_line_views(lines: Seq<Vec<Word>>) -> Seq<Seq<WordV>> {
    lines.map_values(|l: Vec<Word>| spec_word_views(l@))
}

/// The widest line's width of a line set.
pub open spec fn spec_max_width(lines: Seq<Seq<WordV>>) -> int
    decreases lines.len(),
{
    if lines.len() == 0 {
        0
    } else {
        vstd::math::max(spec_max_width(lines.drop_last()), spec_line_width(lines.last()))
    }
}

/// The width of one line, saturating at the machine's range.
fn line_width(line: &Vec<Word>) -> (w: usize)
    ensures
        w == vstd::math::min(spec_line_width(spec_word_views(line@)), usize::MAX as int),
{
    let ghost views = spec_word_views(line@);
    let mut sum: usize = 0;
    let mut i: usize = 0;
    while i < line.len()
        invariant
            i <= line@.len(),
            views == spec_word_views(line@),
            sum == vstd::math::min(spec_line_width(views.take(i as int)), usize::MAX as int),
        decreases line@.len() - i,
    {
        proof {
            assert(views.take(i + 1).drop_last() =~= views.take(i as int));
            assert(views.take(i + 1).last() == line@[i as int]@);
            lemma_line_width_nonneg(views.take(i as int));
        }
        let len = line[i].text.as_str().unicode_len();
        if len > usize::MAX - sum {
            sum = usize::MAX;
        } else {
            sum = sum + len;
        }
        i = i + 1;
    }
    proof {
        assert(views.take(line@.len() as int) =~= views);
    }
    sum
}

/// The widest line's width of a pulled line set, saturating at the
/// machine's range.
pub fn max_line_width(lines: &Vec<Vec<Word>>) -> (w: usize)
    ensures
        w == vstd::math::min(spec_max_width(spec_line_views(lines@)), usize::MAX as int),
{
    let ghost views = spec_line_views(lines@);
    let mut best: usize = 0;
    let mut i: usize = 0;
    while i < lines.len()
        invariant
            i <= lines@.len(),
            views == spec_line_views(lines@),
            best == vstd::math::min(spec_max_width(views.take(i as int)), usize::MAX as int),
        decreases lines@.len() - i,
    {
        proof {
            assert(views.take(i + 1).drop_last() =~= views.take(i as int));
            assert(views.take(i + 1).last() == spec_word_views(lines@[i as int]@));
        }
        let w = line_width(&lines[i]);
        if w > best {
            best = w;
        }
        i = i + 1;
    }
    proof {
        assert(views.take(lines@.len() as int) =~= views);
    }
    best
}

} // verus!
