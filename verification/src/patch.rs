//! The lines of a patch and how they are shown in colour.

use vstd::prelude::*;
use vstd::string::*;
use crate::error::texts;
use crate::text::{lossy_text, text_of_bytes};

verus! {

/// The colours in which the lines of a patch are shown.
#[derive(Clone, Copy, Debug, PartialEq, Eq, Structural)]
pub enum LineColor {
    Green,
    Red,
    Bold,
    Cyan,
}

/// One line of a patch as the engine prints it: the mark of its origin and
/// its content.
#[derive(Clone, Debug, PartialEq, Eq)]
pub struct PatchLine {
    pub origin: char,
    pub text: String,
}

impl View for PatchLine {
    type V = (char, Seq<char>);

    open spec fn view(&self) -> (char, Seq<char>) {
        (self.origin, self.text@)
    }
}

/// The origin and content of each line of a list.
pub open spec fn lines_of(v: Seq<PatchLine>) -> Seq<(char, Seq<char>)> {
    v.map_values(|l: PatchLine| l@)
}

/// The lines of a patch in the order in which the engine printed them.
pub struct PatchLog {
    pub lines: Vec<PatchLine>,
}

impl PatchLog {
    /// A log without lines.
    pub fn new() -> (r: PatchLog)
        ensures
            r.lines@.len() == 0,
    {
        PatchLog { lines: Vec::new() }
    }

    /// Adds a line, its content read as text, behind those already held.
    pub fn record(&mut self, origin: char, content: &[u8])
        ensures
            lines_of(final(self).lines@) == lines_of(old(self).lines@).push(
                (origin, lossy_text(content@)),
            ),
    {
        let text = text_of_bytes(content);
        self.lines.push(PatchLine { origin, text });
        assert(lines_of(self.lines@) =~= lines_of(old(self).lines@).push(
            (origin, lossy_text(content@)),
        ));
    }
}

/// The colour of a line by the mark of its origin: additions green, deletions
/// red, file headers bold, hunk headers cyan, anything else uncoloured.
pub open spec fn color_of(origin: char) -> Option<LineColor> {
    if origin == '+' || origin == '>' {
        Some(LineColor::Green)
    } else if origin == '-' || origin == '<' {
        Some(LineColor::Red)
    } else if origin == 'F' {
        Some(LineColor::Bold)
    } else if origin == 'H' {
        Some(LineColor::Cyan)
    } else {
        None
    }
}

/// The escape sequence that ends every colour.
pub open spec fn reset_text() -> Seq<char> {
    "\u{1b}[m"@
}

/// The escape sequence that switches to a colour, or to none.
pub open spec fn escape_text(color: Option<LineColor>) -> Seq<char> {
    match color {
        Some(LineColor::Green) => "\u{1b}[32m"@,
        Some(LineColor::Red) => "\u{1b}[31m"@,
        Some(LineColor::Bold) => "\u{1b}[1m"@,
        Some(LineColor::Cyan) => "\u{1b}[36m"@,
        None => reset_text(),
    }
}

/// What is written to go from the colour `last` to the colour `next`: nothing
/// where they are the same; else the escape of `next`, after a reset where
/// either of them is bold.
pub open spec fn switch_text(last: Option<LineColor>, next: Option<LineColor>) -> Seq<char> {
    if next == last {
        Seq::empty()
    } else if last == Some(LineColor::Bold) || next == Some(LineColor::Bold) {
        reset_text() + escape_text(next)
    } else {
        escape_text(next)
    }
}

/// The mark that is shown in front of a line's content: that of an addition,
/// a deletion or a context line; other lines carry their own.
pub open spec fn mark_text(origin: char) -> Seq<char> {
    if origin == '+' || origin == '-' || origin == ' ' {
        seq![origin]
    } else {
        Seq::empty()
    }
}

/// A line as it is shown after a line of colour `last`.
pub open spec fn shown_line(last: Option<LineColor>, line: (char, Seq<char>)) -> Seq<char> {
    switch_text(last, color_of(line.0)) + mark_text(line.0) + line.1
}

/// The lines of a patch as they are shown, one piece for each line, the
/// first one after a line of colour `last`.
pub open spec fn shown_patch(last: Option<LineColor>, lines: Seq<(char, Seq<char>)>) -> Seq<
    Seq<char>,
>
    decreases lines.len(),
{
    if lines.len() == 0 {
        Seq::empty()
    } else {
        seq![shown_line(last, lines[0])] + shown_patch(color_of(lines[0].0), lines.drop_first())
    }
}

/// The colour of a line by the mark of its origin.
pub fn line_color(origin: char) -> (r: Option<LineColor>)
    ensures
        r == color_of(origin),
{
    if origin == '+' || origin == '>' {
        Some(LineColor::Green)
    } else if origin == '-' || origin == '<' {
        Some(LineColor::Red)
    } else if origin == 'F' {
        Some(LineColor::Bold)
    } else if origin == 'H' {
        Some(LineColor::Cyan)
    } else {
        None
    }
}

/// The escape sequence that switches to `color`, or to none.
pub fn escape(color: Option<LineColor>) -> (r: &'static str)
    ensures
        r@ == escape_text(color),
{
    match color {
        Some(LineColor::Green) => "\u{1b}[32m",
        Some(LineColor::Red) => "\u{1b}[31m",
        Some(LineColor::Bold) => "\u{1b}[1m",
        Some(LineColor::Cyan) => "\u{1b}[36m",
        None => "\u{1b}[m",
    }
}

fn same_color(a: Option<LineColor>, b: Option<LineColor>) -> (r: bool)
    ensures
        r == (a == b),
{
    match (a, b) {
        (None, None) => true,
        (Some(x), Some(y)) => x == y,
        _ => false,
    }
}

fn is_bold(c: Option<LineColor>) -> (r: bool)
    ensures
        r == (c == Some(LineColor::Bold)),
{
    match c {
        Some(LineColor::Bold) => true,
        _ => false,
    }
}

/// Renders one line after a line of colour `last`.
pub fn render_line(last: Option<LineColor>, line: &PatchLine) -> (r: String)
    ensures
        r@ == shown_line(last, line@),
{
    let next = line_color(line.origin);
    let mut out = String::new();
    if !same_color(next, last) {
        if is_bold(last) || is_bold(next) {
            out.append(escape(None));
        }
        out.append(escape(next));
    }
    assert(out@ =~= switch_text(last, next));
    proof {
        reveal_strlit("+");
        reveal_strlit("-");
        reveal_strlit(" ");
    }
    if line.origin == '+' {
        out.append("+");
    } else if line.origin == '-' {
        out.append("-");
    } else if line.origin == ' ' {
        out.append(" ");
    }
    assert(out@ =~= switch_text(last, next) + mark_text(line.origin));
    out.append(line.text.as_str());
    out
}

/// Renders the lines of a patch, tracking the colour from line to line so
/// that no escape sequence is written where the colour stays.
pub fn render_patch(lines: &Vec<PatchLine>) -> (r: Vec<String>)
    ensures
        texts(r@) == shown_patch(None, lines_of(lines@)),
{
    let mut out: Vec<String> = Vec::new();
    let mut last: Option<LineColor> = None;
    let mut i: usize = 0;
    assert(lines_of(lines@).skip(0) =~= lines_of(lines@));
    while i < lines.len()
        invariant
            i <= lines.len(),
            texts(out@) + shown_patch(last, lines_of(lines@).skip(i as int)) == shown_patch(
                None,
                lines_of(lines@),
            ),
        decreases lines.len() - i,
    {
        let piece = render_line(last, &lines[i]);
        proof {
            let rest = lines_of(lines@).skip(i as int);
            assert(rest[0] == lines@[i as int]@);
            assert(rest.drop_first() =~= lines_of(lines@).skip(i + 1));
            assert(texts(out@.push(piece)) =~= texts(out@) + seq![piece@]);
        }
        out.push(piece);
        last = line_color(lines[i].origin);
        i += 1;
    }
    assert(texts(out@) =~= texts(out@) + shown_patch(last, lines_of(lines@).skip(i as int)));
    out
}

/// A patch without lines is shown as nothing, and a patch is shown in as many
/// pieces as it has lines.
pub proof fn shown_patch_has_a_piece_per_line(
    last: Option<LineColor>,
    lines: Seq<(char, Seq<char>)>,
)
    ensures
        shown_patch(last, lines).len() == lines.len(),
        lines.len() == 0 ==> shown_patch(last, lines) == Seq::<Seq<char>>::empty(),
    decreases lines.len(),
{
    if lines.len() > 0 {
        shown_patch_has_a_piece_per_line(color_of(lines[0].0), lines.drop_first());
    }
}

/// A line of the colour of the line before it is shown without any escape
/// sequence: as its mark and its content alone.
pub proof fn same_color_writes_no_escape(last: Option<LineColor>, line: (char, Seq<char>))
    requires
        color_of(line.0) == last,
    ensures
        shown_line(last, line) == mark_text(line.0) + line.1,
{
    assert(shown_line(last, line) =~= mark_text(line.0) + line.1);
}

} // verus!
