//! The line cache: the front end's copy of what the engine told it to show.

use vstd::prelude::*;
use crate::message::{DrawCommand, DrawCommandView};

verus! {

/// The lines after a draw command: the named line is replaced as a whole;
/// where it lies beyond the lines held so far, they grow to reach it, and
/// the lines between are empty.
pub open spec fn lines_after(lines: Seq<Seq<char>>, cmd: DrawCommandView) -> Seq<Seq<char>> {
    match cmd {
        DrawCommandView::RenderLine { line_num, text } => Seq::new(
            if line_num < lines.len() {
                lines.len()
            } else {
                line_num + 1
            },
            |i: int|
                if i == line_num {
                    text
                } else if 0 <= i < lines.len() {
                    lines[i]
                } else {
                    Seq::empty()
                },
        ),
    }
}

/// No draw command shrinks the cache, and each leaves its own text at its
/// own line.
pub proof fn lemma_lines_after(lines: Seq<Seq<char>>, cmd: DrawCommandView)
    ensures
        lines_after(lines, cmd).len() >= lines.len(),
        lines_after(lines, cmd).len() > cmd->line_num,
        lines_after(lines, cmd)[cmd->line_num as int] == cmd->text,
        forall|i: int|
            0 <= i < lines.len() && i != cmd->line_num ==> lines_after(lines, cmd)[i] == lines[i],
{
}

/// An ordered sequence of lines, indexed by line number.
pub struct LineCache {
    lines: Vec<String>,
}

impl View for LineCache {
    type V = Seq<Seq<char>>;

    closed spec fn view(&self) -> Seq<Seq<char>> {
        self.lines.deep_view()
    }
}

impl LineCache {
    /// The cache that a front end starts with: one empty line.
    pub fn new() -> (cache: LineCache)
        ensures
            cache@ == seq![Seq::<char>::empty()],
    {
        let mut lines: Vec<String> = Vec::new();
        lines.push(String::new());
        assert(lines.deep_view() =~= seq![Seq::<char>::empty()]);
        LineCache { lines }
    }

    /// The number of lines.
    pub fn len(&self) -> (n: usize)
        ensures
            n == self@.len(),
    {
        self.lines.len()
    }

    /// The text of line `line_num`, if the cache reaches that far.
    pub fn line(&self, line_num: usize) -> (r: Option<&String>)
        ensures
            r is Some <==> line_num < self@.len(),
            r matches Some(text) ==> text@ == self@[line_num as int],
    {
        if line_num < self.lines.len() {
            Some(&self.lines[line_num])
        } else {
            None
        }
    }

    /// The lines, first to last.
    pub fn lines(&self) -> (lines: &Vec<String>)
        ensures
            lines.deep_view() == self@,
    {
        &self.lines
    }

    /// Takes over what a draw command says.
    pub fn apply(&mut self, cmd: &DrawCommand)
        ensures
            final(self)@ == lines_after(old(self)@, cmd@),
    {
        match cmd {
            DrawCommand::RenderLine { line_num, text } => {
                let ghost before = self.lines.deep_view();
                while self.lines.len() <= *line_num
                    invariant
                        before.len() <= self.lines.len(),
                        self.lines.len() <= before.len() || self.lines.len() <= *line_num + 1,
                        forall|i: int| 0 <= i < before.len() ==> self.lines[i]@ == before[i],
                        forall|i: int|
                            before.len() <= i < self.lines.len() ==> self.lines[i]@
                                == Seq::<char>::empty(),
                    decreases *line_num + 1 - self.lines.len(),
                {
                    self.lines.push(String::new());
                }
                self.lines[*line_num] = text.clone();
                assert(self.lines.deep_view() =~= lines_after(before, cmd@));
            },
        }
    }
}

} // verus!
