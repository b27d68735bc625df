//! The document: the text buffer and the cursor of the engine.

use vstd::prelude::*;
use ropey::Rope;
use crate::message::{DecodeFailed, DrawCommand, DrawCommandView, Op};
use crate::lines::{
    lemma_last_line_has_no_line_feed, lemma_line_feeds_monotonic, lemma_line_holds_index,
    line_count, line_feeds_before, line_start, line_text,
};
use crate::rope::{
    rope_char_to_line, rope_insert_char, rope_len_chars, rope_line, rope_new, rope_text,
    rope_to_string,
};

verus! {

/// The mathematical content of a [`Document`]: its text and the character
/// offset of its cursor.
pub struct DocumentView {
    pub text: Seq<char>,
    pub cursor: nat,
}

impl DocumentView {
    /// The document that an engine starts with.
    pub open spec fn empty() -> DocumentView {
        DocumentView { text: Seq::empty(), cursor: 0 }
    }

    /// The cursor lies in the text or at its end.
    pub open spec fn wf(self) -> bool {
        self.cursor <= self.text.len()
    }

    /// The document after one operation.
    pub open spec fn apply(self, op: Op) -> DocumentView {
        match op {
            Op::InsertChar(c) => DocumentView {
                text: self.text.insert(self.cursor as int, c),
                cursor: self.cursor + 1,
            },
        }
    }

    /// The document after a sequence of operations, applied in order.
    pub open spec fn apply_all(self, ops: Seq<Op>) -> DocumentView
        decreases ops.len(),
    {
        if ops.len() == 0 {
            self
        } else {
            self.apply_all(ops.drop_last()).apply(ops.last())
        }
    }

    /// The index of the line that holds the cursor.
    pub open spec fn cursor_line(self) -> nat {
        line_feeds_before(self.text, self.cursor as int)
    }

    /// The draw command that brings a front end up to date: the whole line
    /// that holds the cursor.
    pub open spec fn render(self) -> DrawCommandView {
        DrawCommandView::RenderLine {
            line_num: self.cursor_line(),
            text: line_text(self.text, self.cursor_line()),
        }
    }
}

/// The characters that a sequence of operations inserts, in order.
pub open spec fn typed_chars(ops: Seq<Op>) -> Seq<char>
    decreases ops.len(),
{
    if ops.len() == 0 {
        Seq::empty()
    } else {
        match ops.last() {
            Op::InsertChar(c) => typed_chars(ops.drop_last()).push(c),
        }
    }
}

/// An operation makes the text longer by one character, moves the cursor on
/// by one, and keeps it inside the text.
pub proof fn lemma_apply_moves_cursor_on(doc: DocumentView, op: Op)
    requires
        doc.wf(),
    ensures
        doc.apply(op).wf(),
        doc.apply(op).cursor == doc.cursor + 1,
        doc.apply(op).text.len() == doc.text.len() + 1,
{
}

/// Operations applied in order to an empty document make up, of the
/// characters they insert, the text in that same order, and leave the cursor
/// behind the last of them.
pub proof fn lemma_insertions_concatenate(ops: Seq<Op>)
    ensures
        DocumentView::empty().apply_all(ops).text == typed_chars(ops),
        DocumentView::empty().apply_all(ops).cursor == ops.len(),
        typed_chars(ops).len() == ops.len(),
    decreases ops.len(),
{
    if ops.len() > 0 {
        lemma_insertions_concatenate(ops.drop_last());
        let before = DocumentView::empty().apply_all(ops.drop_last());
        assert(before.cursor == before.text.len());
        assert(before.apply(ops.last()).text =~= typed_chars(ops));
    } else {
        assert(DocumentView::empty().text =~= typed_chars(ops));
    }
}

/// With the cursor at the end of the text, as typing into an empty document
/// leaves it, the line to render is the last one: what stands behind the
/// last line feed, up to the end of the text, and no line feed is in it.
pub proof fn lemma_render_at_end(doc: DocumentView)
    requires
        doc.cursor == doc.text.len(),
    ensures
        doc.cursor_line() + 1 == line_count(doc.text),
        doc.render()->text == doc.text.subrange(
            line_start(doc.text, doc.cursor_line()) as int,
            doc.text.len() as int,
        ),
        forall|i: int| 0 <= i < doc.render()->text.len() ==> doc.render()->text[i] != '\n',
{
    let text = doc.text;
    let line = doc.cursor_line();
    lemma_line_holds_index(text, text.len() as int);
    assert forall|i: int| 0 <= i < doc.render()->text.len() implies doc.render()->text[i]
        != '\n' by {
        lemma_last_line_has_no_line_feed(text, line_start(text, line) + i);
    }
}

/// The text buffer of the engine, with its cursor.
pub struct Document {
    rope: Rope,
    cursor: usize,
}

impl View for Document {
    type V = DocumentView;

    closed spec fn view(&self) -> DocumentView {
        DocumentView { text: rope_text(self.rope), cursor: self.cursor as nat }
    }
}

impl Document {
    #[verifier::type_invariant]
    spec fn inv(&self) -> bool {
        self.cursor <= rope_text(self.rope).len()
    }

    /// An empty document, with the cursor at offset 0.
    pub fn new() -> (doc: Document)
        ensures
            doc@ == DocumentView::empty(),
    {
        Document { rope: rope_new(), cursor: 0 }
    }

    /// The character offset of the cursor.
    pub fn cursor(&self) -> (offset: usize)
        ensures
            offset == self@.cursor,
            self@.wf(),
    {
        proof {
            use_type_invariant(self);
        }
        self.cursor
    }

    /// The number of characters in the text.
    pub fn len_chars(&self) -> (n: usize)
        ensures
            n == self@.text.len(),
    {
        rope_len_chars(&self.rope)
    }

    /// The whole text.
    pub fn text(&self) -> (text: String)
        ensures
            text@ == self@.text,
    {
        rope_to_string(&self.rope)
    }

    /// The draw command for the line that holds the cursor.
    pub fn render(&self) -> (cmd: DrawCommand)
        ensures
            cmd@ == self@.render(),
    {
        proof {
            use_type_invariant(self);
            lemma_line_feeds_monotonic(
                rope_text(self.rope),
                self.cursor as int,
                rope_text(self.rope).len() as int,
            );
        }
        let line_num = rope_char_to_line(&self.rope, self.cursor);
        let text = rope_line(&self.rope, line_num);
        DrawCommand::RenderLine { line_num, text }
    }

    /// Applies one operation and answers with the draw command for the line
    /// on which the cursor then stands.
    pub fn apply(&mut self, op: Op) -> (cmd: DrawCommand)
        ensures
            final(self)@ == old(self)@.apply(op),
            cmd@ == final(self)@.render(),
    {
        proof {
            use_type_invariant(&*self);
        }
        match op {
            Op::InsertChar(c) => {
                rope_insert_char(&mut self.rope, self.cursor, c);
                let end = rope_len_chars(&self.rope);
                self.cursor = if self.cursor < end {
                    self.cursor + 1
                } else {
                    end
                };
            },
        }
        self.render()
    }

    /// Acts on what a decoder made of a payload: a decoded operation is
    /// applied, a malformed payload is discarded and leaves the document as
    /// it was.
    pub fn handle(&mut self, decoded: Result<Op, DecodeFailed>) -> (r: Result<
        DrawCommand,
        DecodeFailed,
    >)
        ensures
            decoded is Ok ==> final(self)@ == old(self)@.apply(decoded->Ok_0),
            decoded is Ok ==> r is Ok && r->Ok_0@ == final(self)@.render(),
            decoded is Err ==> final(self)@ == old(self)@ && r is Err,
    {
        match decoded {
            Ok(op) => Ok(self.apply(op)),
            Err(e) => Err(e),
        }
    }
}

} // verus!
