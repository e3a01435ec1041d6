//! Documents with optional line breaks, and their layout within a width.
//!
//! A document is a tree of text and of places where a line may end. A group is
//! laid out on one line when that line stays within the width, and otherwise
//! with every break of its own taken; the groups inside it then decide for
//! themselves. Columns are machine words, and a sum of columns stops at
//! `usize::MAX`.

use vstd::prelude::*;
use vstd::string::StrSliceExecFns;
use vstd::string::StringExecFns;
use crate::text::push_spaces;
use crate::text::spaces;

verus! {

/// A document to lay out.
#[derive(Debug)]
pub enum Document {
    /// Nothing.
    Nil,
    /// Text that is never split.
    Text(String),
    /// A place where the line may end: `unbroken` when it does not, `broken`
    /// followed by a new line and the indentation when it does.
    Break { broken: String, unbroken: String },
    /// One document after another.
    Cons(Box<Document>, Box<Document>),
    /// A document whose lines start this many columns further in.
    Nest(usize, Box<Document>),
    /// A document that is laid out on one line where it fits.
    Group(Box<Document>),
}

/// What a `Document` is in contracts: the same tree over `Seq<char>`.
pub enum Layout {
    Nil,
    Text(Seq<char>),
    Break { broken: Seq<char>, unbroken: Seq<char> },
    Cons(Box<Layout>, Box<Layout>),
    Nest(usize, Box<Layout>),
    Group(Box<Layout>),
}

impl Layout {
    /// This layout followed by `next`.
    pub open spec fn with(self, next: Layout) -> Layout {
        Layout::Cons(Box::new(self), Box::new(next))
    }

    /// This layout with its lines `indent` columns further in.
    pub open spec fn nested(self, indent: usize) -> Layout {
        Layout::Nest(indent, Box::new(self))
    }

    /// This layout as a group.
    pub open spec fn grouped(self) -> Layout {
        Layout::Group(Box::new(self))
    }
}

/// The tree of `doc` over `Seq<char>`.
pub open spec fn layout_of(doc: Document) -> Layout
    decreases doc,
{
    match doc {
        Document::Nil => Layout::Nil,
        Document::Text(text) => Layout::Text(text@),
        Document::Break { broken, unbroken } => Layout::Break {
            broken: broken@,
            unbroken: unbroken@,
        },
        Document::Cons(first, second) => layout_of(*first).with(layout_of(*second)),
        Document::Nest(indent, inner) => layout_of(*inner).nested(indent),
        Document::Group(inner) => layout_of(*inner).grouped(),
    }
}

impl View for Document {
    type V = Layout;

    open spec fn view(&self) -> Layout {
        layout_of(*self)
    }
}

/// The text of `l` with no break taken.
pub open spec fn flat(l: Layout) -> Seq<char>
    decreases l,
{
    match l {
        Layout::Nil => Seq::empty(),
        Layout::Text(text) => text,
        Layout::Break { broken, unbroken } => unbroken,
        Layout::Cons(first, second) => flat(*first) + flat(*second),
        Layout::Nest(indent, inner) => flat(*inner),
        Layout::Group(inner) => flat(*inner),
    }
}

/// The width of the text with which `l` begins, up to its first break, and
/// whether it has a break.
pub open spec fn lead(l: Layout) -> (usize, bool)
    decreases l,
{
    match l {
        Layout::Nil => (0, false),
        Layout::Text(text) => (clip(text.len()), false),
        Layout::Break { broken, unbroken } => (0, true),
        Layout::Cons(first, second) => {
            let (width, ends) = lead(*first);
            if ends {
                (width, true)
            } else {
                (width.saturating_add(lead(*second).0), lead(*second).1)
            }
        },
        Layout::Nest(indent, inner) => lead(*inner),
        Layout::Group(inner) => lead(*inner),
    }
}

/// A length as a column.
pub open spec fn clip(n: nat) -> usize {
    if n > usize::MAX {
        usize::MAX
    } else {
        n as usize
    }
}

/// The width of what stands on the line after the point where `l` begins, when
/// `tail` columns follow `l` before the next break.
pub open spec fn reach(l: Layout, tail: usize) -> usize {
    if lead(l).1 {
        lead(l).0
    } else {
        lead(l).0.saturating_add(tail)
    }
}

/// Whether a group with content `l` stays on the line: it begins at column
/// `col`, and `tail` columns follow it before the next break.
pub open spec fn fits(l: Layout, width: usize, col: usize, tail: usize) -> bool {
    col + flat(l).len() + tail <= width
}

/// The layout of `l` with its breaks taken: the text, and the column at which
/// it ends. The lines start at `indent`, `l` begins at column `col`, and `tail`
/// columns follow it before the next break.
pub open spec fn laid_out(l: Layout, width: usize, indent: usize, col: usize, tail: usize) -> (
    Seq<char>,
    usize,
)
    decreases l,
{
    match l {
        Layout::Nil => (Seq::empty(), col),
        Layout::Text(text) => (text, col.saturating_add(clip(text.len()))),
        Layout::Break { broken, unbroken } => (broken + seq!['\n'] + spaces(indent as nat), indent),
        Layout::Cons(first, second) => {
            let (text, middle) = laid_out(*first, width, indent, col, reach(*second, tail));
            let (rest, end) = laid_out(*second, width, indent, middle, tail);
            (text + rest, end)
        },
        Layout::Nest(more, inner) => laid_out(
            *inner,
            width,
            indent.saturating_add(more),
            col,
            tail,
        ),
        Layout::Group(inner) => if fits(*inner, width, col, tail) {
            (flat(*inner), (col + flat(*inner).len()) as usize)
        } else {
            laid_out(*inner, width, indent, col, tail)
        },
    }
}

/// The text of `l` laid out within `width` columns: `l` as one group that
/// begins a line at column 0.
pub open spec fn rendered(width: usize, l: Layout) -> Seq<char> {
    laid_out(l.grouped(), width, 0, 0, 0).0
}

/// The width of `text` as a column.
fn text_width(text: &str) -> (width: usize)
    ensures
        width == clip(text@.len()),
        width == text@.len(),
{
    text.unicode_len()
}

/// What is left of `room` columns after `doc` on one line, if it has room.
fn room_after(doc: &Document, room: usize) -> (left: Option<usize>)
    ensures
        match left {
            Some(rest) => flat(doc@).len() + rest == room,
            None => flat(doc@).len() > room,
        },
    decreases doc,
{
    match doc {
        Document::Nil => Some(room),
        Document::Text(text) => {
            let width: usize = text_width(text.as_str());
            if width <= room {
                Some(room - width)
            } else {
                None
            }
        },
        Document::Break { broken, unbroken } => {
            let width: usize = text_width(unbroken.as_str());
            if width <= room {
                Some(room - width)
            } else {
                None
            }
        },
        Document::Cons(first, second) => match room_after(first, room) {
            Some(rest) => room_after(second, rest),
            None => None,
        },
        Document::Nest(indent, inner) => room_after(inner, room),
        Document::Group(inner) => room_after(inner, room),
    }
}

/// The width of the text with which `doc` begins, and whether it has a break.
fn lead_of(doc: &Document) -> (found: (usize, bool))
    ensures
        found == lead(doc@),
    decreases doc,
{
    match doc {
        Document::Nil => (0, false),
        Document::Text(text) => (text_width(text.as_str()), false),
        Document::Break { broken, unbroken } => (0, true),
        Document::Cons(first, second) => {
            let (width, ends): (usize, bool) = lead_of(first);
            if ends {
                (width, true)
            } else {
                let (more, ends): (usize, bool) = lead_of(second);
                (width.saturating_add(more), ends)
            }
        },
        Document::Nest(indent, inner) => lead_of(inner),
        Document::Group(inner) => lead_of(inner),
    }
}

/// What is left of the line when a group with content `doc` stays on it, and
/// `None` when it does not.
fn room_on_line(doc: &Document, width: usize, col: usize, tail: usize) -> (left: Option<usize>)
    ensures
        left is Some == fits(doc@, width, col, tail),
        left matches Some(rest) ==> col + flat(doc@).len() + tail + rest == width,
{
    if col > width || tail > width - col {
        return None;
    }
    room_after(doc, width - col - tail)
}

/// Adds the text of `doc`, with no break taken, to `out`.
fn write_flat(doc: &Document, out: &mut String)
    ensures
        final(out)@ == old(out)@ + flat(doc@),
    decreases doc,
{
    match doc {
        Document::Nil => {},
        Document::Text(text) => out.append(text.as_str()),
        Document::Break { broken, unbroken } => out.append(unbroken.as_str()),
        Document::Cons(first, second) => {
            write_flat(first, out);
            write_flat(second, out);
            assert(old(out)@ + flat(first@) + flat(second@) =~= old(out)@ + (flat(first@) + flat(
                second@,
            )));
        },
        Document::Nest(indent, inner) => write_flat(inner, out),
        Document::Group(inner) => write_flat(inner, out),
    }
    assert(out@ =~= old(out)@ + flat(doc@));
}

/// Adds the layout of `doc`, with its breaks taken, to `out`, and returns the
/// column at which it ends.
fn write_broken(
    doc: &Document,
    width: usize,
    indent: usize,
    col: usize,
    tail: usize,
    out: &mut String,
) -> (end: usize)
    ensures
        final(out)@ == old(out)@ + laid_out(doc@, width, indent, col, tail).0,
        end == laid_out(doc@, width, indent, col, tail).1,
    decreases doc,
{
    match doc {
        Document::Nil => col,
        Document::Text(text) => {
            out.append(text.as_str());
            col.saturating_add(text_width(text.as_str()))
        },
        Document::Break { broken, unbroken } => {
            out.append(broken.as_str());
            out.append("\n");
            push_spaces(out, indent);
            proof {
                reveal_strlit("\n");
                assert("\n"@ =~= seq!['\n']);
                assert(out@ =~= old(out)@ + (broken@ + seq!['\n'] + spaces(indent as nat)));
            }
            indent
        },
        Document::Cons(first, second) => {
            let (width_after, ends): (usize, bool) = lead_of(second);
            let follows: usize = if ends {
                width_after
            } else {
                width_after.saturating_add(tail)
            };
            let middle: usize = write_broken(first, width, indent, col, follows, out);
            let end: usize = write_broken(second, width, indent, middle, tail, out);
            proof {
                let text = laid_out(first@, width, indent, col, follows).0;
                let rest = laid_out(second@, width, indent, middle, tail).0;
                assert(out@ =~= old(out)@ + (text + rest));
            }
            end
        },
        Document::Nest(more, inner) => write_broken(
            inner,
            width,
            indent.saturating_add(*more),
            col,
            tail,
            out,
        ),
        Document::Group(inner) => match room_on_line(inner, width, col, tail) {
            Some(rest) => {
                write_flat(inner, out);
                width - tail - rest
            },
            None => write_broken(inner, width, indent, col, tail, out),
        },
    }
}

/// Lays `doc` out within `width` columns.
pub fn format(width: usize, doc: &Document) -> (text: String)
    ensures
        text@ == rendered(width, doc@),
{
    let mut text = String::new();
    match room_on_line(doc, width, 0, 0) {
        Some(rest) => write_flat(doc, &mut text),
        None => {
            write_broken(doc, width, 0, 0, 0, &mut text);
        },
    }
    assert(text@ =~= rendered(width, doc@));
    text
}

/// A document that fits within the width on one line is laid out as its text
/// with no break taken.
pub proof fn lemma_fitting_is_flat(width: usize, l: Layout)
    requires
        flat(l).len() <= width,
    ensures
        rendered(width, l) == flat(l),
{
}

/// The document that holds nothing.
pub fn nil() -> (doc: Document)
    ensures
        doc@ == Layout::Nil,
{
    Document::Nil
}

/// The document that holds `content`.
pub fn text(content: &str) -> (doc: Document)
    ensures
        doc@ == Layout::Text(content@),
{
    Document::Text(String::from_str(content))
}

/// A break that is `unbroken` on one line, and `broken` before the new line.
pub fn break_(broken: &str, unbroken: &str) -> (doc: Document)
    ensures
        doc@ == (Layout::Break { broken: broken@, unbroken: unbroken@ }),
{
    Document::Break { broken: String::from_str(broken), unbroken: String::from_str(unbroken) }
}

/// The break between words: a blank on one line, else the end of the line.
pub open spec fn blank() -> Layout {
    Layout::Break { broken: ""@, unbroken: " "@ }
}

/// A blank where the line may end.
pub fn line() -> (doc: Document)
    ensures
        doc@ == blank(),
{
    break_("", " ")
}

impl Document {
    /// This document followed by `next`.
    pub fn append(self, next: Document) -> (doc: Document)
        ensures
            doc@ == self@.with(next@),
    {
        Document::Cons(Box::new(self), Box::new(next))
    }

    /// This document with its lines `indent` columns further in.
    pub fn nest(self, indent: usize) -> (doc: Document)
        ensures
            doc@ == self@.nested(indent),
    {
        Document::Nest(indent, Box::new(self))
    }

    /// This document as a group.
    pub fn group(self) -> (doc: Document)
        ensures
            doc@ == self@.grouped(),
    {
        Document::Group(Box::new(self))
    }
}

} // verus!
