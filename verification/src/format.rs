//! The documents of argument lists and of types.

use vstd::prelude::*;
use crate::ast::TypeAst;
use crate::pretty::blank;
use crate::pretty::break_;
use crate::pretty::fits;
use crate::pretty::flat;
use crate::pretty::laid_out;
use crate::pretty::lead;
use crate::pretty::line;
use crate::pretty::reach;
use crate::pretty::text;
use crate::pretty::Document;
use crate::pretty::Layout;
use crate::text::joined;
use crate::text::lemma_joined_from_front;
use crate::text::spaces;

verus! {

/// The columns by which a nested line is indented.
pub const INDENT: usize = 2;

/// The break between two arguments: a comma and a blank on one line, a comma
/// at the end of the line otherwise.
pub open spec fn delim() -> Layout {
    Layout::Break { broken: ","@, unbroken: ", "@ }
}

/// The items with a `delim` between each two neighbours.
pub open spec fn separated(items: Seq<Layout>) -> Layout
    decreases items.len(),
{
    if items.len() == 0 {
        Layout::Nil
    } else if items.len() == 1 {
        items[0]
    } else {
        items[0].with(delim().with(separated(items.drop_first())))
    }
}

/// An argument list in brackets: `()` when it is empty; else a group that is
/// either on one line, or has each argument on a line of its own, `indent`
/// columns further in and followed by a comma, and the closing bracket on the
/// line after.
pub open spec fn wrapped(items: Seq<Layout>, indent: usize) -> Layout {
    if items.len() == 0 {
        Layout::Text("()"@)
    } else {
        (Layout::Break { broken: "("@, unbroken: "("@ }).with(separated(items)).nested(indent).with(
            Layout::Break { broken: ","@, unbroken: ""@ },
        ).with(Layout::Text(")"@)).grouped()
    }
}

/// The layouts of `docs`, in their order.
pub open spec fn layouts(docs: Seq<Document>) -> Seq<Layout> {
    docs.map_values(|doc: Document| doc@)
}

/// Each text as a layout.
pub open spec fn texts(items: Seq<Seq<char>>) -> Seq<Layout> {
    items.map_values(|item: Seq<char>| Layout::Text(item))
}

/// The layout of the type `t`: a variable or a named type as it is written,
/// a named type after its module and a dot; the arguments of a named type, the
/// elements of a tuple after `#` and the arguments of a function after `fn` as
/// argument lists; the result of a function after ` ->` and a break.
pub open spec fn type_layout(t: TypeAst, indent: usize) -> Layout
    decreases t,
{
    match t {
        TypeAst::Var { name } => Layout::Text(name@),
        TypeAst::Constructor { module, name, args } => {
            let own = if args@.len() == 0 {
                Layout::Text(name@)
            } else {
                Layout::Text(name@).with(wrapped(type_layouts(args@, indent), indent))
            };
            match module {
                Some(from) => Layout::Text(from@).with(Layout::Text("."@)).with(own),
                None => own,
            }
        },
        TypeAst::Fn { args, retrn } => Layout::Text("fn"@).with(
            wrapped(type_layouts(args@, indent), indent),
        ).with(Layout::Text(" ->"@)).with(blank().with(type_layout(*retrn, indent)).nested(indent)),
        TypeAst::Tuple { elems } => Layout::Text("#"@).with(
            wrapped(type_layouts(elems@, indent), indent),
        ),
    }
}

/// The layouts of the types `ts`, in their order.
pub open spec fn type_layouts(ts: Seq<TypeAst>, indent: usize) -> Seq<Layout>
    decreases ts,
{
    Seq::new(
        ts.len(),
        |i: int|
            if 0 <= i < ts.len() {
                type_layout(ts[i], indent)
            } else {
                Layout::Nil
            },
    )
}

/// A list of texts on one line, in brackets.
pub open spec fn list_on_one_line(items: Seq<Seq<char>>) -> Seq<char> {
    "("@ + joined(items, ", "@) + ")"@
}

/// A list of texts, each on a line of its own after `indent` blanks and
/// followed by a comma, between an opening bracket and, after `outer` blanks,
/// a closing one.
pub open spec fn list_on_lines(items: Seq<Seq<char>>, indent: nat, outer: nat) -> Seq<char> {
    "("@ + seq!['\n'] + spaces(indent) + joined(items, ","@ + seq!['\n'] + spaces(indent)) + ","@
        + seq!['\n'] + spaces(outer) + ")"@
}

/// The text of each layout with no break taken.
pub open spec fn flats(items: Seq<Layout>) -> Seq<Seq<char>> {
    items.map_values(|item: Layout| flat(item))
}

/// On one line, separated items are joined by a comma and a blank.
pub proof fn lemma_separated_items_flat(items: Seq<Layout>)
    ensures
        flat(separated(items)) == joined(flats(items), ", "@),
    decreases items.len(),
{
    reveal_with_fuel(flat, 3);
    if items.len() >= 2 {
        lemma_separated_items_flat(items.drop_first());
        lemma_joined_from_front(flats(items), ", "@);
        assert(flats(items).drop_first() == flats(items.drop_first()));
        assert(flat(separated(items)) =~= flat(items[0]) + ", "@ + joined(
            flats(items.drop_first()),
            ", "@,
        ));
    }
}

/// On one line, an argument list is its items between brackets, joined by a
/// comma and a blank.
pub proof fn lemma_wrapped_flat(items: Seq<Layout>, indent: usize)
    ensures
        flat(wrapped(items, indent)) == list_on_one_line(flats(items)),
{
    reveal_with_fuel(flat, 6);
    reveal_strlit("");
    reveal_strlit("(");
    reveal_strlit(")");
    reveal_strlit("()");
    lemma_separated_items_flat(items);
    if items.len() == 0 {
        assert(joined(flats(items), ", "@) =~= Seq::<char>::empty());
        assert("()"@ =~= "("@ + Seq::<char>::empty() + ")"@);
    } else {
        assert(flat(wrapped(items, indent)) =~= list_on_one_line(flats(items)));
    }
}

/// With their breaks taken, separated texts are joined by a comma, the end of
/// the line and the indentation, and end where the last of them ends.
pub proof fn lemma_separated_on_lines(
    items: Seq<Seq<char>>,
    width: usize,
    indent: usize,
    col: usize,
    tail: usize,
)
    requires
        items.len() > 0,
    ensures
        laid_out(separated(texts(items)), width, indent, col, tail).0 == joined(
            items,
            ","@ + seq!['\n'] + spaces(indent as nat),
        ),
    decreases items.len(),
{
    let sep = ","@ + seq!['\n'] + spaces(indent as nat);
    reveal_with_fuel(laid_out, 3);
    if items.len() >= 2 {
        let rest = items.drop_first();
        assert(texts(items).drop_first() == texts(rest));
        lemma_separated_on_lines(rest, width, indent, indent, tail);
        lemma_joined_from_front(items, sep);
        let after = delim().with(separated(texts(rest)));
        let first = laid_out(
            Layout::Text(items[0]),
            width,
            indent,
            col,
            reach(after, tail),
        );
        let second = laid_out(after, width, indent, first.1, tail);
        assert(second.0 =~= sep + joined(rest, sep));
        assert(laid_out(separated(texts(items)), width, indent, col, tail).0 =~= items[0] + sep
            + joined(rest, sep));
    }
}

/// An argument list of texts is laid out on one line where it fits, and with
/// one text on each line otherwise.
pub proof fn lemma_wrapped_texts(
    items: Seq<Seq<char>>,
    width: usize,
    more: usize,
    indent: usize,
    col: usize,
    tail: usize,
)
    requires
        items.len() > 0,
    ensures
        flat(wrapped(texts(items), more)) == list_on_one_line(items),
        laid_out(wrapped(texts(items), more), width, indent, col, tail).0 == if fits(
            wrapped(texts(items), more),
            width,
            col,
            tail,
        ) {
            list_on_one_line(items)
        } else {
            list_on_lines(items, indent.saturating_add(more) as nat, indent as nat)
        },
{
    reveal_with_fuel(flat, 6);
    reveal_with_fuel(laid_out, 6);
    reveal_with_fuel(lead, 3);
    lemma_wrapped_flat(texts(items), more);
    assert(flats(texts(items)) =~= items);
    let inner = indent.saturating_add(more);
    lemma_separated_on_lines(items, width, inner, inner, 0);
    let open = Layout::Break { broken: "("@, unbroken: "("@ };
    let close = Layout::Break { broken: ","@, unbroken: ""@ };
    let body = open.with(separated(texts(items))).nested(more).with(close).with(Layout::Text(")"@));
    assert(wrapped(texts(items), more) == body.grouped());
    if !fits(wrapped(texts(items), more), width, col, tail) {
        assert(!fits(body, width, col, tail));
        let listed = laid_out(
            open.with(separated(texts(items))),
            width,
            inner,
            col,
            0,
        );
        assert(listed.0 =~= "("@ + seq!['\n'] + spaces(inner as nat) + joined(
            items,
            ","@ + seq!['\n'] + spaces(inner as nat),
        ));
        assert(laid_out(body, width, indent, col, tail).0 =~= list_on_lines(
            items,
            inner as nat,
            indent as nat,
        ));
    }
}

/// The type `t` on one line.
pub open spec fn type_text(t: TypeAst) -> Seq<char>
    decreases t,
{
    match t {
        TypeAst::Var { name } => name@,
        TypeAst::Constructor { module, name, args } => {
            let own = if args@.len() == 0 {
                name@
            } else {
                name@ + list_on_one_line(type_texts(args@))
            };
            match module {
                Some(from) => from@ + "."@ + own,
                None => own,
            }
        },
        TypeAst::Fn { args, retrn } => "fn"@ + list_on_one_line(type_texts(args@)) + " ->"@ + " "@
            + type_text(*retrn),
        TypeAst::Tuple { elems } => "#"@ + list_on_one_line(type_texts(elems@)),
    }
}

/// The types `ts` on one line each, in their order.
pub open spec fn type_texts(ts: Seq<TypeAst>) -> Seq<Seq<char>>
    decreases ts,
{
    Seq::new(
        ts.len(),
        |i: int|
            if 0 <= i < ts.len() {
                type_text(ts[i])
            } else {
                Seq::empty()
            },
    )
}

/// With no break taken, the layout of a type is the type on one line.
pub proof fn lemma_type_flat(t: TypeAst, indent: usize)
    ensures
        flat(type_layout(t, indent)) == type_text(t),
    decreases t,
{
    reveal_with_fuel(flat, 6);
    match t {
        TypeAst::Var { name } => {},
        TypeAst::Constructor { module, name, args } => {
            lemma_types_flat(args@, indent);
            lemma_wrapped_flat(type_layouts(args@, indent), indent);
            let own = if args@.len() == 0 {
                name@
            } else {
                name@ + list_on_one_line(type_texts(args@))
            };
            match module {
                Some(from) => {
                    assert(flat(type_layout(t, indent)) =~= from@ + "."@ + own);
                },
                None => {},
            }
        },
        TypeAst::Fn { args, retrn } => {
            lemma_types_flat(args@, indent);
            lemma_wrapped_flat(type_layouts(args@, indent), indent);
            lemma_type_flat(*retrn, indent);
            assert(flat(type_layout(t, indent)) =~= type_text(t));
        },
        TypeAst::Tuple { elems } => {
            lemma_types_flat(elems@, indent);
            lemma_wrapped_flat(type_layouts(elems@, indent), indent);
        },
    }
}

/// With no break taken, the layouts of types are the types on one line each.
pub proof fn lemma_types_flat(ts: Seq<TypeAst>, indent: usize)
    ensures
        flats(type_layouts(ts, indent)) == type_texts(ts),
    decreases ts,
{
    assert forall|i: int| 0 <= i < ts.len() implies flats(type_layouts(ts, indent))[i]
        == type_texts(ts)[i] by {
        lemma_type_flat(ts[i], indent);
    }
    assert(flats(type_layouts(ts, indent)) =~= type_texts(ts));
}

/// The document of an argument list in brackets.
pub fn wrap_args(args: Vec<Document>, indent: usize) -> (doc: Document)
    ensures
        doc@ == wrapped(layouts(args@), indent),
{
    let ghost items = layouts(args@);
    let mut args = args;
    match args.pop() {
        None => text("()"),
        Some(last) => {
            let mut list = last;
            assert(items.subrange(items.len() - 1, items.len() as int).len() == 1);
            while args.len() > 0
                invariant
                    args@.len() < items.len(),
                    layouts(args@) == items.take(args@.len() as int),
                    list@ == separated(items.subrange(args@.len() as int, items.len() as int)),
                decreases args.len(),
            {
                let ghost before = args@;
                let ghost tail = items.subrange(args@.len() as int, items.len() as int);
                let previous = args.pop().unwrap();
                proof {
                    let whole = items.subrange(args@.len() as int, items.len() as int);
                    assert(whole.drop_first() == tail);
                    assert(whole[0] == layouts(before)[before.len() - 1]);
                    assert(layouts(args@) == items.take(args@.len() as int));
                }
                list = previous.append(break_(",", ", ").append(list));
            }
            assert(items.subrange(0, items.len() as int) == items);
            break_("(", "(").append(list).nest(indent).append(break_(",", "")).append(
                text(")"),
            ).group()
        },
    }
}

/// The document of the type `t`.
pub fn type_ast(t: &TypeAst, indent: usize) -> (doc: Document)
    ensures
        doc@ == type_layout(*t, indent),
    decreases t,
{
    match t {
        TypeAst::Var { name } => text(name.as_str()),
        TypeAst::Constructor { module, name, args } => {
            let own = if args.len() == 0 {
                text(name.as_str())
            } else {
                text(name.as_str()).append(wrap_args(type_asts(args, indent), indent))
            };
            match module {
                Some(from) => text(from.as_str()).append(text(".")).append(own),
                None => own,
            }
        },
        TypeAst::Fn { args, retrn } => text("fn").append(
            wrap_args(type_asts(args, indent), indent),
        ).append(text(" ->")).append(line().append(type_ast(retrn, indent)).nest(indent)),
        TypeAst::Tuple { elems } => text("#").append(wrap_args(type_asts(elems, indent), indent)),
    }
}

/// The documents of the types `ts`, in their order.
pub fn type_asts(ts: &Vec<TypeAst>, indent: usize) -> (docs: Vec<Document>)
    ensures
        layouts(docs@) == type_layouts(ts@, indent),
    decreases ts,
{
    let mut docs: Vec<Document> = Vec::new();
    let mut i: usize = 0;
    while i < ts.len()
        invariant
            i <= ts.len(),
            docs@.len() == i,
            forall|j: int| 0 <= j < i ==> (#[trigger] docs@[j])@ == type_layout(ts@[j], indent),
        decreases ts.len() - i,
    {
        docs.push(type_ast(&ts[i], indent));
        i += 1;
    }
    assert(layouts(docs@) =~= type_layouts(ts@, indent));
    docs
}

} // verus!
