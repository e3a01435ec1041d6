//! The signatures of type declarations, laid out within a width.

use vstd::prelude::*;
use crate::ast::TypeAst;
use crate::declaration::Declaration;
use crate::format::lemma_type_flat;
use crate::format::lemma_wrapped_texts;
use crate::format::list_on_lines;
use crate::format::list_on_one_line;
use crate::format::texts;
use crate::format::type_ast;
use crate::format::type_layout;
use crate::format::type_text;
use crate::format::wrap_args;
use crate::format::wrapped;
use crate::pretty::Document;
use crate::pretty::Layout;
use crate::pretty::blank;
use crate::pretty::fits;
use crate::pretty::flat;
use crate::pretty::laid_out;
use crate::pretty::lemma_fitting_is_flat;
use crate::pretty::line;
use crate::pretty::nil;
use crate::pretty::reach;
use crate::pretty::rendered;
use crate::pretty::text;

verus! {

/// The width within which signatures are laid out.
pub const MAX_COLUMNS: usize = 65;

/// The layout of a list of type parameters: nothing where there are none,
/// else an argument list.
pub open spec fn params_layout(params: Seq<Seq<char>>, indent: usize) -> Layout {
    if params.len() == 0 {
        Layout::Nil
    } else {
        wrapped(texts(params), indent)
    }
}

/// The layout of the signature of an external type: the keywords, the name and
/// the type parameters.
pub open spec fn external_type_layout(
    name: Seq<char>,
    params: Seq<Seq<char>>,
    indent: usize,
) -> Layout {
    Layout::Text("pub external type "@).with(Layout::Text(name)).with(params_layout(params, indent))
}

/// The layout of the signature of a type alias: the keywords, the name, the
/// type parameters and ` =`; then, as a group, a break and the aliased type,
/// whose lines are `indent` columns further in.
pub open spec fn type_alias_layout(
    name: Seq<char>,
    params: Seq<Seq<char>>,
    typ: TypeAst,
    indent: usize,
) -> Layout {
    Layout::Text("pub type "@).with(Layout::Text(name)).with(params_layout(params, indent)).with(
        Layout::Text(" ="@),
    ).with(blank().with(type_layout(typ, indent)).grouped().nested(indent))
}

/// The signature of an external type: the keywords and the name; then, where
/// it has type parameters, their list in brackets, on the same line when the
/// whole is no wider than `width`, and otherwise with each parameter on a line
/// of its own after `indent` blanks.
pub open spec fn external_type_text(
    name: Seq<char>,
    params: Seq<Seq<char>>,
    width: usize,
    indent: usize,
) -> Seq<char> {
    let head = "pub external type "@ + name;
    if params.len() == 0 {
        head
    } else if head.len() + list_on_one_line(params).len() <= width {
        head + list_on_one_line(params)
    } else {
        head + list_on_lines(params, indent as nat, 0)
    }
}

/// The signature of a type alias on one line.
pub open spec fn type_alias_on_one_line(
    name: Seq<char>,
    params: Seq<Seq<char>>,
    typ: TypeAst,
) -> Seq<char> {
    let list = if params.len() == 0 {
        Seq::empty()
    } else {
        list_on_one_line(params)
    };
    "pub type "@ + name + list + " ="@ + " "@ + type_text(typ)
}

/// A type alias whose signature on one line is no wider than the width has
/// that line as its signature.
pub proof fn lemma_type_alias_on_one_line(
    name: Seq<char>,
    params: Seq<Seq<char>>,
    typ: TypeAst,
    width: usize,
    indent: usize,
)
    requires
        type_alias_on_one_line(name, params, typ).len() <= width,
    ensures
        rendered(width, type_alias_layout(name, params, typ, indent)) == type_alias_on_one_line(
            name,
            params,
            typ,
        ),
{
    reveal_with_fuel(flat, 8);
    lemma_type_flat(typ, indent);
    if params.len() > 0 {
        lemma_wrapped_texts(params, width, indent, 0, 0, 0);
    }
    let whole = type_alias_layout(name, params, typ, indent);
    assert(flat(whole) =~= type_alias_on_one_line(name, params, typ));
    lemma_fitting_is_flat(width, whole);
}

/// The signature of an external type is the layout of its parts within the
/// width.
pub proof fn lemma_external_type_text(
    name: Seq<char>,
    params: Seq<Seq<char>>,
    width: usize,
    indent: usize,
)
    ensures
        rendered(width, external_type_layout(name, params, indent)) == external_type_text(
            name,
            params,
            width,
            indent,
        ),
{
    reveal_with_fuel(flat, 4);
    reveal_with_fuel(laid_out, 4);
    let head = "pub external type "@ + name;
    let start = Layout::Text("pub external type "@).with(Layout::Text(name));
    let list = params_layout(params, indent);
    let whole = start.with(list);
    assert(flat(whole) =~= head + flat(list));
    let begun = laid_out(start, width, 0, 0, reach(list, 0));
    assert(begun.0 =~= head);
    if params.len() == 0 {
        assert(laid_out(whole, width, 0, 0, 0).0 =~= head);
        assert(flat(whole) =~= head);
    } else {
        lemma_wrapped_texts(params, width, indent, 0, begun.1, 0);
        reveal_strlit("(");
        reveal_strlit(")");
        assert(list_on_one_line(params).len() >= 2);
        if !fits(whole, width, 0, 0) {
            assert(!fits(list, width, begun.1, 0));
            assert(laid_out(whole, width, 0, 0, 0).0 =~= head + list_on_lines(
                params,
                indent as nat,
                0,
            ));
        }
    }
}

/// The document of a list of type parameters.
fn type_params(args: &[String], indent: usize) -> (doc: Document)
    ensures
        doc@ == params_layout(args.deep_view(), indent),
{
    if args.len() == 0 {
        return nil();
    }
    let mut items: Vec<Document> = Vec::new();
    let mut i: usize = 0;
    while i < args.len()
        invariant
            i <= args.len(),
            items@.len() == i,
            forall|j: int| 0 <= j < i ==> (#[trigger] items@[j])@ == Layout::Text(args@[j]@),
        decreases args.len() - i,
    {
        items.push(text(args[i].as_str()));
        i += 1;
    }
    assert(crate::format::layouts(items@) =~= texts(args.deep_view()));
    wrap_args(items, indent)
}

/// The signature of an external type, laid out within `width` columns.
pub fn external_type(name: &str, args: &[String], width: usize, indent: usize) -> (signature: String)
    ensures
        signature@ == external_type_text(name@, args.deep_view(), width, indent),
{
    let doc = text("pub external type ").append(text(name)).append(type_params(args, indent));
    proof {
        lemma_external_type_text(name@, args.deep_view(), width, indent);
    }
    crate::pretty::format(width, &doc)
}

/// The signature of a type alias, laid out within `width` columns.
pub fn type_alias(name: &str, args: &[String], typ: &TypeAst, width: usize, indent: usize) -> (signature:
    String)
    ensures
        signature@ == rendered(width, type_alias_layout(name@, args.deep_view(), *typ, indent)),
        type_alias_on_one_line(name@, args.deep_view(), *typ).len() <= width ==> signature@
            == type_alias_on_one_line(name@, args.deep_view(), *typ),
{
    proof {
        if type_alias_on_one_line(name@, args.deep_view(), *typ).len() <= width {
            lemma_type_alias_on_one_line(name@, args.deep_view(), *typ, width, indent);
        }
    }
    let doc = text("pub type ").append(text(name)).append(type_params(args, indent)).append(
        text(" ="),
    ).append(line().append(type_ast(typ, indent)).group().nest(indent));
    crate::pretty::format(width, &doc)
}

/// The signature of a declaration within `width` columns: that of an external
/// type or of a type alias; a function or a custom type has none.
pub open spec fn signature_text(declaration: Declaration, width: usize, indent: usize) -> Seq<char> {
    match declaration {
        Declaration::ExternalType { name, doc, type_params } => external_type_text(
            name@,
            type_params.deep_view(),
            width,
            indent,
        ),
        Declaration::TypeAlias { name, doc, type_params, aliased_type } => rendered(
            width,
            type_alias_layout(name@, type_params.deep_view(), *aliased_type, indent),
        ),
        Declaration::Function { name, doc } => Seq::empty(),
        Declaration::CustomType { name, doc } => Seq::empty(),
    }
}

/// The signature of a declaration, laid out within `width` columns.
pub fn format_signature(declaration: &Declaration, width: usize, indent: usize) -> (signature: String)
    ensures
        signature@ == signature_text(*declaration, width, indent),
{
    match declaration {
        Declaration::ExternalType { name, doc, type_params } => external_type(
            name.as_str(),
            type_params.as_slice(),
            width,
            indent,
        ),
        Declaration::TypeAlias { name, doc, type_params, aliased_type } => type_alias(
            name.as_str(),
            type_params.as_slice(),
            aliased_type,
            width,
            indent,
        ),
        Declaration::Function { name, doc } => String::new(),
        Declaration::CustomType { name, doc } => String::new(),
    }
}

/// The signature of an external type or of a type alias begins with its
/// keywords and its name, whatever the width.
pub proof fn lemma_signature_begins(declaration: Declaration, width: usize, indent: usize)
    ensures
        match declaration {
            Declaration::ExternalType { name, doc, type_params } => ("pub external type "@
                + name@).is_prefix_of(signature_text(declaration, width, indent)),
            Declaration::TypeAlias { name, doc, type_params, aliased_type } => ("pub type "@
                + name@).is_prefix_of(signature_text(declaration, width, indent)),
            _ => signature_text(declaration, width, indent).len() == 0,
        },
{
    match declaration {
        Declaration::TypeAlias { name, doc, type_params, aliased_type } => {
            reveal_with_fuel(flat, 6);
            reveal_with_fuel(laid_out, 6);
            let head = "pub type "@ + name@;
            let whole = type_alias_layout(name@, type_params.deep_view(), *aliased_type, indent);
            let start = Layout::Text("pub type "@).with(Layout::Text(name@));
            let list = params_layout(type_params.deep_view(), indent);
            let equals = Layout::Text(" ="@);
            let body = blank().with(type_layout(*aliased_type, indent)).grouped().nested(indent);
            assert(whole == start.with(list).with(equals).with(body));
            assert(flat(whole) =~= head + (flat(list) + " ="@
                + flat(body)));
            let after_list = reach(equals, reach(body, 0));
            let begun = laid_out(
                start,
                width,
                0,
                0,
                reach(list, after_list),
            );
            assert(begun.0 =~= head);
            let listed = laid_out(list, width, 0, begun.1, after_list);
            let named = laid_out(
                equals,
                width,
                0,
                listed.1,
                reach(body, 0),
            );
            let rest = laid_out(body, width, 0, named.1, 0);
            assert(laid_out(whole, width, 0, 0, 0).0 =~= head + (listed.0 + named.0
                + rest.0));
        },
        _ => {},
    }
}

/// Two signatures of one declaration, laid out at one width with one indent,
/// are the same text.
pub proof fn lemma_format_signature_determined(
    declaration: &Declaration,
    width: usize,
    indent: usize,
    first: String,
    second: String,
)
    requires
        call_ensures(format_signature, (declaration, width, indent), first),
        call_ensures(format_signature, (declaration, width, indent), second),
    ensures
        first@ == second@,
{
}

} // verus!
