use docgen::ast::TypeAst;
use docgen::declaration::Declaration;
use docgen::format::type_ast;
use docgen::format::wrap_args;
use docgen::format::INDENT;
use docgen::pretty::text;
use docgen::signature::external_type;
use docgen::signature::format_signature;
use docgen::signature::type_alias;
use docgen::signature::MAX_COLUMNS;

fn strings(items: &[&str]) -> Vec<String> {
    items.iter().map(|item| item.to_string()).collect()
}

fn var(name: &str) -> TypeAst {
    TypeAst::Var { name: name.to_string() }
}

fn named(name: &str, args: Vec<TypeAst>) -> TypeAst {
    TypeAst::Constructor { module: None, name: name.to_string(), args }
}

fn show(t: &TypeAst, width: usize) -> String {
    docgen::pretty::format(width, &type_ast(t, INDENT))
}

#[test]
fn the_width_is_sixty_five_and_the_indent_two() {
    assert_eq!(MAX_COLUMNS, 65);
    assert_eq!(INDENT, 2);
}

#[test]
fn a_type_alias_that_fits_is_on_one_line() {
    let pair = TypeAst::Tuple { elems: vec![var("a"), var("b")] };
    assert_eq!(
        type_alias("Pair", &strings(&["a", "b"]), &pair, 65, 2),
        "pub type Pair(a, b) = #(a, b)"
    );
}

#[test]
fn an_external_type_that_is_too_wide_has_one_parameter_on_each_line() {
    let params = strings(&["first_parameter", "second_parameter", "third_parameter"]);
    assert_eq!(
        external_type("Name", &params, 65, 2),
        "pub external type Name(\n  first_parameter,\n  second_parameter,\n  third_parameter,\n)"
    );
}

#[test]
fn an_external_type_that_fits_is_on_one_line() {
    assert_eq!(external_type("Opaque", &strings(&["a"]), 65, 2), "pub external type Opaque(a)");
    assert_eq!(
        external_type("Dict", &strings(&["key", "value"]), 65, 2),
        "pub external type Dict(key, value)"
    );
}

#[test]
fn an_external_type_without_parameters_has_no_brackets() {
    assert_eq!(external_type("Opaque", &strings(&[]), 65, 2), "pub external type Opaque");
    assert_eq!(external_type("Opaque", &strings(&[]), 3, 2), "pub external type Opaque");
}

#[test]
fn sixty_five_columns_fit_and_sixty_six_do_not() {
    let fits = "a".repeat(44);
    let flat = external_type("T", &[fits.clone()], 65, 2);
    assert_eq!(flat.len(), 65);
    assert_eq!(flat, format!("pub external type T({})", fits));
    let wide = "a".repeat(45);
    assert_eq!(
        external_type("T", &[wide.clone()], 65, 2),
        format!("pub external type T(\n  {},\n)", wide)
    );
}

#[test]
fn the_width_and_the_indent_are_those_given() {
    let params = strings(&["a", "b"]);
    assert_eq!(external_type("T", &params, 25, 4), "pub external type T(a, b)");
    assert_eq!(external_type("T", &params, 24, 4), "pub external type T(\n    a,\n    b,\n)");
    assert_eq!(external_type("T", &params, 24, 0), "pub external type T(\na,\nb,\n)");
}

#[test]
fn a_type_alias_that_is_too_wide_continues_on_an_indented_line() {
    let callback = TypeAst::Fn {
        args: vec![named("String", vec![]), named("Int", vec![])],
        retrn: Box::new(named("Result", vec![var("a"), var("b")])),
    };
    assert_eq!(
        type_alias("Callback", &strings(&[]), &callback, 65, 2),
        "pub type Callback = fn(String, Int) -> Result(a, b)"
    );
    assert_eq!(
        type_alias("Callback", &strings(&[]), &callback, 50, 2),
        "pub type Callback =\n  fn(String, Int) ->\n    Result(a, b)"
    );
    assert_eq!(
        type_alias("Callback", &strings(&[]), &callback, 30, 2),
        "pub type Callback =\n  fn(String, Int) ->\n    Result(a, b)"
    );
}

#[test]
fn a_type_alias_breaks_its_parameters_where_they_are_too_wide() {
    let params = strings(&["element", "error"]);
    assert_eq!(
        type_alias("Outcome", &params, &var("element"), 20, 2),
        "pub type Outcome(\n  element,\n  error,\n) = element"
    );
    assert_eq!(
        type_alias("Outcome", &params, &var("element"), 9, 2),
        "pub type Outcome(\n  element,\n  error,\n) =\n  element"
    );
}

#[test]
fn types_are_written_as_in_source() {
    assert_eq!(show(&var("a"), 80), "a");
    assert_eq!(show(&named("Int", vec![]), 80), "Int");
    assert_eq!(show(&named("List", vec![var("a")]), 80), "List(a)");
    let qualified = TypeAst::Constructor {
        module: Some("map".to_string()),
        name: "Map".to_string(),
        args: vec![var("k"), var("v")],
    };
    assert_eq!(show(&qualified, 80), "map.Map(k, v)");
    assert_eq!(show(&TypeAst::Tuple { elems: vec![] }, 80), "#()");
    let thunk = TypeAst::Fn { args: vec![], retrn: Box::new(named("Int", vec![])) };
    assert_eq!(show(&thunk, 80), "fn() -> Int");
    let nested = named("List", vec![TypeAst::Tuple { elems: vec![var("a"), named("Int", vec![])] }]);
    assert_eq!(show(&nested, 80), "List(#(a, Int))");
}

#[test]
fn a_type_that_is_too_wide_has_one_argument_on_each_line() {
    let wide = named("Dict", vec![named("String", vec![]), named("List", vec![var("a")])]);
    assert_eq!(show(&wide, 21), "Dict(String, List(a))");
    assert_eq!(show(&wide, 20), "Dict(\n  String,\n  List(a),\n)");
    assert_eq!(show(&wide, 9), "Dict(\n  String,\n  List(a),\n)");
    assert_eq!(show(&wide, 8), "Dict(\n  String,\n  List(\n    a,\n  ),\n)");
}

#[test]
fn an_empty_argument_list_is_a_pair_of_brackets() {
    assert_eq!(docgen::pretty::format(80, &wrap_args(vec![], 2)), "()");
    assert_eq!(docgen::pretty::format(80, &wrap_args(vec![text("a")], 2)), "(a)");
    assert_eq!(docgen::pretty::format(2, &wrap_args(vec![text("a")], 2)), "(\n  a,\n)");
}

#[test]
fn functions_and_custom_types_have_no_signature() {
    let name = "area".to_string();
    let doc = None;
    assert_eq!(format_signature(&Declaration::Function { name: &name, doc: &doc }, 65, 2), "");
    assert_eq!(format_signature(&Declaration::CustomType { name: &name, doc: &doc }, 65, 2), "");
}

#[test]
fn type_declarations_have_their_signature() {
    let name = "Pair".to_string();
    let doc = None;
    let params = strings(&["a", "b"]);
    let pair = TypeAst::Tuple { elems: vec![var("a"), var("b")] };
    let external = Declaration::ExternalType { name: &name, doc: &doc, type_params: &params };
    assert_eq!(format_signature(&external, 65, 2), "pub external type Pair(a, b)");
    let alias =
        Declaration::TypeAlias { name: &name, doc: &doc, type_params: &params, aliased_type: &pair };
    assert_eq!(format_signature(&alias, 65, 2), "pub type Pair(a, b) = #(a, b)");
}

#[test]
fn a_signature_is_the_same_text_each_time() {
    let name = "Name".to_string();
    let doc = None;
    let params = strings(&["first_parameter", "second_parameter", "third_parameter"]);
    let external = Declaration::ExternalType { name: &name, doc: &doc, type_params: &params };
    for width in 0..90 {
        assert_eq!(format_signature(&external, width, 2), format_signature(&external, width, 2));
    }
}
