use docgen::ast::Statement;
use docgen::ast::TypeAst;
use docgen::doc::are_named;
use docgen::doc::function;
use docgen::doc::generate_html;
use docgen::doc::pages_of_site;
use docgen::doc::type_;
use docgen::doc::INDEX_CSS;
use docgen::declaration::Declaration;
use docgen::page::Page;
use docgen::project::Analysed;
use docgen::project::ModuleOrigin;
use docgen::project::OutputFile;
use docgen::project::ProjectConfig;
use std::cell::RefCell;

fn name(segments: &[&str]) -> Vec<String> {
    segments.iter().map(|segment| segment.to_string()).collect()
}

fn show(page: &Page) -> Result<String, String> {
    match page {
        Page::Index(index) => Ok(format!("index unnest={} content={}", index.unnest, index.content)),
        Page::Module(module) => {
            let mut text = format!("module {} unnest={}", module.module_name, module.unnest);
            for function in module.functions.iter() {
                text.push_str(&format!("\nfn {} [{}]", function.name, function.signature));
            }
            for shown in module.types.iter() {
                text.push_str(&format!("\ntype {} [{}]", shown.name, shown.definition));
            }
            Ok(text)
        }
    }
}

fn shapes() -> Vec<Analysed> {
    vec![
        Analysed {
            name: name(&["shapes"]),
            origin: ModuleOrigin::Src,
            statements: vec![
                Statement::CustomType { public: true, name: "Circle".to_string(), doc: None },
                Statement::ExternalType {
                    public: true,
                    name: "Opaque".to_string(),
                    doc: None,
                    args: vec!["a".to_string()],
                },
            ],
        },
        Analysed {
            name: name(&["shapes", "util"]),
            origin: ModuleOrigin::Src,
            statements: vec![Statement::Fn { public: true, name: "area".to_string(), doc: None }],
        },
    ]
}

fn config() -> ProjectConfig {
    ProjectConfig { name: "geometry".to_string() }
}

fn paths(files: &[OutputFile]) -> Vec<&str> {
    files.iter().map(|file| file.path.as_str()).collect()
}

#[test]
fn two_modules_give_four_files() {
    let mut files: Vec<OutputFile> = Vec::new();
    let outcome = generate_html(&config(), &shapes(), &mut files, "", None, show);
    assert!(outcome.is_ok());
    assert_eq!(
        paths(&files),
        vec!["index.html", "shapes/index.html", "shapes/util/index.html", "index.css"]
    );
    assert_eq!(files[0].text, "index unnest=. content=");
    assert_eq!(
        files[1].text,
        "module shapes unnest=..\ntype Circle []\ntype Opaque [pub external type Opaque(a)]"
    );
    assert_eq!(files[2].text, "module shapes/util unnest=../..\nfn area []");
    assert_eq!(files[3].text, INDEX_CSS);
}

#[test]
fn the_pages_of_two_modules() {
    let site = pages_of_site(&config(), &shapes(), None);
    assert_eq!(site.len(), 3);
    match &site[0] {
        Page::Index(index) => {
            assert_eq!(index.unnest, ".");
            assert_eq!(index.page_title, "geometry");
            assert_eq!(index.project_name, "geometry");
            assert_eq!(index.project_version, "");
            assert_eq!(index.content, "");
            assert_eq!(index.links.len(), 0);
            assert_eq!(index.pages.len(), 1);
            assert_eq!(index.pages[0].name, "README");
            assert_eq!(index.pages[0].path, "");
            assert_eq!(index.modules.len(), 2);
            assert_eq!(index.modules[0].name, "shapes");
            assert_eq!(index.modules[1].path, "shapes/util");
        }
        Page::Module(_) => panic!("the first page is the index"),
    }
    match &site[1] {
        Page::Module(module) => {
            assert_eq!(module.unnest, "..");
            assert_eq!(module.module_name, "shapes");
            assert_eq!(module.page_title, "geometry");
            assert_eq!(module.documentation, "");
            assert_eq!(module.functions.len(), 0);
            assert_eq!(module.types.len(), 2);
            assert_eq!(module.types[0].name, "Circle");
            assert_eq!(module.types[0].definition, "");
            assert_eq!(module.types[1].name, "Opaque");
            assert_eq!(module.types[1].definition, "pub external type Opaque(a)");
            assert_eq!(module.modules.len(), 2);
            assert_eq!(module.pages.len(), 1);
        }
        Page::Index(_) => panic!("the second page is a module's"),
    }
    match &site[2] {
        Page::Module(module) => {
            assert_eq!(module.unnest, "../..");
            assert_eq!(module.module_name, "shapes/util");
            assert_eq!(module.types.len(), 0);
            assert_eq!(module.functions.len(), 1);
            assert_eq!(module.functions[0].name, "area");
            assert_eq!(module.functions[0].signature, "");
            assert_eq!(module.functions[0].documentation, "");
        }
        Page::Index(_) => panic!("the third page is a module's"),
    }
}

#[test]
fn no_modules_give_the_index_and_the_stylesheet() {
    let mut files: Vec<OutputFile> = Vec::new();
    let outcome = generate_html(&config(), &[], &mut files, "docs", None, show);
    assert!(outcome.is_ok());
    assert_eq!(paths(&files), vec!["docs/index.html", "docs/index.css"]);
}

#[test]
fn modules_of_dependencies_have_no_page() {
    let mut analysed = shapes();
    analysed.insert(
        1,
        Analysed {
            name: name(&["stdlib", "list"]),
            origin: ModuleOrigin::Dependency,
            statements: vec![Statement::Fn { public: true, name: "map".to_string(), doc: None }],
        },
    );
    let mut files: Vec<OutputFile> = Vec::new();
    assert!(generate_html(&config(), &analysed, &mut files, "out/", None, show).is_ok());
    assert_eq!(
        paths(&files),
        vec!["out/index.html", "out/shapes/index.html", "out/shapes/util/index.html", "out/index.css"]
    );
}

#[test]
fn the_files_come_after_those_that_were_there() {
    let mut files =
        vec![OutputFile { path: "gen/main.txt".to_string(), text: "generated".to_string() }];
    assert!(generate_html(&config(), &shapes(), &mut files, "doc", None, show).is_ok());
    assert_eq!(files.len(), 5);
    assert_eq!(files[0].path, "gen/main.txt");
    assert_eq!(files[0].text, "generated");
    assert_eq!(files[1].path, "doc/index.html");
    assert_eq!(files[4].path, "doc/index.css");
}

#[test]
fn a_page_that_fails_to_render_ends_the_run_without_files() {
    let asked: RefCell<Vec<String>> = RefCell::new(Vec::new());
    let failing = |page: &Page| -> Result<String, String> {
        match page {
            Page::Index(_) => {
                asked.borrow_mut().push("index".to_string());
                Ok("index".to_string())
            }
            Page::Module(module) => {
                asked.borrow_mut().push(module.module_name.clone());
                Err(format!("no template for {}", module.module_name))
            }
        }
    };
    let mut files = vec![OutputFile { path: "kept".to_string(), text: "as it was".to_string() }];
    let outcome = generate_html(&config(), &shapes(), &mut files, "doc", None, failing);
    assert_eq!(outcome, Err("no template for shapes".to_string()));
    assert_eq!(files.len(), 1);
    assert_eq!(files[0].path, "kept");
    assert_eq!(files[0].text, "as it was");
    assert_eq!(asked.into_inner(), vec!["index".to_string(), "shapes".to_string()]);
}

#[test]
fn an_index_page_that_fails_to_render_ends_the_run() {
    let mut files: Vec<OutputFile> = Vec::new();
    let outcome =
        generate_html(&config(), &shapes(), &mut files, "doc", None, |_page: &Page| -> Result<String, u8> {
            Err(7)
        });
    assert_eq!(outcome, Err(7));
    assert!(files.is_empty());
}

#[test]
fn the_pages_are_rendered_in_their_order() {
    let asked: RefCell<Vec<String>> = RefCell::new(Vec::new());
    let recording = |page: &Page| -> Result<String, String> {
        let text = show(page)?;
        asked.borrow_mut().push(text.clone());
        Ok(text)
    };
    let mut files: Vec<OutputFile> = Vec::new();
    assert!(generate_html(&config(), &shapes(), &mut files, "", None, recording).is_ok());
    let texts: Vec<String> = files.iter().take(3).map(|file| file.text.clone()).collect();
    assert_eq!(asked.into_inner(), texts);
}

#[test]
fn the_root_content_is_the_content_of_the_index_page() {
    let mut files: Vec<OutputFile> = Vec::new();
    assert!(generate_html(&config(), &[], &mut files, "", Some("<h1>geometry</h1>"), show).is_ok());
    assert_eq!(files[0].text, "index unnest=. content=<h1>geometry</h1>");
}

#[test]
fn modules_of_different_names_have_different_paths() {
    let analysed: Vec<Analysed> = [
        vec!["a"],
        vec!["a", "b"],
        vec!["b"],
        vec!["b", "a"],
        vec!["index"],
        vec!["a", "index"],
        vec!["ab"],
    ]
    .iter()
    .map(|segments| Analysed { name: name(segments), origin: ModuleOrigin::Src, statements: vec![] })
    .collect();
    let mut files: Vec<OutputFile> = Vec::new();
    assert!(generate_html(&config(), &analysed, &mut files, "site", None, show).is_ok());
    assert_eq!(
        paths(&files),
        vec![
            "site/index.html",
            "site/a/index.html",
            "site/a/b/index.html",
            "site/b/index.html",
            "site/b/a/index.html",
            "site/index/index.html",
            "site/a/index/index.html",
            "site/ab/index.html",
            "site/index.css",
        ]
    );
    for (i, first) in files.iter().enumerate() {
        for second in files.iter().skip(i + 1) {
            assert_ne!(first.path, second.path);
        }
    }
}

#[test]
fn the_same_modules_give_the_same_files() {
    let mut first: Vec<OutputFile> = Vec::new();
    let mut second: Vec<OutputFile> = Vec::new();
    assert!(generate_html(&config(), &shapes(), &mut first, "doc", None, show).is_ok());
    assert!(generate_html(&config(), &shapes(), &mut second, "doc", None, show).is_ok());
    assert_eq!(first.len(), second.len());
    for (a, b) in first.iter().zip(second.iter()) {
        assert_eq!(a.path, b.path);
        assert_eq!(a.text, b.text);
    }
}

#[test]
fn functions_and_types_are_shown_apart_in_source_order() {
    let analysed = vec![Analysed {
        name: name(&["mixed"]),
        origin: ModuleOrigin::Src,
        statements: vec![
            Statement::Fn { public: true, name: "one".to_string(), doc: Some("*first*".to_string()) },
            Statement::TypeAlias {
                public: true,
                alias: "Id".to_string(),
                args: vec![],
                resolved_type: TypeAst::Constructor {
                    module: None,
                    name: "Int".to_string(),
                    args: vec![],
                },
                doc: Some("An id.".to_string()),
            },
            Statement::Fn { public: false, name: "hidden".to_string(), doc: None },
            Statement::ExternalFn { public: true, name: "two".to_string(), doc: None },
            Statement::CustomType { public: true, name: "Shape".to_string(), doc: None },
        ],
    }];
    let site = pages_of_site(&config(), &analysed, None);
    match &site[1] {
        Page::Module(module) => {
            let functions: Vec<&str> = module.functions.iter().map(|f| f.name.as_str()).collect();
            let types: Vec<&str> = module.types.iter().map(|t| t.name.as_str()).collect();
            assert_eq!(functions, vec!["one", "two"]);
            assert_eq!(types, vec!["Id", "Shape"]);
            assert_eq!(module.functions[0].documentation, "<p><em>first</em></p>\n");
            assert_eq!(module.functions[1].documentation, "");
            assert_eq!(module.types[0].definition, "pub type Id = Int");
            assert_eq!(module.types[0].documentation, "<p>An id.</p>\n");
            assert_eq!(module.types[1].definition, "");
        }
        Page::Index(_) => panic!("the second page is a module's"),
    }
}

#[test]
fn a_declaration_is_shown_as_a_function_or_as_a_type() {
    let declared = "area".to_string();
    let doc = Some("The **area**.".to_string());
    let as_function = Declaration::Function { name: &declared, doc: &doc };
    let shown = function(&as_function).unwrap();
    assert_eq!(shown.name, "area");
    assert_eq!(shown.signature, "");
    assert_eq!(shown.documentation, "<p>The <strong>area</strong>.</p>\n");
    assert!(type_(&as_function, 65, 2).is_none());
    let params = vec!["a".to_string()];
    let as_type = Declaration::ExternalType { name: &declared, doc: &doc, type_params: &params };
    assert!(function(&as_type).is_none());
    let shown = type_(&as_type, 65, 2).unwrap();
    assert_eq!(shown.name, "area");
    assert_eq!(shown.definition, "pub external type area(a)");
    assert_eq!(shown.documentation, "<p>The <strong>area</strong>.</p>\n");
    let custom = Declaration::CustomType { name: &declared, doc: &None };
    let shown = type_(&custom, 65, 2).unwrap();
    assert_eq!(shown.definition, "");
    assert_eq!(shown.documentation, "");
}

#[test]
fn a_module_of_the_project_without_a_name_is_found() {
    assert!(are_named(&shapes()));
    assert!(are_named(&[]));
    let unnamed = vec![Analysed { name: vec![], origin: ModuleOrigin::Src, statements: vec![] }];
    assert!(!are_named(&unnamed));
    let outside = vec![Analysed { name: vec![], origin: ModuleOrigin::Dependency, statements: vec![] }];
    assert!(are_named(&outside));
}
