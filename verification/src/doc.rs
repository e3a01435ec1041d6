//! The documentation site of a project: its pages and its files.

use vstd::prelude::*;
use crate::declaration::Declaration;
use crate::declaration::extract;
use crate::declaration::extracted;
use crate::format::INDENT;
use crate::markdown::doc_html;
use crate::markdown::render_doc;
use crate::navigation::build_links;
use crate::navigation::copy_links;
use crate::navigation::file_of_page;
use crate::navigation::in_dir;
use crate::navigation::is_source;
use crate::navigation::lemma_in_dir_injective;
use crate::navigation::lemma_module_names_differ;
use crate::navigation::lemma_page_files;
use crate::navigation::well_named;
use crate::navigation::module_links;
use crate::navigation::module_name;
use crate::navigation::page_file;
use crate::navigation::page_links;
use crate::navigation::pages;
use crate::navigation::path_in_dir;
use crate::navigation::unnest;
use crate::navigation::unnest_prefix;
use crate::page::Function;
use crate::page::LinkView;
use crate::page::ModuleTemplate;
use crate::page::ModuleTemplateView;
use crate::page::Page;
use crate::page::PageTemplate;
use crate::page::PageTemplateView;
use crate::page::PageView;
use crate::page::RenderedDeclaration;
use crate::page::Type;
use crate::page::function_views;
use crate::page::link_views;
use crate::page::page_views;
use crate::page::type_views;
use crate::project::Analysed;
use crate::project::ModuleOrigin;
use crate::project::OutputFile;
use crate::project::OutputFileView;
use crate::project::ProjectConfig;
use crate::signature::MAX_COLUMNS;
use crate::signature::format_signature;
use crate::signature::signature_text;
use crate::text::join;
use vstd::string::StringExecFns;

verus! {

/// A function as its page shows it: one is shown without a signature. A
/// declaration of another kind is no function.
pub open spec fn function_of(declaration: Declaration) -> Option<RenderedDeclaration> {
    match declaration {
        Declaration::Function { name, doc } => Some(
            RenderedDeclaration {
                name: name@,
                signature_text: Seq::empty(),
                documentation_html: doc_html(*doc),
            },
        ),
        _ => None,
    }
}

/// A type as its page shows it: an external type, a custom type or a type
/// alias, with its signature. A function is no type.
pub open spec fn type_of(declaration: Declaration, width: usize, indent: usize) -> Option<
    RenderedDeclaration,
> {
    match declaration {
        Declaration::Function { name, doc } => None,
        _ => Some(
            RenderedDeclaration {
                name: declaration.spec_name(),
                signature_text: signature_text(declaration, width, indent),
                documentation_html: doc_html(declaration.spec_doc()),
            },
        ),
    }
}

/// The function that a page shows for `declaration`, if it is one.
pub fn function(declaration: &Declaration) -> (shown: Option<Function>)
    ensures
        shown is Some == function_of(*declaration) is Some,
        shown matches Some(f) ==> Some(f@) == function_of(*declaration),
{
    match declaration {
        Declaration::Function { name, doc } => Some(Function::new(name.as_str(), render_doc(doc))),
        _ => None,
    }
}

/// The type that a page shows for `declaration`, if it is one.
pub fn type_(declaration: &Declaration, width: usize, indent: usize) -> (shown: Option<Type>)
    ensures
        shown is Some == type_of(*declaration, width, indent) is Some,
        shown matches Some(t) ==> Some(t@) == type_of(*declaration, width, indent),
{
    match declaration {
        Declaration::Function { name, doc } => None,
        _ => Some(
            Type::new(
                declaration.name(),
                format_signature(declaration, width, indent),
                render_doc(declaration.doc()),
            ),
        ),
    }
}

/// The functions that the page of a module shows for `declarations`.
pub open spec fn shown_functions(declarations: Seq<Declaration>) -> Seq<RenderedDeclaration> {
    declarations.filter_map(|declaration: Declaration| function_of(declaration))
}

/// The types that the page of a module shows for `declarations`.
pub open spec fn shown_types(declarations: Seq<Declaration>, width: usize, indent: usize) -> Seq<
    RenderedDeclaration,
> {
    declarations.filter_map(|declaration: Declaration| type_of(declaration, width, indent))
}

/// What the index page is filled with.
pub open spec fn index_page(
    project_name: Seq<char>,
    content: Seq<char>,
    analysed: Seq<Analysed>,
) -> PageTemplateView {
    PageTemplateView {
        unnest: "."@,
        page_title: project_name,
        project_name,
        project_version: ""@,
        pages: page_links(),
        links: Seq::empty(),
        modules: module_links(analysed),
        content,
    }
}

/// What the page of `module` is filled with.
pub open spec fn module_page(
    project_name: Seq<char>,
    analysed: Seq<Analysed>,
    module: Analysed,
) -> ModuleTemplateView {
    ModuleTemplateView {
        unnest: unnest_prefix(module.name@.len()),
        page_title: project_name,
        module_name: module_name(module),
        project_name,
        project_version: ""@,
        pages: page_links(),
        links: Seq::empty(),
        modules: module_links(analysed),
        functions: shown_functions(extracted(module.statements@)),
        types: shown_types(extracted(module.statements@), MAX_COLUMNS, INDENT),
        documentation: ""@,
    }
}

/// The page of `module`, if it has one: a module of the project has.
pub open spec fn page_of(project_name: Seq<char>, analysed: Seq<Analysed>, module: Analysed) -> Option<
    PageView,
> {
    if is_source(module) {
        Some(PageView::Module(module_page(project_name, analysed, module)))
    } else {
        None
    }
}

/// The pages of the site: the index page, then the page of each module of the
/// project, in the order of the modules.
pub open spec fn site_pages(project_name: Seq<char>, content: Seq<char>, analysed: Seq<Analysed>) -> Seq<
    PageView,
> {
    seq![PageView::Index(index_page(project_name, content, analysed))] + analysed.filter_map(
        |module: Analysed| page_of(project_name, analysed, module),
    )
}

/// The content of the index page: what was handed in, else nothing.
pub open spec fn content_of(root_content: Option<&str>) -> Seq<char> {
    match root_content {
        Some(content) => content@,
        None => ""@,
    }
}

/// The functions that the page of a module shows.
pub fn functions(declarations: &Vec<Declaration>) -> (shown: Vec<Function>)
    ensures
        function_views(shown@) == shown_functions(declarations@),
{
    let mut shown: Vec<Function> = Vec::new();
    let mut i: usize = 0;
    while i < declarations.len()
        invariant
            i <= declarations.len(),
            function_views(shown@) == shown_functions(declarations@.take(i as int)),
        decreases declarations.len() - i,
    {
        proof {
            declarations@.lemma_filter_map_take_succ(
                |declaration: Declaration| function_of(declaration),
                i as int,
            );
        }
        let ghost before = shown@;
        match function(&declarations[i]) {
            Some(found) => {
                shown.push(found);
                assert(function_views(shown@) =~= function_views(before) + seq![found@]);
            },
            None => {},
        }
        i += 1;
    }
    assert(declarations@.take(declarations.len() as int) == declarations@);
    shown
}

/// The types that the page of a module shows.
pub fn types(declarations: &Vec<Declaration>, width: usize, indent: usize) -> (shown: Vec<Type>)
    ensures
        type_views(shown@) == shown_types(declarations@, width, indent),
{
    let mut shown: Vec<Type> = Vec::new();
    let mut i: usize = 0;
    while i < declarations.len()
        invariant
            i <= declarations.len(),
            type_views(shown@) == shown_types(declarations@.take(i as int), width, indent),
        decreases declarations.len() - i,
    {
        proof {
            declarations@.lemma_filter_map_take_succ(
                |declaration: Declaration| type_of(declaration, width, indent),
                i as int,
            );
        }
        let ghost before = shown@;
        match type_(&declarations[i], width, indent) {
            Some(found) => {
                shown.push(found);
                assert(type_views(shown@) =~= type_views(before) + seq![found@]);
            },
            None => {},
        }
        i += 1;
    }
    assert(declarations@.take(declarations.len() as int) == declarations@);
    shown
}

/// The pages of the site, in the order in which they are rendered.
pub fn pages_of_site(
    project_config: &ProjectConfig,
    analysed: &[Analysed],
    root_content: Option<&str>,
) -> (site: Vec<Page>)
    ensures
        page_views(site@) == site_pages(project_config.name@, content_of(root_content), analysed@),
{
    let modules_links = build_links(analysed);
    let content = match root_content {
        Some(content) => String::from_str(content),
        None => String::from_str(""),
    };
    let readme = PageTemplate {
        unnest: String::from_str("."),
        page_title: project_config.name.clone(),
        project_name: project_config.name.clone(),
        project_version: String::from_str(""),
        pages: pages(),
        links: Vec::new(),
        modules: copy_links(&modules_links),
        content,
    };
    assert(readme.links@.len() == 0);
    assert(link_views(readme.links@) =~= Seq::<LinkView>::empty());
    let mut site: Vec<Page> = Vec::new();
    site.push(Page::Index(readme));
    let ghost first = seq![
        PageView::Index(index_page(project_config.name@, content_of(root_content), analysed@)),
    ];
    assert(page_views(site@) =~= first);
    let mut i: usize = 0;
    while i < analysed.len()
        invariant
            i <= analysed.len(),
            link_views(modules_links@) == module_links(analysed@),
            page_views(site@) == first + analysed@.take(i as int).filter_map(
                |module: Analysed| page_of(project_config.name@, analysed@, module),
            ),
        decreases analysed.len() - i,
    {
        proof {
            analysed@.lemma_filter_map_take_succ(
                |module: Analysed| page_of(project_config.name@, analysed@, module),
                i as int,
            );
        }
        let module = &analysed[i];
        let ghost before = site@;
        match module.origin {
            ModuleOrigin::Src => {
                let declarations = extract(module.statements.as_slice());
                let template = ModuleTemplate {
                    unnest: unnest(module.name.as_slice()),
                    page_title: project_config.name.clone(),
                    module_name: join(module.name.as_slice(), "/"),
                    project_name: project_config.name.clone(),
                    project_version: String::from_str(""),
                    pages: pages(),
                    links: Vec::new(),
                    modules: copy_links(&modules_links),
                    functions: functions(&declarations),
                    types: types(&declarations, MAX_COLUMNS, INDENT),
                    documentation: String::from_str(""),
                };
                assert(link_views(template.links@) =~= Seq::<LinkView>::empty());
                assert(template@ == module_page(project_config.name@, analysed@, *module));
                site.push(Page::Module(template));
                assert(page_views(site@) =~= page_views(before) + seq![
                    PageView::Module(module_page(project_config.name@, analysed@, *module)),
                ]);
            },
            ModuleOrigin::Dependency => {},
        }
        i += 1;
    }
    assert(analysed@.take(analysed.len() as int) == analysed@);
    site
}

/// The stylesheet of the site.
pub const INDEX_CSS: &'static str =
    "body {\n  margin: 0;\n  font-family: sans-serif;\n  line-height: 1.5;\n}\n\n.sidebar {\n  float: left;\n  width: 14rem;\n  padding: 1rem;\n}\n\n.content {\n  margin-left: 16rem;\n  padding: 1rem;\n  max-width: 50rem;\n}\n\n.member {\n  margin-bottom: 2rem;\n}\n\n.signature {\n  padding: 0.5rem;\n  overflow-x: auto;\n  background: #f5f5f5;\n}\n";

/// Whether each module of the project among `analysed` has a name of at least
/// one segment.
pub open spec fn all_named(analysed: Seq<Analysed>) -> bool {
    forall|i: int|
        0 <= i < analysed.len() && is_source(#[trigger] analysed[i]) ==> analysed[i].name@.len() > 0
}

/// Whether each module of the project among `analysed` has a name of at least
/// one segment.
pub fn are_named(analysed: &[Analysed]) -> (named: bool)
    ensures
        named == all_named(analysed@),
{
    let mut i: usize = 0;
    while i < analysed.len()
        invariant
            i <= analysed.len(),
            all_named(analysed@.take(i as int)),
        decreases analysed.len() - i,
    {
        let module = &analysed[i];
        match module.origin {
            ModuleOrigin::Src => {
                if module.name.len() == 0 {
                    assert(is_source(analysed@[i as int]));
                    return false;
                }
            },
            ModuleOrigin::Dependency => {},
        }
        assert forall|j: int|
            0 <= j < i + 1 && is_source(#[trigger] analysed@.take(i + 1)[j]) implies analysed@.take(
            i + 1,
        )[j].name@.len() > 0 by {
            if j < i {
                assert(analysed@.take(i + 1)[j] == analysed@.take(i as int)[j]);
            }
        }
        i += 1;
    }
    assert(analysed@.take(analysed.len() as int) == analysed@);
    true
}

/// The file of `page` in `dir`, with the text that the page was rendered to.
pub fn page_output(dir: &str, page: &Page, text: String) -> (file: OutputFile)
    ensures
        file@ == (OutputFileView { path: in_dir(dir@, page_file(page@)), text: text@ }),
{
    let file = file_of_page(page);
    OutputFile { path: path_in_dir(dir, file.as_str()), text }
}

/// The file of the stylesheet in `dir`.
pub fn stylesheet_output(dir: &str) -> (file: OutputFile)
    ensures
        file@ == (OutputFileView { path: in_dir(dir@, "index.css"@), text: INDEX_CSS@ }),
{
    OutputFile { path: path_in_dir(dir, "index.css"), text: String::from_str(INDEX_CSS) }
}

/// Whether `render` may give `text` for a page that is `page`.
pub open spec fn renders<E, F: Fn(&Page) -> Result<String, E>>(
    render: F,
    page: PageView,
    text: Seq<char>,
) -> bool {
    exists|given: Page, written: String|
        given@ == page && written@ == text && #[trigger] call_ensures(
            render,
            (&given,),
            Ok::<String, E>(written),
        )
}

/// Whether `render` may fail with `error` on a page that is `page`.
pub open spec fn fails<E, F: Fn(&Page) -> Result<String, E>>(
    render: F,
    page: PageView,
    error: E,
) -> bool {
    exists|given: Page|
        given@ == page && #[trigger] call_ensures(render, (&given,), Err::<String, E>(error))
}

/// Whether `after` is `before` and then the files of a site in `dir`: for each
/// of `pages`, in their order, a file at its path with a text that `render`
/// gave for it, and at last the stylesheet.
pub open spec fn site_written<E, F: Fn(&Page) -> Result<String, E>>(
    render: F,
    before: Seq<OutputFile>,
    after: Seq<OutputFile>,
    dir: Seq<char>,
    pages: Seq<PageView>,
) -> bool {
    &&& after.len() == before.len() + pages.len() + 1
    &&& after.take(before.len() as int) == before
    &&& forall|i: int|
        0 <= i < pages.len() ==> {
            &&& (#[trigger] after[before.len() + i]).path@ == in_dir(dir, page_file(pages[i]))
            &&& renders(render, pages[i], after[before.len() + i].text@)
        }
    &&& after.last()@ == (OutputFileView { path: in_dir(dir, "index.css"@), text: INDEX_CSS@ })
}

/// Whether `render` may give a text for a page that is `page`.
pub open spec fn succeeds<E, F: Fn(&Page) -> Result<String, E>>(render: F, page: PageView) -> bool {
    exists|text: Seq<char>| renders(render, page, text)
}

/// Whether `render` failed with `error` on one of `pages`, after it had given
/// a text for each page before that one.
pub open spec fn render_failed<E, F: Fn(&Page) -> Result<String, E>>(
    render: F,
    pages: Seq<PageView>,
    error: E,
) -> bool {
    exists|i: int|
        0 <= i < pages.len() && #[trigger] fails(render, pages[i], error) && forall|j: int|
            0 <= j < i ==> succeeds(render, #[trigger] pages[j])
}

/// Adds the files of the documentation site of a project to `files`: the index
/// page, the page of each module of the project, and the stylesheet, in `dir`.
/// The text of a page is what `render` gives for it. Where `render` fails, it
/// is asked for no further page, `files` is left as it was, and the error is
/// handed back.
pub fn generate_html<E, F: Fn(&Page) -> Result<String, E>>(
    project_config: &ProjectConfig,
    analysed: &[Analysed],
    files: &mut Vec<OutputFile>,
    dir: &str,
    root_content: Option<&str>,
    render: F,
) -> (outcome: Result<(), E>)
    requires
        all_named(analysed@),
        forall|page: Page|
            site_pages(project_config.name@, content_of(root_content), analysed@).contains(page@)
                ==> call_requires(render, (&page,)),
    ensures
        match outcome {
            Ok(done) => site_written(
                render,
                old(files)@,
                final(files)@,
                dir@,
                site_pages(project_config.name@, content_of(root_content), analysed@),
            ),
            Err(error) => *final(files) == *old(files) && render_failed(
                render,
                site_pages(project_config.name@, content_of(root_content), analysed@),
                error,
            ),
        },
{
    let site = pages_of_site(project_config, analysed, root_content);
    let ghost planned = site_pages(project_config.name@, content_of(root_content), analysed@);
    let mut written: Vec<OutputFile> = Vec::new();
    let mut i: usize = 0;
    while i < site.len()
        invariant
            i <= site.len(),
            planned == site_pages(project_config.name@, content_of(root_content), analysed@),
            page_views(site@) == planned,
            written@.len() == i,
            *files == *old(files),
            forall|page: Page| planned.contains(page@) ==> call_requires(render, (&page,)),
            forall|j: int|
                0 <= j < i ==> {
                    &&& (#[trigger] written@[j]).path@ == in_dir(dir@, page_file(planned[j]))
                    &&& renders(render, planned[j], written@[j].text@)
                },
        decreases site.len() - i,
    {
        let page = &site[i];
        assert(planned[i as int] == page@);
        assert(planned.contains(page@));
        match render(page) {
            Ok(text) => written.push(page_output(dir, page, text)),
            Err(error) => {
                proof {
                    assert(fails(render, planned[i as int], error));
                    assert forall|j: int| 0 <= j < i implies succeeds(
                        render,
                        #[trigger] planned[j],
                    ) by {
                        assert(renders(render, planned[j], written@[j].text@));
                    }
                }
                return Err(error);
            },
        }
        i += 1;
    }
    written.push(stylesheet_output(dir));
    let ghost added = written@;
    files.append(&mut written);
    proof {
        let after = files@;
        let before = old(files)@;
        assert(after.take(before.len() as int) =~= before);
        assert forall|k: int| 0 <= k < planned.len() implies {
            &&& (#[trigger] after[before.len() + k]).path@ == in_dir(dir@, page_file(planned[k]))
            &&& renders(render, planned[k], after[before.len() + k].text@)
        } by {
            assert(after[before.len() + k] == added[k]);
        }
    }
    Ok(())
}

/// The paths of the files of a site in `dir`: those of its pages, in their
/// order, and that of the stylesheet.
pub open spec fn site_paths(dir: Seq<char>, pages: Seq<PageView>) -> Seq<Seq<char>> {
    pages.map_values(|page: PageView| in_dir(dir, page_file(page))).push(
        in_dir(dir, "index.css"@),
    )
}

/// The paths of `files`, in their order.
pub open spec fn paths_of(files: Seq<OutputFile>) -> Seq<Seq<char>> {
    files.map_values(|file: OutputFile| file.path@)
}

/// Whether the modules of the project among `analysed` have names that give
/// each a directory of its own, and no two of them the same name.
pub open spec fn distinctly_named(analysed: Seq<Analysed>) -> bool {
    &&& forall|i: int|
        0 <= i < analysed.len() && is_source(#[trigger] analysed[i]) ==> well_named(analysed[i])
    &&& forall|i: int, j: int|
        0 <= i < j < analysed.len() && is_source(#[trigger] analysed[i]) && is_source(
            #[trigger] analysed[j],
        ) ==> analysed[i].name.deep_view() != analysed[j].name.deep_view()
}

/// The files that a run adds are at the paths of the site.
pub proof fn lemma_written_paths<E, F: Fn(&Page) -> Result<String, E>>(
    render: F,
    before: Seq<OutputFile>,
    after: Seq<OutputFile>,
    dir: Seq<char>,
    pages: Seq<PageView>,
)
    requires
        site_written(render, before, after, dir, pages),
    ensures
        paths_of(after.skip(before.len() as int)) == site_paths(dir, pages),
{
    let added = after.skip(before.len() as int);
    assert forall|i: int| 0 <= i < added.len() implies paths_of(added)[i] == site_paths(
        dir,
        pages,
    )[i] by {
        assert(added[i] == after[before.len() + i]);
    }
    assert(paths_of(added) =~= site_paths(dir, pages));
}

/// Each page of a module among `part` is that of one of its modules, and no
/// two of these pages have the same file.
proof fn lemma_module_pages(project_name: Seq<char>, whole: Seq<Analysed>, part: Seq<Analysed>)
    requires
        distinctly_named(part),
    ensures
        ({
            let found = part.filter_map(|module: Analysed| page_of(project_name, whole, module));
            &&& forall|k: int|
                0 <= k < found.len() ==> exists|i: int|
                    0 <= i < part.len() && is_source(part[i]) && #[trigger] found[k]
                        == PageView::Module(
                        #[trigger] module_page(project_name, whole, part[i]),
                    )
            &&& forall|k: int, l: int|
                0 <= k < l < found.len() ==> page_file(#[trigger] found[k]) != page_file(
                    #[trigger] found[l],
                )
        }),
    decreases part.len(),
{
    let of = |module: Analysed| page_of(project_name, whole, module);
    let found = part.filter_map(of);
    if part.len() > 0 {
        let rest = part.drop_last();
        let last = part.last();
        let earlier = rest.filter_map(of);
        assert(distinctly_named(rest)) by {
            assert forall|i: int| 0 <= i < rest.len() implies rest[i] == part[i] by {}
        }
        lemma_module_pages(project_name, whole, rest);
        assert forall|k: int| 0 <= k < found.len() implies exists|i: int|
            0 <= i < part.len() && is_source(part[i]) && #[trigger] found[k] == PageView::Module(
                #[trigger] module_page(project_name, whole, part[i]),
            ) by {
            if k < earlier.len() {
                assert(found[k] == earlier[k]);
                let i = choose|i: int|
                    0 <= i < rest.len() && is_source(rest[i]) && earlier[k] == PageView::Module(
                        #[trigger] module_page(project_name, whole, rest[i]),
                    );
                assert(rest[i] == part[i]);
            } else {
                assert(found[k] == PageView::Module(
                    module_page(project_name, whole, part[part.len() - 1]),
                ));
            }
        }
        assert forall|k: int, l: int| 0 <= k < l < found.len() implies page_file(
            #[trigger] found[k],
        ) != page_file(#[trigger] found[l]) by {
            if l < earlier.len() {
                assert(found[k] == earlier[k] && found[l] == earlier[l]);
            } else {
                assert(found[k] == earlier[k]);
                let i = choose|i: int|
                    0 <= i < rest.len() && is_source(rest[i]) && earlier[k] == PageView::Module(
                        #[trigger] module_page(project_name, whole, rest[i]),
                    );
                assert(rest[i] == part[i]);
                lemma_module_names_differ(part[i], last);
                lemma_page_files(found[k], found[l]);
            }
        }
    }
}

/// Where the modules of the project have names that give each a directory of
/// its own, and no two of them the same name, no two files of the site have
/// the same path.
pub proof fn lemma_paths_distinct(
    project_name: Seq<char>,
    content: Seq<char>,
    analysed: Seq<Analysed>,
    dir: Seq<char>,
)
    requires
        distinctly_named(analysed),
    ensures
        site_paths(dir, site_pages(project_name, content, analysed)).no_duplicates(),
{
    let pages = site_pages(project_name, content, analysed);
    let paths = site_paths(dir, pages);
    let found = analysed.filter_map(|module: Analysed| page_of(project_name, analysed, module));
    lemma_module_pages(project_name, analysed, analysed);
    assert forall|i: int, j: int| 0 <= i < j < paths.len() implies paths[i] != paths[j] by {
        if paths[i] == paths[j] {
            if j < pages.len() {
                lemma_in_dir_injective(dir, page_file(pages[i]), page_file(pages[j]));
                lemma_page_files(pages[i], pages[j]);
                assert(pages[j] == found[j - 1]);
                let m = choose|m: int|
                    0 <= m < analysed.len() && is_source(analysed[m]) && found[j - 1]
                        == PageView::Module(
                        #[trigger] module_page(project_name, analysed, analysed[m]),
                    );
                if i > 0 {
                    assert(pages[i] == found[i - 1]);
                }
            } else {
                lemma_in_dir_injective(dir, page_file(pages[i]), "index.css"@);
                lemma_page_files(pages[i], pages[i]);
            }
        }
    }
}

} // verus!
