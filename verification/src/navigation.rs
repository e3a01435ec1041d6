//! The links between the pages of a site, and the paths of its files.

use vstd::prelude::*;
use crate::page::Link;
use crate::page::LinkView;
use crate::page::Page;
use crate::page::PageView;
use crate::page::link_views;
use crate::project::Analysed;
use crate::project::ModuleOrigin;
use crate::text::concat;
use crate::text::free_of;
use crate::text::intersperse;
use crate::text::join;
use crate::text::joined;
use crate::text::lemma_interspersed_joins;
use crate::text::lemma_joined_injective;
use vstd::string::StrSliceExecFns;
use vstd::string::StringExecFns;

verus! {

/// The way from a page that lies `depth` directories below the root of the
/// site back to the root: `..` once for each directory, with `/` between.
pub open spec fn unnest_prefix(depth: nat) -> Seq<char> {
    joined(Seq::new(depth, |i: int| ".."@), "/"@)
}

/// Whether `module` belongs to the project that is documented.
pub open spec fn is_source(module: Analysed) -> bool {
    module.origin is Src
}

/// The name of `module` as one text: its segments with `/` between.
pub open spec fn module_name(module: Analysed) -> Seq<char> {
    joined(module.name.deep_view(), "/"@)
}

/// The link to the page of `module`, if it has one.
pub open spec fn module_link(module: Analysed) -> Option<LinkView> {
    if is_source(module) {
        Some(LinkView { name: module_name(module), path: module_name(module) })
    } else {
        None
    }
}

/// The links to the pages of the modules of the project, in the order of the
/// modules.
pub open spec fn module_links(analysed: Seq<Analysed>) -> Seq<LinkView> {
    analysed.filter_map(|module: Analysed| module_link(module))
}

/// The links to the pages that are no module's: the index page alone.
pub open spec fn page_links() -> Seq<LinkView> {
    seq![LinkView { name: "README"@, path: ""@ }]
}

/// The way from the page of a module back to the root of the site.
pub fn unnest(name: &[String]) -> (prefix: String)
    ensures
        prefix@ == unnest_prefix(name@.len()),
{
    let mut steps: Vec<String> = Vec::new();
    let mut i: usize = 0;
    while i < name.len()
        invariant
            i <= name.len(),
            steps@.len() == i,
            forall|j: int| 0 <= j < i ==> (#[trigger] steps@[j])@ == ".."@,
        decreases name.len() - i,
    {
        steps.push(String::from_str(".."));
        i += 1;
    }
    assert(steps.deep_view() =~= Seq::new(name@.len(), |i: int| ".."@));
    proof {
        lemma_interspersed_joins(steps.deep_view(), "/"@);
    }
    let parts = intersperse(steps, String::from_str("/"));
    concat(parts.as_slice())
}

/// The links to the pages of the modules of the project.
pub fn build_links(analysed: &[Analysed]) -> (links: Vec<Link>)
    ensures
        link_views(links@) == module_links(analysed@),
{
    let mut links: Vec<Link> = Vec::new();
    let mut i: usize = 0;
    while i < analysed.len()
        invariant
            i <= analysed.len(),
            link_views(links@) == module_links(analysed@.take(i as int)),
        decreases analysed.len() - i,
    {
        proof {
            analysed@.lemma_filter_map_take_succ(|module: Analysed| module_link(module), i as int);
        }
        let module = &analysed[i];
        let ghost before = links@;
        match module.origin {
            ModuleOrigin::Src => {
                let name = join(module.name.as_slice(), "/");
                let path = name.clone();
                links.push(Link { path, name });
                assert(link_views(links@) =~= link_views(before) + seq![module_link(*module)->0]);
            },
            ModuleOrigin::Dependency => {},
        }
        i += 1;
    }
    assert(analysed@.take(analysed.len() as int) == analysed@);
    links
}

/// A copy of `links`.
pub fn copy_links(links: &Vec<Link>) -> (copy: Vec<Link>)
    ensures
        link_views(copy@) == link_views(links@),
{
    let mut copy: Vec<Link> = Vec::new();
    let mut i: usize = 0;
    while i < links.len()
        invariant
            i <= links.len(),
            copy@.len() == i,
            forall|j: int| 0 <= j < i ==> (#[trigger] copy@[j])@ == links@[j]@,
        decreases links.len() - i,
    {
        copy.push(Link { name: links[i].name.clone(), path: links[i].path.clone() });
        i += 1;
    }
    assert(link_views(copy@) =~= link_views(links@));
    copy
}

/// The links to the pages that are no module's.
pub fn pages() -> (links: Vec<Link>)
    ensures
        link_views(links@) == page_links(),
{
    let mut links: Vec<Link> = Vec::new();
    links.push(Link { name: String::from_str("README"), path: String::from_str("") });
    assert(link_views(links@) =~= page_links());
    links
}

/// The path of `file` in the directory `dir`: `dir`, a `/` unless `dir` is
/// empty or ends in one, and `file`.
pub open spec fn in_dir(dir: Seq<char>, file: Seq<char>) -> Seq<char> {
    if dir.len() == 0 || dir.last() == '/' {
        dir + file
    } else {
        dir + "/"@ + file
    }
}

/// The path of the file of `page`, from the root of the site: `index.html`,
/// for the page of a module in the directory that its name gives, with one
/// level for each segment.
pub open spec fn page_file(page: PageView) -> Seq<char> {
    match page {
        PageView::Index(index) => "index.html"@,
        PageView::Module(module) => module.module_name + "/index.html"@,
    }
}

/// The path of `file` in the directory `dir`.
pub fn path_in_dir(dir: &str, file: &str) -> (path: String)
    ensures
        path@ == in_dir(dir@, file@),
{
    let len: usize = dir.unicode_len();
    let mut path = String::from_str(dir);
    if len > 0 && dir.get_char(len - 1) != '/' {
        path.append("/");
    }
    path.append(file);
    path
}

/// The path of the file of `page`, from the root of the site.
pub fn file_of_page(page: &Page) -> (file: String)
    ensures
        file@ == page_file(page@),
{
    match page {
        Page::Index(index) => String::from_str("index.html"),
        Page::Module(module) => {
            let mut file = module.module_name.clone();
            file.append("/index.html");
            file
        },
    }
}

/// Whether the name of `module` gives it a directory of its own: it has a
/// segment, and no segment holds a `/`.
pub open spec fn well_named(module: Analysed) -> bool {
    module.name@.len() > 0 && free_of(module.name.deep_view(), '/')
}

/// Two modules with such names that differ in a segment differ in their names
/// as one text.
pub proof fn lemma_module_names_differ(a: Analysed, b: Analysed)
    requires
        well_named(a),
        well_named(b),
        a.name.deep_view() != b.name.deep_view(),
    ensures
        module_name(a) != module_name(b),
{
    reveal_strlit("/");
    assert("/"@ =~= seq!['/']);
    if module_name(a) == module_name(b) {
        lemma_joined_injective(a.name.deep_view(), b.name.deep_view(), '/');
    }
}

/// Two files in one directory have the same path only if they are the same
/// file.
pub proof fn lemma_in_dir_injective(dir: Seq<char>, first: Seq<char>, second: Seq<char>)
    requires
        in_dir(dir, first) == in_dir(dir, second),
    ensures
        first == second,
{
    let before = in_dir(dir, Seq::empty());
    assert(in_dir(dir, first) =~= before + first);
    assert(in_dir(dir, second) =~= before + second);
    assert(first =~= (before + first).subrange(before.len() as int, (before + first).len() as int));
    assert(second =~= (before + second).subrange(
        before.len() as int,
        (before + second).len() as int,
    ));
}

/// The files of two pages are the same only if both are the index page, or
/// both are pages of modules of one name. The stylesheet is the file of no
/// page.
pub proof fn lemma_page_files(first: PageView, second: PageView)
    ensures
        page_file(first) == page_file(second) ==> match (first, second) {
            (PageView::Index(a), PageView::Index(b)) => true,
            (PageView::Module(a), PageView::Module(b)) => a.module_name == b.module_name,
            _ => false,
        },
        page_file(first) != "index.css"@,
{
    reveal_strlit("index.html");
    reveal_strlit("/index.html");
    reveal_strlit("index.css");
    let tail = "/index.html"@;
    assert("index.html"@.len() == 10 && tail.len() == 11 && "index.css"@.len() == 9);
    assert(tail[10] == 'l' && "index.css"@[8] == 's');
    match (first, second) {
        (PageView::Module(a), PageView::Module(b)) => {
            if page_file(first) == page_file(second) {
                assert(a.module_name =~= (a.module_name + tail).subrange(
                    0,
                    a.module_name.len() as int,
                ));
                assert(b.module_name =~= (b.module_name + tail).subrange(
                    0,
                    b.module_name.len() as int,
                ));
            }
        },
        _ => {},
    }
    match first {
        PageView::Index(a) => {},
        PageView::Module(a) => {
            assert((a.module_name + tail).last() == 'l');
            assert("index.css"@.last() == 's');
        },
    }
}

} // verus!
