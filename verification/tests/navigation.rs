use docgen::navigation::build_links;
use docgen::navigation::copy_links;
use docgen::navigation::file_of_page;
use docgen::navigation::pages;
use docgen::navigation::path_in_dir;
use docgen::navigation::unnest;
use docgen::page::Link;
use docgen::project::Analysed;
use docgen::project::ModuleOrigin;

fn strings(items: &[&str]) -> Vec<String> {
    items.iter().map(|item| item.to_string()).collect()
}

fn module(segments: &[&str], origin: ModuleOrigin) -> Analysed {
    Analysed { name: strings(segments), origin, statements: vec![] }
}

fn shown(links: &[Link]) -> Vec<(String, String)> {
    links.iter().map(|link| (link.name.clone(), link.path.clone())).collect()
}

#[test]
fn unnest_has_one_step_up_for_each_segment() {
    assert_eq!(unnest(&strings(&["a"])), "..");
    assert_eq!(unnest(&strings(&["a", "b"])), "../..");
    assert_eq!(unnest(&strings(&["a", "b", "c"])), "../../..");
    assert_eq!(unnest(&strings(&["one", "two", "three", "four", "five"])), "../../../../..");
}

#[test]
fn unnest_of_no_segment_is_empty() {
    assert_eq!(unnest(&strings(&[])), "");
}

#[test]
fn links_are_built_for_the_modules_of_the_project_in_their_order() {
    let analysed = vec![
        module(&["zoo"], ModuleOrigin::Src),
        module(&["stdlib", "list"], ModuleOrigin::Dependency),
        module(&["app", "users"], ModuleOrigin::Src),
        module(&["app"], ModuleOrigin::Src),
    ];
    assert_eq!(
        shown(&build_links(&analysed)),
        vec![
            ("zoo".to_string(), "zoo".to_string()),
            ("app/users".to_string(), "app/users".to_string()),
            ("app".to_string(), "app".to_string()),
        ]
    );
}

#[test]
fn no_modules_give_no_links() {
    assert_eq!(build_links(&[]).len(), 0);
    assert_eq!(build_links(&[module(&["dep"], ModuleOrigin::Dependency)]).len(), 0);
}

#[test]
fn the_pages_are_the_readme_alone() {
    assert_eq!(shown(&pages()), vec![("README".to_string(), "".to_string())]);
}

#[test]
fn a_copy_of_links_holds_the_same_links() {
    let links = build_links(&[module(&["a"], ModuleOrigin::Src), module(&["b", "c"], ModuleOrigin::Src)]);
    assert_eq!(shown(&copy_links(&links)), shown(&links));
}

#[test]
fn a_path_in_a_directory_has_one_separator() {
    assert_eq!(path_in_dir("", "index.html"), "index.html");
    assert_eq!(path_in_dir("out", "index.html"), "out/index.html");
    assert_eq!(path_in_dir("out/", "index.html"), "out/index.html");
    assert_eq!(path_in_dir("/", "index.css"), "/index.css");
    assert_eq!(path_in_dir("/srv/docs", "a/b/index.html"), "/srv/docs/a/b/index.html");
}

#[test]
fn the_file_of_a_page_lies_in_the_directory_of_its_module() {
    let config = docgen::project::ProjectConfig { name: "p".to_string() };
    let analysed = vec![module(&["a", "b"], ModuleOrigin::Src)];
    let site = docgen::doc::pages_of_site(&config, &analysed, None);
    assert_eq!(file_of_page(&site[0]), "index.html");
    assert_eq!(file_of_page(&site[1]), "a/b/index.html");
}
