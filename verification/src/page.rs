//! What a page's template is filled with.

use vstd::prelude::*;
use vstd::string::StringExecFns;

verus! {

/// A declaration as a page shows it.
pub struct RenderedDeclaration {
    pub name: Seq<char>,
    pub signature_text: Seq<char>,
    pub documentation_html: Seq<char>,
}

/// A function on a module's page.
#[derive(Debug)]
pub struct Function {
    pub name: String,
    pub signature: String,
    pub documentation: String,
}

/// A type on a module's page.
#[derive(Debug)]
pub struct Type {
    pub name: String,
    pub definition: String,
    pub documentation: String,
}

impl Function {
    /// The function `name` as a page shows it, with the HTML of its doc
    /// comment: a function is shown without a signature.
    pub fn new(name: &str, documentation: String) -> (shown: Function)
        ensures
            shown@ == (RenderedDeclaration {
                name: name@,
                signature_text: Seq::empty(),
                documentation_html: documentation@,
            }),
    {
        Function { name: String::from_str(name), signature: String::new(), documentation }
    }
}

impl Type {
    /// The type `name` as a page shows it, with its signature and the HTML of
    /// its doc comment.
    pub fn new(name: &str, definition: String, documentation: String) -> (shown: Type)
        ensures
            shown@ == (RenderedDeclaration {
                name: name@,
                signature_text: definition@,
                documentation_html: documentation@,
            }),
    {
        Type { name: String::from_str(name), definition, documentation }
    }
}

impl View for Function {
    type V = RenderedDeclaration;

    open spec fn view(&self) -> RenderedDeclaration {
        RenderedDeclaration {
            name: self.name@,
            signature_text: self.signature@,
            documentation_html: self.documentation@,
        }
    }
}

impl View for Type {
    type V = RenderedDeclaration;

    open spec fn view(&self) -> RenderedDeclaration {
        RenderedDeclaration {
            name: self.name@,
            signature_text: self.definition@,
            documentation_html: self.documentation@,
        }
    }
}

/// An entry of a page's navigation. The path is relative to the root of the
/// site, and empty for the index page.
#[derive(Debug)]
pub struct Link {
    pub name: String,
    pub path: String,
}

/// A `Link` in contracts.
pub struct LinkView {
    pub name: Seq<char>,
    pub path: Seq<char>,
}

impl View for Link {
    type V = LinkView;

    open spec fn view(&self) -> LinkView {
        LinkView { name: self.name@, path: self.path@ }
    }
}

/// The links of `links`, in their order.
pub open spec fn link_views(links: Seq<Link>) -> Seq<LinkView> {
    links.map_values(|link: Link| link@)
}

/// The functions of `functions` as a page shows them, in their order.
pub open spec fn function_views(functions: Seq<Function>) -> Seq<RenderedDeclaration> {
    functions.map_values(|function: Function| function@)
}

/// The types of `types` as a page shows them, in their order.
pub open spec fn type_views(types: Seq<Type>) -> Seq<RenderedDeclaration> {
    types.map_values(|shown: Type| shown@)
}

/// What the template of the index page is filled with.
#[derive(Debug)]
pub struct PageTemplate {
    pub unnest: String,
    pub page_title: String,
    pub project_name: String,
    pub project_version: String,
    pub pages: Vec<Link>,
    pub links: Vec<Link>,
    pub modules: Vec<Link>,
    pub content: String,
}

/// A `PageTemplate` in contracts.
pub struct PageTemplateView {
    pub unnest: Seq<char>,
    pub page_title: Seq<char>,
    pub project_name: Seq<char>,
    pub project_version: Seq<char>,
    pub pages: Seq<LinkView>,
    pub links: Seq<LinkView>,
    pub modules: Seq<LinkView>,
    pub content: Seq<char>,
}

impl View for PageTemplate {
    type V = PageTemplateView;

    open spec fn view(&self) -> PageTemplateView {
        PageTemplateView {
            unnest: self.unnest@,
            page_title: self.page_title@,
            project_name: self.project_name@,
            project_version: self.project_version@,
            pages: link_views(self.pages@),
            links: link_views(self.links@),
            modules: link_views(self.modules@),
            content: self.content@,
        }
    }
}

/// What the template of a module's page is filled with.
#[derive(Debug)]
pub struct ModuleTemplate {
    pub unnest: String,
    pub page_title: String,
    pub module_name: String,
    pub project_name: String,
    pub project_version: String,
    pub pages: Vec<Link>,
    pub links: Vec<Link>,
    pub modules: Vec<Link>,
    pub functions: Vec<Function>,
    pub types: Vec<Type>,
    pub documentation: String,
}

/// A `ModuleTemplate` in contracts.
pub struct ModuleTemplateView {
    pub unnest: Seq<char>,
    pub page_title: Seq<char>,
    pub module_name: Seq<char>,
    pub project_name: Seq<char>,
    pub project_version: Seq<char>,
    pub pages: Seq<LinkView>,
    pub links: Seq<LinkView>,
    pub modules: Seq<LinkView>,
    pub functions: Seq<RenderedDeclaration>,
    pub types: Seq<RenderedDeclaration>,
    pub documentation: Seq<char>,
}

impl View for ModuleTemplate {
    type V = ModuleTemplateView;

    open spec fn view(&self) -> ModuleTemplateView {
        ModuleTemplateView {
            unnest: self.unnest@,
            page_title: self.page_title@,
            module_name: self.module_name@,
            project_name: self.project_name@,
            project_version: self.project_version@,
            pages: link_views(self.pages@),
            links: link_views(self.links@),
            modules: link_views(self.modules@),
            functions: function_views(self.functions@),
            types: type_views(self.types@),
            documentation: self.documentation@,
        }
    }
}

/// A page of the site, as it is handed to the templates.
#[derive(Debug)]
pub enum Page {
    Index(PageTemplate),
    Module(ModuleTemplate),
}

/// A `Page` in contracts.
pub enum PageView {
    Index(PageTemplateView),
    Module(ModuleTemplateView),
}

impl View for Page {
    type V = PageView;

    open spec fn view(&self) -> PageView {
        match self {
            Page::Index(page) => PageView::Index(page@),
            Page::Module(page) => PageView::Module(page@),
        }
    }
}

/// The pages of `pages`, in their order.
pub open spec fn page_views(pages: Seq<Page>) -> Seq<PageView> {
    pages.map_values(|page: Page| page@)
}

} // verus!
