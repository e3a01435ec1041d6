//! Assembly of a static documentation site from analysed modules.
//!
//! `declaration` finds what a module exports. `pretty` lays documents out
//! within a width, `format` builds the documents of argument lists and types,
//! and `signature` those of type declarations. `markdown` turns doc comments
//! into HTML. `navigation` builds the links between pages and the paths of
//! their files, `page` holds what a template is filled with, and `doc` puts
//! the pages and the files of a site together.

pub mod ast;
pub mod declaration;
pub mod doc;
pub mod format;
pub mod markdown;
pub mod navigation;
pub mod page;
pub mod pretty;
pub mod project;
pub mod signature;
pub mod text;
