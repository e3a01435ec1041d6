//! What a run is given and what it hands back.

use vstd::prelude::*;
use crate::ast::Statement;

verus! {

/// The settings of the project that is documented.
#[derive(Debug)]
pub struct ProjectConfig {
    pub name: String,
}

/// Where a module comes from.
#[derive(Debug)]
pub enum ModuleOrigin {
    /// The project itself.
    Src,
    /// A package that the project depends on.
    Dependency,
}

/// A module after analysis. Its name is the sequence of the segments of its
/// path, of which it has at least one.
#[derive(Debug)]
pub struct Analysed {
    pub name: Vec<String>,
    pub origin: ModuleOrigin,
    pub statements: Vec<Statement>,
}

/// A file to write: its path and its text.
#[derive(Debug)]
pub struct OutputFile {
    pub path: String,
    pub text: String,
}

/// An `OutputFile` in contracts.
pub struct OutputFileView {
    pub path: Seq<char>,
    pub text: Seq<char>,
}

impl View for OutputFile {
    type V = OutputFileView;

    open spec fn view(&self) -> OutputFileView {
        OutputFileView { path: self.path@, text: self.text@ }
    }
}

} // verus!
