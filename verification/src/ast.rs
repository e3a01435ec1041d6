//! The statements of an analysed module, as far as documentation reads them.

use vstd::prelude::*;

verus! {

/// A type as it is written in source.
#[derive(Debug)]
pub enum TypeAst {
    /// A named type, with the module it is taken from and its arguments.
    Constructor { module: Option<String>, name: String, args: Vec<TypeAst> },
    /// A function type.
    Fn { args: Vec<TypeAst>, retrn: Box<TypeAst> },
    /// A type variable.
    Var { name: String },
    /// A tuple type.
    Tuple { elems: Vec<TypeAst> },
}

/// A top-level statement of a module.
#[derive(Debug)]
pub enum Statement {
    /// A function defined in the language.
    Fn { public: bool, name: String, doc: Option<String> },
    /// A function defined outside the language.
    ExternalFn { public: bool, name: String, doc: Option<String> },
    /// A type whose representation is defined outside the language.
    ExternalType { public: bool, name: String, doc: Option<String>, args: Vec<String> },
    /// A type with constructors.
    CustomType { public: bool, name: String, doc: Option<String> },
    /// A new name for a type.
    TypeAlias {
        public: bool,
        alias: String,
        args: Vec<String>,
        resolved_type: TypeAst,
        doc: Option<String>,
    },
    /// An import of another module.
    Import { module: Vec<String> },
}

} // verus!
