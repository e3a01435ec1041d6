//! The declarations that a module exports.

use vstd::prelude::*;
use crate::ast::Statement;
use crate::ast::TypeAst;

verus! {

/// An exported declaration of a module.
#[derive(Debug)]
pub enum Declaration<'a> {
    /// A public function, defined in the language or outside it.
    Function { name: &'a String, doc: &'a Option<String> },
    /// A public type whose representation is defined outside the language.
    ExternalType { name: &'a String, doc: &'a Option<String>, type_params: &'a Vec<String> },
    /// A public type with constructors.
    CustomType { name: &'a String, doc: &'a Option<String> },
    /// A public name for a type.
    TypeAlias {
        name: &'a String,
        doc: &'a Option<String>,
        type_params: &'a Vec<String>,
        aliased_type: &'a TypeAst,
    },
}

impl<'a> Declaration<'a> {
    /// The name under which the declaration is exported.
    pub open spec fn spec_name(self) -> Seq<char> {
        match self {
            Declaration::Function { name, doc } => name@,
            Declaration::ExternalType { name, doc, type_params } => name@,
            Declaration::CustomType { name, doc } => name@,
            Declaration::TypeAlias { name, doc, type_params, aliased_type } => name@,
        }
    }

    /// The doc comment of the declaration, if it has one.
    pub open spec fn spec_doc(self) -> Option<String> {
        match self {
            Declaration::Function { name, doc } => *doc,
            Declaration::ExternalType { name, doc, type_params } => *doc,
            Declaration::CustomType { name, doc } => *doc,
            Declaration::TypeAlias { name, doc, type_params, aliased_type } => *doc,
        }
    }

    /// The name under which the declaration is exported.
    pub fn name(&self) -> (name: &'a str)
        ensures
            name@ == self.spec_name(),
    {
        match self {
            Declaration::Function { name, doc } => name.as_str(),
            Declaration::ExternalType { name, doc, type_params } => name.as_str(),
            Declaration::CustomType { name, doc } => name.as_str(),
            Declaration::TypeAlias { name, doc, type_params, aliased_type } => name.as_str(),
        }
    }

    /// The doc comment of the declaration, if it has one.
    pub fn doc(&self) -> (doc: &'a Option<String>)
        ensures
            *doc == self.spec_doc(),
    {
        match self {
            Declaration::Function { name, doc } => doc,
            Declaration::ExternalType { name, doc, type_params } => doc,
            Declaration::CustomType { name, doc } => doc,
            Declaration::TypeAlias { name, doc, type_params, aliased_type } => doc,
        }
    }
}

/// The declaration that `statement` exports, if it exports one: a function, an
/// external type, a custom type or a type alias that is public.
pub open spec fn declared(statement: Statement) -> Option<Declaration<'static>> {
    match statement {
        Statement::Fn { public, name, doc } => if public {
            Some(Declaration::Function { name: &name, doc: &doc })
        } else {
            None
        },
        Statement::ExternalFn { public, name, doc } => if public {
            Some(Declaration::Function { name: &name, doc: &doc })
        } else {
            None
        },
        Statement::ExternalType { public, name, doc, args } => if public {
            Some(Declaration::ExternalType { name: &name, doc: &doc, type_params: &args })
        } else {
            None
        },
        Statement::CustomType { public, name, doc } => if public {
            Some(Declaration::CustomType { name: &name, doc: &doc })
        } else {
            None
        },
        Statement::TypeAlias { public, alias, args, resolved_type, doc } => if public {
            Some(
                Declaration::TypeAlias {
                    name: &alias,
                    doc: &doc,
                    type_params: &args,
                    aliased_type: &resolved_type,
                },
            )
        } else {
            None
        },
        Statement::Import { module } => None,
    }
}

/// The declarations that `statements` export, in the order of the statements.
pub open spec fn extracted(statements: Seq<Statement>) -> Seq<Declaration<'static>> {
    statements.filter_map(|statement: Statement| declared(statement))
}

/// The declaration that `statement` exports, if it exports one.
pub fn declaration<'a>(statement: &'a Statement) -> (found: Option<Declaration<'a>>)
    ensures
        found == declared(*statement),
{
    match statement {
        Statement::Fn { public: true, name, doc } => Some(Declaration::Function { name, doc }),
        Statement::ExternalFn { public: true, name, doc } => Some(
            Declaration::Function { name, doc },
        ),
        Statement::ExternalType { public: true, name, doc, args } => Some(
            Declaration::ExternalType { name, doc, type_params: args },
        ),
        Statement::CustomType { public: true, name, doc } => Some(
            Declaration::CustomType { name, doc },
        ),
        Statement::TypeAlias { public: true, alias, args, resolved_type, doc } => Some(
            Declaration::TypeAlias {
                name: alias,
                doc,
                type_params: args,
                aliased_type: resolved_type,
            },
        ),
        _ => None,
    }
}

/// The exported declarations of a module, in the order of its statements.
pub fn extract<'a>(statements: &'a [Statement]) -> (declarations: Vec<Declaration<'a>>)
    ensures
        declarations@ == extracted(statements@),
{
    let mut declarations: Vec<Declaration<'a>> = Vec::new();
    let mut i: usize = 0;
    while i < statements.len()
        invariant
            i <= statements.len(),
            declarations@ == extracted(statements@.take(i as int)),
        decreases statements.len() - i,
    {
        proof {
            statements@.lemma_filter_map_take_succ(|statement: Statement| declared(statement), i as int);
        }
        match declaration(&statements[i]) {
            Some(found) => declarations.push(found),
            None => {},
        }
        i += 1;
    }
    assert(statements@.take(statements.len() as int) == statements@);
    declarations
}

} // verus!
