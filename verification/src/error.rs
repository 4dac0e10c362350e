//! The errors of compiling a schema. Each one names the place in the schema
//! where compiling stopped.

use vstd::prelude::*;

verus! {

/// What a schema node lacks.
#[derive(Clone, Copy, Debug, PartialEq, Eq)]
pub enum Missing {
    /// An array without an element shape.
    Items,
    /// A node with neither a shape discriminator nor a reference.
    TypeOrRef,
}

/// Why a schema node cannot be compiled.
#[derive(Clone, Debug, PartialEq, Eq)]
pub enum SchemaFault {
    /// A reference to a type that no domain declares.
    Reference { target: String },
    /// A node that lacks a part its shape needs.
    Shape { missing: Missing },
    /// A name that holds a character outside ASCII where an identifier is to be
    /// made from it by case conversion.
    Name { name: String },
}

/// The view of [`SchemaFault`]: the same shape over `Seq`.
pub ghost enum SchemaFaultView {
    Reference { target: Seq<char> },
    Shape { missing: Missing },
    Name { name: Seq<char> },
}

impl View for SchemaFault {
    type V = SchemaFaultView;

    open spec fn view(&self) -> SchemaFaultView {
        match self {
            SchemaFault::Reference { target } => SchemaFaultView::Reference { target: target@ },
            SchemaFault::Shape { missing } => SchemaFaultView::Shape { missing: *missing },
            SchemaFault::Name { name } => SchemaFaultView::Name { name: name@ },
        }
    }
}

/// A fault and the path to it: the domain, the declaration in it, and the field of
/// that declaration where the fault lies in a field.
#[derive(Clone, Debug, PartialEq, Eq)]
pub struct SchemaError {
    pub domain: String,
    pub declaration: String,
    pub field: Option<String>,
    pub fault: SchemaFault,
}

/// The view of [`SchemaError`]: the same shape over `Seq`.
pub ghost struct SchemaErrorView {
    pub domain: Seq<char>,
    pub declaration: Seq<char>,
    pub field: Option<Seq<char>>,
    pub fault: SchemaFaultView,
}

impl View for SchemaError {
    type V = SchemaErrorView;

    open spec fn view(&self) -> SchemaErrorView {
        SchemaErrorView {
            domain: self.domain@,
            declaration: self.declaration@,
            field: match self.field {
                Some(f) => Some(f@),
                None => None,
            },
            fault: self.fault@,
        }
    }
}

} // verus!
