//! Object declarations: the fields of a property list, resolved one by one into
//! a declaration, with what they import and declare noted in the emission unit.

use crate::decl::{FieldDecl, FieldDeclView, ObjectDecl, ObjectDeclView};
use crate::error::{SchemaError, SchemaErrorView, SchemaFault, SchemaFaultView};
use crate::fold::{lemma_try_fold_next, lemma_try_fold_stops, try_fold};
use crate::resolve::{field_outcome, resolve, Context, ContextView};
use crate::schema::{Parameter, Protocol};
use crate::unit::{DomainUnit, DomainUnitView};
use crate::views::{lemma_views_push, result_view, views};
use vstd::prelude::*;
use vstd::string::*;

verus! {

/// The fault with the path to it.
pub open spec fn located(
    cx: ContextView,
    field: Option<Seq<char>>,
    fault: SchemaFaultView,
) -> SchemaErrorView {
    SchemaErrorView { domain: cx.domain, declaration: cx.declaration, field, fault }
}

/// The fault with the path to it.
pub fn locate(cx: &Context, field: Option<&String>, fault: SchemaFault) -> (r: SchemaError)
    ensures
        r@ == located(
            cx@,
            match field {
                Some(f) => Some(f@),
                None => None,
            },
            fault@,
        ),
{
    SchemaError {
        domain: cx.domain.clone(),
        declaration: cx.declaration.clone(),
        field: match field {
            Some(f) => Some(f.clone()),
            None => None,
        },
        fault,
    }
}

/// The fields resolved so far, and the emission unit with what they import and
/// declare.
#[derive(Debug, PartialEq, Eq)]
pub struct Fields {
    pub fields: Vec<FieldDecl>,
    pub unit: DomainUnit,
}

/// The view of [`Fields`]: the same shape over `Seq`.
pub ghost struct FieldsView {
    pub fields: Seq<FieldDeclView>,
    pub unit: DomainUnitView,
}

impl View for Fields {
    type V = FieldsView;

    open spec fn view(&self) -> FieldsView {
        FieldsView { fields: views(self.fields@), unit: self.unit@ }
    }
}

/// One more property resolved: its field is added at the end, its import is
/// registered and its enumeration declared. A fault is located at the property.
pub open spec fn add_field(
    acc: FieldsView,
    p: Parameter,
    protocol: Protocol,
    declaration: Seq<char>,
) -> Result<FieldsView, SchemaErrorView> {
    let cx = ContextView { protocol, domain: acc.unit.domain, declaration };
    match field_outcome(p, cx) {
        Ok(f) => Ok(
            FieldsView {
                fields: acc.fields.push(f.field),
                unit: acc.unit.importing(f.import).declaring(f.side_enum),
            },
        ),
        Err(fault) => Err(located(cx, Some(p.name@), fault)),
    }
}

/// `add_field` as the step of a fold over a property list.
pub open spec fn field_step(protocol: Protocol, declaration: Seq<char>) -> spec_fn(
    FieldsView,
    Parameter,
) -> Result<FieldsView, SchemaErrorView> {
    |acc: FieldsView, p: Parameter| add_field(acc, p, protocol, declaration)
}

/// The fields of a property list, in the order of the list, or the first fault.
pub open spec fn fields_outcome(
    params: Seq<Parameter>,
    protocol: Protocol,
    declaration: Seq<char>,
    unit: DomainUnitView,
) -> Result<FieldsView, SchemaErrorView> {
    try_fold(
        params,
        FieldsView { fields: Seq::empty(), unit },
        field_step(protocol, declaration),
    )
}

/// Resolves the properties of the declaration called `declaration`, in order.
pub fn resolve_fields(
    params: &Vec<Parameter>,
    protocol: &Protocol,
    declaration: &String,
    unit: DomainUnit,
) -> (r: Result<Fields, SchemaError>)
    ensures
        result_view(r) == fields_outcome(params@, *protocol, declaration@, unit@),
{
    let ghost step = field_step(*protocol, declaration@);
    let ghost init = FieldsView { fields: Seq::empty(), unit: unit@ };
    let mut fields: Vec<FieldDecl> = Vec::new();
    let mut current = unit;
    let mut i: usize = 0;
    assert(views(fields@) =~= Seq::<FieldDeclView>::empty());
    while i < params.len()
        invariant
            i <= params.len(),
            step == field_step(*protocol, declaration@),
            init == (FieldsView { fields: Seq::empty(), unit: unit@ }),
            try_fold(params@.take(i as int), init, step) == Ok::<FieldsView, SchemaErrorView>(
                FieldsView { fields: views(fields@), unit: current@ },
            ),
        decreases params.len() - i,
    {
        proof {
            lemma_try_fold_next(params@, i as int, init, step);
        }
        let cx = Context { protocol, domain: &current.domain, declaration };
        match resolve(&params[i], &cx) {
            Err(fault) => {
                let e = locate(&cx, Some(&params[i].name), fault);
                proof {
                    lemma_try_fold_stops(params@, i + 1, init, step);
                }
                return Err(e);
            },
            Ok(f) => {
                proof {
                    lemma_views_push(fields@, f.field);
                }
                fields.push(f.field);
                current = current.note(f.import, f.side_enum);
            },
        }
        i += 1;
    }
    assert(params@.take(i as int) == params@);
    Ok(Fields { fields, unit: current })
}

/// An object declaration and the emission unit after its fields were resolved.
#[derive(Debug, PartialEq, Eq)]
pub struct Declared {
    pub decl: ObjectDecl,
    pub unit: DomainUnit,
}

/// The view of [`Declared`]: the same shape over `Seq`.
pub ghost struct DeclaredView {
    pub decl: ObjectDeclView,
    pub unit: DomainUnitView,
}

impl View for Declared {
    type V = DeclaredView;

    open spec fn view(&self) -> DeclaredView {
        DeclaredView { decl: self.decl@, unit: self.unit@ }
    }
}

/// The declaration called `name` of an optional property list. A list, even an
/// empty one, gives a declaration with one field for each property. No list
/// gives a declaration without fields, opaque if `absent_is_opaque`.
pub open spec fn object_outcome(
    name: Seq<char>,
    params: Option<Vec<Parameter>>,
    absent_is_opaque: bool,
    protocol: Protocol,
    unit: DomainUnitView,
) -> Result<DeclaredView, SchemaErrorView> {
    match params {
        Some(list) => match fields_outcome(list@, protocol, name, unit) {
            Ok(acc) => Ok(
                DeclaredView {
                    decl: ObjectDeclView { name, fields: acc.fields, opaque: false },
                    unit: acc.unit,
                },
            ),
            Err(e) => Err(e),
        },
        None => Ok(
            DeclaredView {
                decl: ObjectDeclView { name, fields: Seq::empty(), opaque: absent_is_opaque },
                unit,
            },
        ),
    }
}

/// Declares the object called `name` with the fields of `params`.
pub fn declare_object(
    name: String,
    params: &Option<Vec<Parameter>>,
    absent_is_opaque: bool,
    protocol: &Protocol,
    unit: DomainUnit,
) -> (r: Result<Declared, SchemaError>)
    ensures
        result_view(r) == object_outcome(name@, *params, absent_is_opaque, *protocol, unit@),
{
    match params {
        Some(list) => match resolve_fields(list, protocol, &name, unit) {
            Ok(acc) => Ok(
                Declared {
                    decl: ObjectDecl { name, fields: acc.fields, opaque: false },
                    unit: acc.unit,
                },
            ),
            Err(e) => Err(e),
        },
        None => {
            let decl = ObjectDecl { name, fields: Vec::new(), opaque: absent_is_opaque };
            assert(decl@.fields =~= Seq::empty());
            Ok(Declared { decl, unit })
        },
    }
}

} // verus!
