//! The type resolver: from a schema node and the context it stands in to a
//! target type expression, with the enumeration it declares and the domain it
//! imports on the way.

use crate::decl::{
    EnumDecl, EnumDeclView, EnumVariant, EnumVariantView, FieldDecl, FieldDeclView, TypeExpr,
    TypeExprView,
};
use crate::error::{Missing, SchemaFault, SchemaFaultView};
use crate::naming::{
    enum_name, field_ident, normalize_field, ref_domain, ref_is_qualified, ref_name,
    split_reference, synth_enum_name, variant_ident, variant_name, variant_supported,
};
use crate::schema::{declares, Items, Parameter, Protocol, TypeEnum};
use crate::views::{lemma_views_push, option_view, result_view, views};
use vstd::prelude::*;
use vstd::string::*;
use vstd::utf8::is_ascii_chars;

verus! {

/// The primitive that a shape discriminator stands for. An object without a
/// declared shape is a JSON value; an array stands for no primitive.
pub open spec fn primitive_type(t: TypeEnum) -> Option<TypeExprView> {
    match t {
        TypeEnum::Boolean => Some(TypeExprView::Boolean),
        TypeEnum::Integer => Some(TypeExprView::Integer),
        TypeEnum::Number => Some(TypeExprView::Number),
        TypeEnum::String => Some(TypeExprView::Text),
        TypeEnum::Any => Some(TypeExprView::Json),
        TypeEnum::Object => Some(TypeExprView::Json),
        TypeEnum::Array => None,
    }
}

impl TypeEnum {
    /// The primitive that this discriminator stands for, if it stands for one.
    pub fn primitive(self) -> (r: Option<TypeExpr>)
        ensures
            option_view(r) == primitive_type(self),
    {
        match self {
            TypeEnum::Boolean => Some(TypeExpr::Boolean),
            TypeEnum::Integer => Some(TypeExpr::Integer),
            TypeEnum::Number => Some(TypeExpr::Number),
            TypeEnum::String => Some(TypeExpr::Text),
            TypeEnum::Any => Some(TypeExpr::Json),
            TypeEnum::Object => Some(TypeExpr::Json),
            TypeEnum::Array => None,
        }
    }
}

/// The literal list of a node over the views of its literals.
pub open spec fn literals_view(literals: Option<Vec<String>>) -> Option<Seq<Seq<char>>> {
    match literals {
        Some(l) => Some(views(l@)),
        None => None,
    }
}

/// The index of the first literal from which no identifier can be made, or the
/// length of the list when there is none.
pub open spec fn first_unsupported(literals: Seq<Seq<char>>) -> int
    decreases literals.len(),
{
    if literals.len() == 0 {
        0
    } else if !variant_supported(literals[0]) {
        0
    } else {
        1 + first_unsupported(literals.skip(1))
    }
}

/// `first_unsupported` is the least index of an unsupported literal.
pub proof fn lemma_first_unsupported(literals: Seq<Seq<char>>)
    ensures
        0 <= first_unsupported(literals) <= literals.len(),
        forall|j: int|
            0 <= j < first_unsupported(literals) ==> variant_supported(#[trigger] literals[j]),
        first_unsupported(literals) < literals.len() ==> !variant_supported(
            literals[first_unsupported(literals)],
        ),
    decreases literals.len(),
{
    if literals.len() > 0 && variant_supported(literals[0]) {
        let rest = literals.skip(1);
        lemma_first_unsupported(rest);
        let k = first_unsupported(rest);
        assert forall|j: int| 0 <= j < 1 + k implies variant_supported(#[trigger] literals[j]) by {
            if j > 0 {
                assert(rest[j - 1] == literals[j]);
            }
        }
        if k < rest.len() {
            assert(rest[k] == literals[k + 1]);
        }
    }
}

/// The variants of the enumeration of a literal list: one for each literal, in
/// order, tagged with the literal as written.
pub open spec fn enum_variants(literals: Seq<Seq<char>>) -> Seq<EnumVariantView> {
    literals.map_values(|l: Seq<char>| EnumVariantView { name: variant_ident(l), tag: l })
}

/// The enumeration called `name` of a literal list.
pub open spec fn enum_decl(name: Seq<char>, literals: Seq<Seq<char>>) -> EnumDeclView {
    EnumDeclView { name, variants: enum_variants(literals) }
}

/// The enumeration called `name` of a literal list, or the fault of the first
/// literal from which no identifier can be made.
pub open spec fn enum_outcome(name: Seq<char>, literals: Seq<Seq<char>>) -> Result<
    EnumDeclView,
    SchemaFaultView,
> {
    let k = first_unsupported(literals);
    if 0 <= k < literals.len() {
        Err(SchemaFaultView::Name { name: literals[k] })
    } else {
        Ok(enum_decl(name, literals))
    }
}

/// The variants of an enumeration stand one to one for the literals it was made
/// of: there are as many, the tag of each is its literal as written, and so the
/// tags read back are the literal list.
pub proof fn lemma_enum_tags_are_literals(name: Seq<char>, literals: Seq<Seq<char>>)
    ensures
        enum_decl(name, literals).variants.len() == literals.len(),
        forall|i: int|
            0 <= i < literals.len() ==> (#[trigger] enum_decl(name, literals).variants[i]).tag
                == literals[i],
        enum_decl(name, literals).tags() == literals,
        literals.no_duplicates() ==> enum_decl(name, literals).tags().no_duplicates(),
{
    assert(enum_decl(name, literals).tags() =~= literals);
}

/// Declares the enumeration called `enum_name` with one variant for each literal
/// of `enum_vec`.
pub fn tokenize_enum(enum_vec: &Vec<String>, enum_name: String) -> (r: Result<
    EnumDecl,
    SchemaFault,
>)
    ensures
        result_view(r) == enum_outcome(enum_name@, views(enum_vec@)),
{
    let ghost literals = views(enum_vec@);
    let mut variants: Vec<EnumVariant> = Vec::new();
    let mut i: usize = 0;
    assert(views(variants@) =~= enum_variants(literals.take(0)));
    while i < enum_vec.len()
        invariant
            i <= enum_vec.len(),
            literals == views(enum_vec@),
            forall|j: int| 0 <= j < i ==> variant_supported(#[trigger] literals[j]),
            views(variants@) == enum_variants(literals.take(i as int)),
        decreases enum_vec.len() - i,
    {
        assert(literals[i as int] == enum_vec@[i as int]@);
        match variant_name(enum_vec[i].as_str()) {
            None => {
                proof {
                    lemma_first_unsupported(literals);
                }
                return Err(SchemaFault::Name { name: enum_vec[i].clone() });
            },
            Some(name) => {
                let variant = EnumVariant { name, tag: enum_vec[i].clone() };
                proof {
                    lemma_views_push(variants@, variant);
                    assert(enum_variants(literals.take(i + 1)) =~= enum_variants(
                        literals.take(i as int),
                    ).push(variant@));
                }
                variants.push(variant);
            },
        }
        i += 1;
    }
    proof {
        lemma_first_unsupported(literals);
        assert(literals.take(i as int) == literals);
    }
    Ok(EnumDecl { name: enum_name, variants })
}

/// Where a node stands: the whole schema, the domain being compiled and the
/// declaration that encloses the node.
pub struct Context<'a> {
    pub protocol: &'a Protocol,
    pub domain: &'a String,
    pub declaration: &'a String,
}

/// The view of [`Context`]: the same shape over `Seq`.
pub ghost struct ContextView {
    pub protocol: Protocol,
    pub domain: Seq<char>,
    pub declaration: Seq<char>,
}

impl<'a> View for Context<'a> {
    type V = ContextView;

    open spec fn view(&self) -> ContextView {
        ContextView {
            protocol: *self.protocol,
            domain: self.domain@,
            declaration: self.declaration@,
        }
    }
}

/// What a type position resolves to: the type expression, the domain that it
/// imports and the enumeration that it declares, where there is one.
#[derive(Debug, PartialEq, Eq)]
pub struct Resolution {
    pub ty: TypeExpr,
    pub import: Option<String>,
    pub side_enum: Option<EnumDecl>,
}

/// The view of [`Resolution`]: the same shape over `Seq`.
pub ghost struct ResolutionView {
    pub ty: TypeExprView,
    pub import: Option<Seq<char>>,
    pub side_enum: Option<EnumDeclView>,
}

impl View for Resolution {
    type V = ResolutionView;

    open spec fn view(&self) -> ResolutionView {
        ResolutionView {
            ty: self.ty@,
            import: option_view(self.import),
            side_enum: option_view(self.side_enum),
        }
    }
}

impl ResolutionView {
    /// A primitive: nothing imported, nothing declared.
    pub open spec fn plain(ty: TypeExprView) -> ResolutionView {
        ResolutionView { ty, import: None, side_enum: None }
    }
}

/// The type expression that names what a reference refers to.
pub open spec fn ref_type(reference: Seq<char>) -> TypeExprView {
    if ref_is_qualified(reference) {
        TypeExprView::Named { domain: Some(ref_domain(reference)), name: ref_name(reference) }
    } else {
        TypeExprView::Named { domain: None, name: reference }
    }
}

/// The reference names a declared type: a qualified one in the domain it names,
/// a bare one in the domain being compiled.
pub open spec fn ref_resolves(cx: ContextView, reference: Seq<char>) -> bool {
    if ref_is_qualified(reference) {
        declares(cx.protocol, ref_domain(reference), ref_name(reference))
    } else {
        declares(cx.protocol, cx.domain, reference)
    }
}

/// A reference resolves to the type it names, importing the domain of a qualified
/// reference; a reference that names no declared type is a fault.
pub open spec fn ref_outcome(cx: ContextView, reference: Seq<char>) -> Result<
    ResolutionView,
    SchemaFaultView,
> {
    if ref_resolves(cx, reference) {
        Ok(
            ResolutionView {
                ty: ref_type(reference),
                import: if ref_is_qualified(reference) {
                    Some(ref_domain(reference))
                } else {
                    None
                },
                side_enum: None,
            },
        )
    } else {
        Err(SchemaFaultView::Reference { target: reference })
    }
}

/// A node that is no array resolves to its primitive, but a string with a literal
/// list resolves to the enumeration of that list, named after the enclosing
/// declaration and the field. An array, which has no element shape here, is a
/// fault.
pub open spec fn leaf_outcome(
    t: TypeEnum,
    literals: Option<Seq<Seq<char>>>,
    cx: ContextView,
    ident: Seq<char>,
) -> Result<ResolutionView, SchemaFaultView> {
    if t == TypeEnum::String && literals is Some {
        match enum_outcome(enum_name(cx.declaration, ident), literals->0) {
            Ok(e) => Ok(
                ResolutionView {
                    ty: TypeExprView::Named { domain: None, name: e.name },
                    import: None,
                    side_enum: Some(e),
                },
            ),
            Err(f) => Err(f),
        }
    } else {
        match primitive_type(t) {
            Some(ty) => Ok(ResolutionView::plain(ty)),
            None => Err(SchemaFaultView::Shape { missing: Missing::Items }),
        }
    }
}

/// The resolution of the elements, as the resolution of their sequence.
pub open spec fn in_sequence(r: Result<ResolutionView, SchemaFaultView>) -> Result<
    ResolutionView,
    SchemaFaultView,
> {
    match r {
        Ok(s) => Ok(ResolutionView { ty: TypeExprView::Sequence(Box::new(s.ty)), ..s }),
        Err(f) => Err(f),
    }
}

/// The element shape of an array resolves to the type its reference names, or
/// to its own shape: one more sequence for a nested array, a leaf otherwise.
pub open spec fn items_outcome(
    items: Items,
    literals: Option<Seq<Seq<char>>>,
    cx: ContextView,
    ident: Seq<char>,
) -> Result<ResolutionView, SchemaFaultView>
    decreases items,
{
    match items.items_ref {
        Some(reference) => ref_outcome(cx, reference@),
        None => match items.items_type {
            None => Err(SchemaFaultView::Shape { missing: Missing::TypeOrRef }),
            Some(TypeEnum::Array) => match items.items {
                None => Err(SchemaFaultView::Shape { missing: Missing::Items }),
                Some(inner) => in_sequence(items_outcome(*inner, literals, cx, ident)),
            },
            Some(t) => leaf_outcome(t, literals, cx, ident),
        },
    }
}

/// The type position of a property. A shape discriminator decides first: an
/// array is the sequence of its elements, anything else a leaf. Without one the
/// reference decides, behind an owning indirection where it names the enclosing
/// declaration itself.
pub open spec fn shape_outcome(p: Parameter, cx: ContextView, ident: Seq<char>) -> Result<
    ResolutionView,
    SchemaFaultView,
> {
    match p.parameter_type {
        Some(TypeEnum::Array) => match p.items {
            None => Err(SchemaFaultView::Shape { missing: Missing::Items }),
            Some(items) => in_sequence(
                items_outcome(items, literals_view(p.parameter_enum), cx, ident),
            ),
        },
        Some(t) => leaf_outcome(t, literals_view(p.parameter_enum), cx, ident),
        None => match p.parameter_ref {
            None => Err(SchemaFaultView::Shape { missing: Missing::TypeOrRef }),
            Some(reference) => match ref_outcome(cx, reference@) {
                Ok(s) => if reference@ == cx.declaration {
                    Ok(ResolutionView { ty: TypeExprView::Boxed(Box::new(s.ty)), ..s })
                } else {
                    Ok(s)
                },
                Err(f) => Err(f),
            },
        },
    }
}

/// A resolved property: the field, the domain that it imports and the
/// enumeration that it declares, where there is one.
#[derive(Debug, PartialEq, Eq)]
pub struct ResolvedField {
    pub field: FieldDecl,
    pub import: Option<String>,
    pub side_enum: Option<EnumDecl>,
}

/// The view of [`ResolvedField`]: the same shape over `Seq`.
pub ghost struct ResolvedFieldView {
    pub field: FieldDeclView,
    pub import: Option<Seq<char>>,
    pub side_enum: Option<EnumDeclView>,
}

impl View for ResolvedField {
    type V = ResolvedFieldView;

    open spec fn view(&self) -> ResolvedFieldView {
        ResolvedFieldView {
            field: self.field@,
            import: option_view(self.import),
            side_enum: option_view(self.side_enum),
        }
    }
}

/// A property resolves to a field named by its normalised name and tagged with
/// its wire name as written. An optional property has its type in an optional
/// wrapper and is left out of the output when absent. A name that is not ASCII
/// is a fault, found before the type position is looked at.
pub open spec fn field_outcome(p: Parameter, cx: ContextView) -> Result<
    ResolvedFieldView,
    SchemaFaultView,
> {
    if !is_ascii_chars(p.name@) {
        Err(SchemaFaultView::Name { name: p.name@ })
    } else {
        let ident = field_ident(p.name@);
        match shape_outcome(p, cx, ident) {
            Ok(s) => Ok(
                ResolvedFieldView {
                    field: FieldDeclView {
                        name: ident,
                        wire_name: p.name@,
                        ty: if p.optional {
                            TypeExprView::Optional(Box::new(s.ty))
                        } else {
                            s.ty
                        },
                        omit_if_absent: p.optional,
                        default_if_absent: s.ty.leaf_is_primitive(),
                    },
                    import: s.import,
                    side_enum: s.side_enum,
                },
            ),
            Err(f) => Err(f),
        }
    }
}

/// Resolves a reference.
pub fn resolve_ref(reference: &String, cx: &Context) -> (r: Result<Resolution, SchemaFault>)
    ensures
        result_view(r) == ref_outcome(cx@, reference@),
{
    match split_reference(reference.as_str()) {
        Some((domain, name)) => {
            if cx.protocol.declares_type(&domain, &name) {
                Ok(
                    Resolution {
                        ty: TypeExpr::Named { domain: Some(domain.clone()), name },
                        import: Some(domain),
                        side_enum: None,
                    },
                )
            } else {
                Err(SchemaFault::Reference { target: reference.clone() })
            }
        },
        None => {
            if cx.protocol.declares_type(cx.domain, reference) {
                Ok(
                    Resolution {
                        ty: TypeExpr::Named { domain: None, name: reference.clone() },
                        import: None,
                        side_enum: None,
                    },
                )
            } else {
                Err(SchemaFault::Reference { target: reference.clone() })
            }
        },
    }
}

/// Resolves a node that is no array.
pub fn resolve_leaf(
    t: TypeEnum,
    literals: &Option<Vec<String>>,
    cx: &Context,
    ident: &str,
) -> (r: Result<Resolution, SchemaFault>)
    ensures
        result_view(r) == leaf_outcome(t, literals_view(*literals), cx@, ident@),
{
    match (t, literals) {
        (TypeEnum::String, Some(enum_vec)) => {
            let name = synth_enum_name(cx.declaration.as_str(), ident);
            match tokenize_enum(enum_vec, name) {
                Ok(e) => Ok(
                    Resolution {
                        ty: TypeExpr::Named { domain: None, name: e.name.clone() },
                        import: None,
                        side_enum: Some(e),
                    },
                ),
                Err(f) => Err(f),
            }
        },
        _ => match t.primitive() {
            Some(ty) => Ok(Resolution { ty, import: None, side_enum: None }),
            None => Err(SchemaFault::Shape { missing: Missing::Items }),
        },
    }
}

/// Resolves the element shape of an array.
pub fn resolve_items(
    items: &Items,
    literals: &Option<Vec<String>>,
    cx: &Context,
    ident: &str,
) -> (r: Result<Resolution, SchemaFault>)
    ensures
        result_view(r) == items_outcome(*items, literals_view(*literals), cx@, ident@),
    decreases items,
{
    match &items.items_ref {
        Some(reference) => resolve_ref(reference, cx),
        None => match items.items_type {
            None => Err(SchemaFault::Shape { missing: Missing::TypeOrRef }),
            Some(TypeEnum::Array) => match &items.items {
                None => Err(SchemaFault::Shape { missing: Missing::Items }),
                Some(inner) => match resolve_items(inner, literals, cx, ident) {
                    Ok(s) => Ok(
                        Resolution {
                            ty: TypeExpr::Sequence(Box::new(s.ty)),
                            import: s.import,
                            side_enum: s.side_enum,
                        },
                    ),
                    Err(f) => Err(f),
                },
            },
            Some(t) => resolve_leaf(t, literals, cx, ident),
        },
    }
}

/// Resolves the type position of a property whose field identifier is `ident`.
pub fn resolve_shape(p: &Parameter, cx: &Context, ident: &str) -> (r: Result<
    Resolution,
    SchemaFault,
>)
    ensures
        result_view(r) == shape_outcome(*p, cx@, ident@),
{
    match p.parameter_type {
        Some(TypeEnum::Array) => match &p.items {
            None => Err(SchemaFault::Shape { missing: Missing::Items }),
            Some(items) => match resolve_items(items, &p.parameter_enum, cx, ident) {
                Ok(s) => Ok(
                    Resolution {
                        ty: TypeExpr::Sequence(Box::new(s.ty)),
                        import: s.import,
                        side_enum: s.side_enum,
                    },
                ),
                Err(f) => Err(f),
            },
        },
        Some(t) => resolve_leaf(t, &p.parameter_enum, cx, ident),
        None => match &p.parameter_ref {
            None => Err(SchemaFault::Shape { missing: Missing::TypeOrRef }),
            Some(reference) => match resolve_ref(reference, cx) {
                Ok(s) => if *reference == *cx.declaration {
                    Ok(
                        Resolution {
                            ty: TypeExpr::Boxed(Box::new(s.ty)),
                            import: s.import,
                            side_enum: s.side_enum,
                        },
                    )
                } else {
                    Ok(s)
                },
                Err(f) => Err(f),
            },
        },
    }
}

/// Resolves a property to a field.
pub fn resolve(p: &Parameter, cx: &Context) -> (r: Result<ResolvedField, SchemaFault>)
    ensures
        result_view(r) == field_outcome(*p, cx@),
{
    match normalize_field(p.name.as_str()) {
        None => Err(SchemaFault::Name { name: p.name.clone() }),
        Some(ident) => match resolve_shape(p, cx, ident.as_str()) {
            Ok(s) => {
                let default_if_absent = s.ty.leaf_is_primitive();
                let ty = if p.optional {
                    TypeExpr::Optional(Box::new(s.ty))
                } else {
                    s.ty
                };
                Ok(
                    ResolvedField {
                        field: FieldDecl {
                            name: ident,
                            wire_name: p.name.clone(),
                            ty,
                            omit_if_absent: p.optional,
                            default_if_absent,
                        },
                        import: s.import,
                        side_enum: s.side_enum,
                    },
                )
            },
            Err(f) => Err(f),
        },
    }
}

} // verus!
