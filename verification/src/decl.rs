//! The declaration tree: what compiling a schema produces, for a renderer to
//! turn into source text.
//!
//! Each exec type has a view of the same shape over `Seq<char>` and `Seq`, in
//! which the contracts of the compiler are written.

use crate::views::views;
use vstd::prelude::*;

verus! {

/// A target type expression.
#[derive(Debug, PartialEq, Eq)]
pub enum TypeExpr {
    /// The boolean primitive.
    Boolean,
    /// The shared 32-bit unsigned integer.
    Integer,
    /// The shared 64-bit float.
    Number,
    /// The string primitive.
    Text,
    /// Any JSON value, passed through as it is.
    Json,
    /// A declared type, in another domain when `domain` is set.
    Named { domain: Option<String>, name: String },
    /// A sequence of the inner type.
    Sequence(Box<TypeExpr>),
    /// The inner type, or nothing.
    Optional(Box<TypeExpr>),
    /// The inner type behind an owning indirection.
    Boxed(Box<TypeExpr>),
}

/// The view of [`TypeExpr`]: the same shape over `Seq`.
pub ghost enum TypeExprView {
    Boolean,
    Integer,
    Number,
    Text,
    Json,
    Named { domain: Option<Seq<char>>, name: Seq<char> },
    Sequence(Box<TypeExprView>),
    Optional(Box<TypeExprView>),
    Boxed(Box<TypeExprView>),
}

impl TypeExpr {
    /// The expression over the views of its names.
    pub open spec fn model(self) -> TypeExprView
        decreases self,
    {
        match self {
            TypeExpr::Boolean => TypeExprView::Boolean,
            TypeExpr::Integer => TypeExprView::Integer,
            TypeExpr::Number => TypeExprView::Number,
            TypeExpr::Text => TypeExprView::Text,
            TypeExpr::Json => TypeExprView::Json,
            TypeExpr::Named { domain, name } => TypeExprView::Named {
                domain: match domain {
                    Some(d) => Some(d@),
                    None => None,
                },
                name: name@,
            },
            TypeExpr::Sequence(inner) => TypeExprView::Sequence(Box::new((*inner).model())),
            TypeExpr::Optional(inner) => TypeExprView::Optional(Box::new((*inner).model())),
            TypeExpr::Boxed(inner) => TypeExprView::Boxed(Box::new((*inner).model())),
        }
    }
}

impl View for TypeExpr {
    type V = TypeExprView;

    open spec fn view(&self) -> TypeExprView {
        self.model()
    }
}

impl TypeExprView {
    /// The innermost type is a primitive, not a declared type.
    pub open spec fn leaf_is_primitive(self) -> bool
        decreases self,
    {
        match self {
            TypeExprView::Named { .. } => false,
            TypeExprView::Sequence(inner) => inner.leaf_is_primitive(),
            TypeExprView::Optional(inner) => inner.leaf_is_primitive(),
            TypeExprView::Boxed(inner) => inner.leaf_is_primitive(),
            _ => true,
        }
    }

    /// A value of this type holds a value of the local type `id` in place: not
    /// behind a sequence or an owning indirection.
    pub open spec fn embeds(self, id: Seq<char>) -> bool
        decreases self,
    {
        match self {
            TypeExprView::Named { domain, name } => domain is None && name == id,
            TypeExprView::Optional(inner) => inner.embeds(id),
            _ => false,
        }
    }
}

impl TypeExpr {
    /// Whether the innermost type is a primitive, not a declared type.
    pub fn leaf_is_primitive(&self) -> (r: bool)
        ensures
            r == self@.leaf_is_primitive(),
        decreases self,
    {
        match self {
            TypeExpr::Named { .. } => false,
            TypeExpr::Sequence(inner) => inner.leaf_is_primitive(),
            TypeExpr::Optional(inner) => inner.leaf_is_primitive(),
            TypeExpr::Boxed(inner) => inner.leaf_is_primitive(),
            _ => true,
        }
    }

    /// A copy of this expression and of every expression nested in it.
    pub fn duplicate(&self) -> (r: TypeExpr)
        ensures
            r@ == self@,
        decreases self,
    {
        match self {
            TypeExpr::Boolean => TypeExpr::Boolean,
            TypeExpr::Integer => TypeExpr::Integer,
            TypeExpr::Number => TypeExpr::Number,
            TypeExpr::Text => TypeExpr::Text,
            TypeExpr::Json => TypeExpr::Json,
            TypeExpr::Named { domain, name } => TypeExpr::Named {
                domain: match domain {
                    Some(d) => Some(d.clone()),
                    None => None,
                },
                name: name.clone(),
            },
            TypeExpr::Sequence(inner) => TypeExpr::Sequence(Box::new(inner.duplicate())),
            TypeExpr::Optional(inner) => TypeExpr::Optional(Box::new(inner.duplicate())),
            TypeExpr::Boxed(inner) => TypeExpr::Boxed(Box::new(inner.duplicate())),
        }
    }
}

impl Clone for TypeExpr {
    fn clone(&self) -> (r: Self)
        ensures
            r@ == self@,
    {
        self.duplicate()
    }
}

/// A name for a type expression.
#[derive(Clone, Debug, PartialEq, Eq)]
pub struct TypeAlias {
    pub name: String,
    pub target: TypeExpr,
}

/// The view of [`TypeAlias`]: the same shape over `Seq`.
pub ghost struct TypeAliasView {
    pub name: Seq<char>,
    pub target: TypeExprView,
}

impl View for TypeAlias {
    type V = TypeAliasView;

    open spec fn view(&self) -> TypeAliasView {
        TypeAliasView { name: self.name@, target: self.target@ }
    }
}

/// One variant of a string enumeration. `tag` is the literal on the wire, kept
/// as written; `name` is the identifier made from it.
#[derive(Clone, Debug, PartialEq, Eq)]
pub struct EnumVariant {
    pub name: String,
    pub tag: String,
}

/// The view of [`EnumVariant`]: the same shape over `Seq`.
pub ghost struct EnumVariantView {
    pub name: Seq<char>,
    pub tag: Seq<char>,
}

impl View for EnumVariant {
    type V = EnumVariantView;

    open spec fn view(&self) -> EnumVariantView {
        EnumVariantView { name: self.name@, tag: self.tag@ }
    }
}

/// A string enumeration: one variant for each literal, in the order of the literals.
#[derive(Clone, Debug, PartialEq, Eq)]
pub struct EnumDecl {
    pub name: String,
    pub variants: Vec<EnumVariant>,
}

/// The view of [`EnumDecl`]: the same shape over `Seq`.
pub ghost struct EnumDeclView {
    pub name: Seq<char>,
    pub variants: Seq<EnumVariantView>,
}

impl View for EnumDecl {
    type V = EnumDeclView;

    open spec fn view(&self) -> EnumDeclView {
        EnumDeclView { name: self.name@, variants: views(self.variants@) }
    }
}

impl EnumDeclView {
    /// The wire tags of the variants, in order.
    pub open spec fn tags(self) -> Seq<Seq<char>> {
        self.variants.map_values(|v: EnumVariantView| v.tag)
    }
}

/// A field of an object declaration. `wire_name` is the name on the wire, kept as
/// written; `name` is the identifier made from it.
#[derive(Clone, Debug, PartialEq, Eq)]
pub struct FieldDecl {
    pub name: String,
    pub wire_name: String,
    pub ty: TypeExpr,
    /// An absent value is left out of the output altogether.
    pub omit_if_absent: bool,
    /// A field missing from the input reads as the default value of its type.
    pub default_if_absent: bool,
}

/// The view of [`FieldDecl`]: the same shape over `Seq`.
pub ghost struct FieldDeclView {
    pub name: Seq<char>,
    pub wire_name: Seq<char>,
    pub ty: TypeExprView,
    pub omit_if_absent: bool,
    pub default_if_absent: bool,
}

impl View for FieldDecl {
    type V = FieldDeclView;

    open spec fn view(&self) -> FieldDeclView {
        FieldDeclView {
            name: self.name@,
            wire_name: self.wire_name@,
            ty: self.ty@,
            omit_if_absent: self.omit_if_absent,
            default_if_absent: self.default_if_absent,
        }
    }
}

impl FieldDeclView {
    /// The field is sound in the declaration `owner`: it holds no value of
    /// `owner` in place, and it is left out of the output when absent exactly
    /// where its type is optional.
    pub open spec fn wf(self, owner: Seq<char>) -> bool {
        &&& !self.ty.embeds(owner)
        &&& self.omit_if_absent <==> self.ty is Optional
    }
}

/// An object declaration. An opaque one has no fields and stands for a JSON
/// payload of unknown shape.
#[derive(Clone, Debug, PartialEq, Eq)]
pub struct ObjectDecl {
    pub name: String,
    pub fields: Vec<FieldDecl>,
    pub opaque: bool,
}

/// The view of [`ObjectDecl`]: the same shape over `Seq`.
pub ghost struct ObjectDeclView {
    pub name: Seq<char>,
    pub fields: Seq<FieldDeclView>,
    pub opaque: bool,
}

impl View for ObjectDecl {
    type V = ObjectDeclView;

    open spec fn view(&self) -> ObjectDeclView {
        ObjectDeclView { name: self.name@, fields: views(self.fields@), opaque: self.opaque }
    }
}

impl ObjectDeclView {
    /// The declaration is sound: an opaque one has no field, and every field is
    /// sound in it. A value of a sound declaration has a finite size.
    pub open spec fn wf(self) -> bool {
        &&& self.opaque ==> self.fields.len() == 0
        &&& forall|i: int| 0 <= i < self.fields.len() ==> (#[trigger] self.fields[i]).wf(self.name)
    }
}

/// Every declaration of the list is sound.
pub open spec fn objects_wf(s: Seq<ObjectDeclView>) -> bool {
    forall|i: int| 0 <= i < s.len() ==> (#[trigger] s[i]).wf()
}

/// The binding of one command: its name on the wire and the names of its
/// parameter and return declarations.
#[derive(Clone, Debug, PartialEq, Eq)]
pub struct MethodBinding {
    pub name: String,
    pub parameter: String,
    pub return_object: String,
}

/// The view of [`MethodBinding`]: the same shape over `Seq`.
pub ghost struct MethodBindingView {
    pub name: Seq<char>,
    pub parameter: Seq<char>,
    pub return_object: Seq<char>,
}

impl View for MethodBinding {
    type V = MethodBindingView;

    open spec fn view(&self) -> MethodBindingView {
        MethodBindingView {
            name: self.name@,
            parameter: self.parameter@,
            return_object: self.return_object@,
        }
    }
}

/// One variant of the union of all events. `tag` is the discriminant on the
/// wire; the payload is the declaration `payload` in the event namespace of `domain`.
#[derive(Clone, Debug, PartialEq, Eq)]
pub struct EventUnionVariant {
    pub name: String,
    pub tag: String,
    pub domain: String,
    pub payload: String,
}

/// The view of [`EventUnionVariant`]: the same shape over `Seq`.
pub ghost struct EventUnionVariantView {
    pub name: Seq<char>,
    pub tag: Seq<char>,
    pub domain: Seq<char>,
    pub payload: Seq<char>,
}

impl View for EventUnionVariant {
    type V = EventUnionVariantView;

    open spec fn view(&self) -> EventUnionVariantView {
        EventUnionVariantView {
            name: self.name@,
            tag: self.tag@,
            domain: self.domain@,
            payload: self.payload@,
        }
    }
}

/// A node of the declaration tree.
#[derive(Clone, Debug, PartialEq, Eq)]
pub enum Decl {
    Alias(TypeAlias),
    Enum(EnumDecl),
    Object(ObjectDecl),
    Method(MethodBinding),
    EventVariant(EventUnionVariant),
}

/// The view of [`Decl`]: the same shape over `Seq`.
pub ghost enum DeclView {
    Alias(TypeAliasView),
    Enum(EnumDeclView),
    Object(ObjectDeclView),
    Method(MethodBindingView),
    EventVariant(EventUnionVariantView),
}

impl View for Decl {
    type V = DeclView;

    open spec fn view(&self) -> DeclView {
        match self {
            Decl::Alias(a) => DeclView::Alias(a@),
            Decl::Enum(e) => DeclView::Enum(e@),
            Decl::Object(o) => DeclView::Object(o@),
            Decl::Method(m) => DeclView::Method(m@),
            Decl::EventVariant(v) => DeclView::EventVariant(v@),
        }
    }
}

impl DeclView {
    /// The node is sound: an object declaration is, and any other node.
    pub open spec fn wf(self) -> bool {
        match self {
            DeclView::Object(o) => o.wf(),
            _ => true,
        }
    }
}

/// The namespace of one domain: its imports, its declarations in output order,
/// and the declarations of its nested event namespace.
#[derive(Clone, Debug, PartialEq, Eq)]
pub struct DomainModule {
    pub name: String,
    pub imports: Vec<String>,
    pub decls: Vec<Decl>,
    pub events: Vec<Decl>,
}

/// The view of [`DomainModule`]: the same shape over `Seq`.
pub ghost struct DomainModuleView {
    pub name: Seq<char>,
    pub imports: Seq<Seq<char>>,
    pub decls: Seq<DeclView>,
    pub events: Seq<DeclView>,
}

impl View for DomainModule {
    type V = DomainModuleView;

    open spec fn view(&self) -> DomainModuleView {
        DomainModuleView {
            name: self.name@,
            imports: views(self.imports@),
            decls: views(self.decls@),
            events: views(self.events@),
        }
    }
}

impl DomainModuleView {
    /// The namespace is sound: no domain is imported twice, and every
    /// declaration is sound.
    pub open spec fn wf(self) -> bool {
        &&& self.imports.no_duplicates()
        &&& forall|i: int| 0 <= i < self.decls.len() ==> (#[trigger] self.decls[i]).wf()
        &&& forall|i: int| 0 <= i < self.events.len() ==> (#[trigger] self.events[i]).wf()
    }
}

/// The compiled tree: the shared namespace and one namespace for each domain.
#[derive(Clone, Debug, PartialEq, Eq)]
pub struct CompiledTree {
    pub shared: Vec<Decl>,
    pub modules: Vec<DomainModule>,
}

/// The view of [`CompiledTree`]: the same shape over `Seq`.
pub ghost struct CompiledTreeView {
    pub shared: Seq<DeclView>,
    pub modules: Seq<DomainModuleView>,
}

impl CompiledTreeView {
    /// The tree is sound: every namespace of a domain is.
    pub open spec fn wf(self) -> bool {
        forall|i: int| 0 <= i < self.modules.len() ==> (#[trigger] self.modules[i]).wf()
    }
}

impl View for CompiledTree {
    type V = CompiledTreeView;

    open spec fn view(&self) -> CompiledTreeView {
        CompiledTreeView { shared: views(self.shared@), modules: views(self.modules@) }
    }
}

} // verus!
