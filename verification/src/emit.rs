//! The module emitter: puts the lists of each emission unit in output order, and
//! joins the domains, the shared aliases and the union of all events into one
//! compiled tree.

use crate::decl::{
    CompiledTree, CompiledTreeView, Decl, DeclView, DomainModule, DomainModuleView, EnumDecl,
    EnumDeclView, EventUnionVariant, EventUnionVariantView, MethodBinding, MethodBindingView,
    ObjectDecl, ObjectDeclView, TypeAlias, TypeAliasView, TypeExpr, TypeExprView,
};
use crate::unit::{DomainUnit, DomainUnitView};
use crate::views::{lemma_views_push, views};
use vstd::prelude::*;
use vstd::string::*;

verus! {

/// A declaration that can stand as a node of the tree.
pub trait Node: View + Sized {
    /// The node that holds a declaration with this view.
    spec fn node(v: Self::V) -> DeclView;

    /// This declaration as a node of the tree.
    fn into_decl(self) -> (r: Decl)
        ensures
            r@ == Self::node(self@),
    ;
}

impl Node for TypeAlias {
    open spec fn node(v: TypeAliasView) -> DeclView {
        DeclView::Alias(v)
    }

    fn into_decl(self) -> (r: Decl) {
        Decl::Alias(self)
    }
}

impl Node for EnumDecl {
    open spec fn node(v: EnumDeclView) -> DeclView {
        DeclView::Enum(v)
    }

    fn into_decl(self) -> (r: Decl) {
        Decl::Enum(self)
    }
}

impl Node for ObjectDecl {
    open spec fn node(v: ObjectDeclView) -> DeclView {
        DeclView::Object(v)
    }

    fn into_decl(self) -> (r: Decl) {
        Decl::Object(self)
    }
}

impl Node for MethodBinding {
    open spec fn node(v: MethodBindingView) -> DeclView {
        DeclView::Method(v)
    }

    fn into_decl(self) -> (r: Decl) {
        Decl::Method(self)
    }
}

impl Node for EventUnionVariant {
    open spec fn node(v: EventUnionVariantView) -> DeclView {
        DeclView::EventVariant(v)
    }

    fn into_decl(self) -> (r: Decl) {
        Decl::EventVariant(self)
    }
}

/// The declarations of one kind as nodes of the tree, in order.
pub open spec fn nodes<T: Node>(s: Seq<T::V>) -> Seq<DeclView> {
    s.map_values(|v: T::V| T::node(v))
}

/// The namespace of a domain: its imports, then its declarations in the order
/// type aliases, enumerations, objects, parameter declarations, return
/// declarations, method bindings; and its nested event namespace.
pub open spec fn module_of(unit: DomainUnitView) -> DomainModuleView {
    DomainModuleView {
        name: unit.domain,
        imports: unit.imports,
        decls: nodes::<TypeAlias>(unit.aliases) + nodes::<EnumDecl>(unit.enums) + nodes::<
            ObjectDecl,
        >(unit.objects) + nodes::<ObjectDecl>(unit.parameters) + nodes::<ObjectDecl>(unit.returns)
            + nodes::<MethodBinding>(unit.methods),
        events: nodes::<ObjectDecl>(unit.events),
    }
}

/// The aliases of the shared namespace: the float and the unsigned integer of
/// the schema, and the two identifiers that are unsigned integers.
pub open spec fn shared_aliases() -> Seq<TypeAliasView> {
    seq![
        TypeAliasView { name: "JsFloat"@, target: TypeExprView::Number },
        TypeAliasView { name: "JsUInt"@, target: TypeExprView::Integer },
        TypeAliasView { name: "WindowId"@, target: TypeExprView::Integer },
        TypeAliasView { name: "CallId"@, target: TypeExprView::Integer },
    ]
}

/// The union variants of all the units, in the order of the units.
pub open spec fn all_union_variants(units: Seq<DomainUnitView>) -> Seq<EventUnionVariantView>
    decreases units.len(),
{
    if units.len() == 0 {
        Seq::empty()
    } else {
        all_union_variants(units.drop_last()) + units.last().union_variants
    }
}

/// The compiled tree of the emission units of all domains: the shared namespace
/// holds the shared aliases and then the union of all events; each domain has
/// its namespace, in the order of the domains.
pub open spec fn tree_of(units: Seq<DomainUnitView>) -> CompiledTreeView {
    CompiledTreeView {
        shared: nodes::<TypeAlias>(shared_aliases()) + nodes::<EventUnionVariant>(
            all_union_variants(units),
        ),
        modules: units.map_values(|u: DomainUnitView| module_of(u)),
    }
}

fn push_nodes<T: Node>(out: &mut Vec<Decl>, items: Vec<T>)
    ensures
        views(final(out)@) == views(old(out)@) + nodes::<T>(views(items@)),
{
    let ghost start = views(out@);
    for item in it: items.into_iter()
        invariant
            views(out@) == start + nodes::<T>(views(it.seq().take(it.index() as int))),
    {
        let ghost taken = it.seq().take(it.index() as int);
        let decl = item.into_decl();
        proof {
            lemma_views_push(out@, decl);
            assert(it.seq().take(it.index() + 1) == taken.push(item));
            assert(nodes::<T>(views(taken.push(item))) == nodes::<T>(views(taken)).push(decl@));
        }
        out.push(decl);
    }
}

/// The namespace of a domain and the variants that it adds to the union of all
/// events.
#[derive(Clone, Debug, PartialEq, Eq)]
pub struct Emitted {
    pub module: DomainModule,
    pub union_variants: Vec<EventUnionVariant>,
}

/// Puts the lists of an emission unit in output order.
pub fn emit_module(unit: DomainUnit) -> (r: Emitted)
    ensures
        r.module@ == module_of(unit@),
        views(r.union_variants@) == unit@.union_variants,
        views(r.module.imports@).no_duplicates(),
{
    let mut decls: Vec<Decl> = Vec::new();
    let mut events: Vec<Decl> = Vec::new();
    assert(views(decls@) =~= Seq::<DeclView>::empty());
    assert(views(events@) =~= Seq::<DeclView>::empty());
    push_nodes(&mut decls, unit.aliases);
    push_nodes(&mut decls, unit.enums);
    push_nodes(&mut decls, unit.objects);
    push_nodes(&mut decls, unit.parameters);
    push_nodes(&mut decls, unit.returns);
    push_nodes(&mut decls, unit.methods);
    push_nodes(&mut events, unit.events);
    let module = DomainModule {
        name: unit.domain,
        imports: unit.imports.into_segments(),
        decls,
        events,
    };
    assert(module@.decls =~= module_of(unit@).decls);
    assert(module@.events =~= module_of(unit@).events);
    Emitted { module, union_variants: unit.union_variants }
}

/// The aliases of the shared namespace.
pub fn shared_types() -> (r: Vec<TypeAlias>)
    ensures
        views(r@) == shared_aliases(),
{
    let mut r: Vec<TypeAlias> = Vec::new();
    r.push(TypeAlias { name: String::from_str("JsFloat"), target: TypeExpr::Number });
    r.push(TypeAlias { name: String::from_str("JsUInt"), target: TypeExpr::Integer });
    r.push(TypeAlias { name: String::from_str("WindowId"), target: TypeExpr::Integer });
    r.push(TypeAlias { name: String::from_str("CallId"), target: TypeExpr::Integer });
    assert(views(r@) =~= shared_aliases());
    r
}

/// Joins the emission units of all domains into the compiled tree.
pub fn assemble(units: Vec<DomainUnit>) -> (r: CompiledTree)
    ensures
        r@ == tree_of(views(units@)),
        forall|i: int|
            0 <= i < r.modules@.len() ==> views(
                (#[trigger] r.modules@[i]).imports@,
            ).no_duplicates(),
{
    let ghost all = views(units@);
    let mut shared: Vec<Decl> = Vec::new();
    assert(views(shared@) =~= Seq::<DeclView>::empty());
    push_nodes(&mut shared, shared_types());
    let mut modules: Vec<DomainModule> = Vec::new();
    let mut variants: Vec<EventUnionVariant> = Vec::new();
    assert(views(variants@) =~= all_union_variants(all.take(0)));
    assert(views(modules@) =~= tree_of(all.take(0)).modules);
    for unit in it: units.into_iter()
        invariant
            all == views(it.seq()),
            it.seq() == units@,
            views(variants@) == all_union_variants(all.take(it.index() as int)),
            views(modules@) == tree_of(all.take(it.index() as int)).modules,
            forall|i: int|
                0 <= i < modules@.len() ==> views(
                    (#[trigger] modules@[i]).imports@,
                ).no_duplicates(),
    {
        let ghost n = it.index() as int;
        let emitted = emit_module(unit);
        let mut added = emitted.union_variants;
        proof {
            assert(all[n] == unit@);
            assert(all.take(n + 1).drop_last() == all.take(n));
            assert(all.take(n + 1).last() == unit@);
            lemma_views_push(modules@, emitted.module);
            assert(tree_of(all.take(n + 1)).modules =~= tree_of(all.take(n)).modules.push(
                module_of(unit@),
            ));
            assert(views(variants@ + added@) =~= views(variants@) + views(added@));
        }
        variants.append(&mut added);
        modules.push(emitted.module);
    }
    assert(all.take(units@.len() as int) == all);
    push_nodes(&mut shared, variants);
    let r = CompiledTree { shared, modules };
    assert(r@.shared =~= tree_of(all).shared);
    r
}

} // verus!
