//! The compiler: the types, commands and events of each domain are compiled
//! into the emission unit of the domain, and the units into the tree.
//!
//! Each step takes the emission unit by value and gives it back with more in
//! it. The first error ends the compilation, and the unit is gone with it:
//! nothing is ever given back half compiled.

use crate::decl::{
    CompiledTree, CompiledTreeView, EventUnionVariant, EventUnionVariantView, FieldDecl,
    FieldDeclView, MethodBinding, MethodBindingView, ObjectDecl, ObjectDeclView, TypeAlias,
    TypeAliasView, TypeExpr, TypeExprView,
};
use crate::emit::{assemble, tree_of};
use crate::error::{Missing, SchemaError, SchemaErrorView, SchemaFault, SchemaFaultView};
use crate::fold::{lemma_try_fold_next, lemma_try_fold_stops, try_fold};
use crate::laws::lemma_compiled_sound;
use crate::naming::{
    event_ident, event_name, event_params_ident, event_params_name, normalize_type,
    parameters_ident, parameters_name, return_object_ident, return_object_name,
    union_variant_ident, union_variant_name, wire_ident, wire_name,
};
use crate::object::{
    declare_object, fields_outcome, locate, located, object_outcome, resolve_fields,
};
use crate::resolve::{
    enum_outcome, in_sequence, items_outcome, primitive_type, resolve_items, tokenize_enum,
    Context, ContextView,
};
use crate::schema::{Command, Domain, Event, Parameter, Protocol, TypeElement, TypeEnum};
use crate::unit::{registered, DomainUnit, DomainUnitView};
use crate::views::{lemma_views_push, result_view, views};
use vstd::prelude::*;
use vstd::string::*;

verus! {

/// The properties of a type element, none where it has no list.
pub open spec fn properties_of(te: TypeElement) -> Seq<Parameter> {
    match te.properties {
        Some(list) => list@,
        None => Seq::empty(),
    }
}

/// The emission unit with one type element compiled into it.
///
/// An object becomes an object declaration with one field for each property,
/// opaque where it has no field. A string with a literal list becomes an
/// enumeration. An array becomes an alias of the sequence of its elements, and
/// anything else an alias of its primitive. The declaration carries the id of
/// the element.
pub open spec fn type_outcome(te: TypeElement, protocol: Protocol, unit: DomainUnitView) -> Result<
    DomainUnitView,
    SchemaErrorView,
> {
    let cx = ContextView { protocol, domain: unit.domain, declaration: te.id@ };
    if te.type_type == TypeEnum::Object {
        match fields_outcome(properties_of(te), protocol, te.id@, unit) {
            Ok(acc) => Ok(
                DomainUnitView {
                    objects: acc.unit.objects.push(
                        ObjectDeclView {
                            name: te.id@,
                            fields: acc.fields,
                            opaque: acc.fields.len() == 0,
                        },
                    ),
                    ..acc.unit
                },
            ),
            Err(e) => Err(e),
        }
    } else if te.type_type == TypeEnum::Array {
        match te.items {
            Some(items) => match in_sequence(items_outcome(items, None, cx, Seq::empty())) {
                Ok(s) => {
                    let noted = unit.importing(s.import).declaring(s.side_enum);
                    Ok(
                        DomainUnitView {
                            aliases: noted.aliases.push(
                                TypeAliasView { name: te.id@, target: s.ty },
                            ),
                            ..noted
                        },
                    )
                },
                Err(fault) => Err(located(cx, None, fault)),
            },
            None => Err(located(cx, None, SchemaFaultView::Shape { missing: Missing::Items })),
        }
    } else if te.type_type == TypeEnum::String && te.type_enum is Some {
        match enum_outcome(te.id@, views(te.type_enum->0@)) {
            Ok(e) => Ok(unit.declaring(Some(e))),
            Err(fault) => Err(located(cx, None, fault)),
        }
    } else {
        Ok(
            DomainUnitView {
                aliases: unit.aliases.push(
                    TypeAliasView { name: te.id@, target: primitive_type(te.type_type)->0 },
                ),
                ..unit
            },
        )
    }
}

/// Compiles one type element into the emission unit.
pub fn get_types(type_element: &TypeElement, protocol: &Protocol, unit: DomainUnit) -> (r: Result<
    DomainUnit,
    SchemaError,
>)
    ensures
        result_view(r) == type_outcome(*type_element, *protocol, unit@),
{
    let name = normalize_type(type_element.id.as_str());
    match type_element.type_type {
        TypeEnum::Object => {
            let none: Vec<Parameter> = Vec::new();
            assert(none@ =~= Seq::empty());
            let properties = match &type_element.properties {
                Some(list) => list,
                None => &none,
            };
            match resolve_fields(properties, protocol, &type_element.id, unit) {
                Ok(acc) => {
                    let mut unit = acc.unit;
                    let opaque = acc.fields.len() == 0;
                    let decl = ObjectDecl { name, fields: acc.fields, opaque };
                    proof {
                        lemma_views_push(unit.objects@, decl);
                    }
                    unit.objects.push(decl);
                    Ok(unit)
                },
                Err(e) => Err(e),
            }
        },
        TypeEnum::Array => {
            let cx = Context { protocol, domain: &unit.domain, declaration: &type_element.id };
            proof {
                reveal_strlit("");
                assert(""@ =~= Seq::<char>::empty());
            }
            match &type_element.items {
                Some(items) => match resolve_items(items, &None, &cx, "") {
                    Ok(s) => {
                        let mut unit = unit.note(s.import, s.side_enum);
                        let alias = TypeAlias { name, target: TypeExpr::Sequence(Box::new(s.ty)) };
                        proof {
                            lemma_views_push(unit.aliases@, alias);
                        }
                        unit.aliases.push(alias);
                        Ok(unit)
                    },
                    Err(fault) => Err(locate(&cx, None, fault)),
                },
                None => Err(locate(&cx, None, SchemaFault::Shape { missing: Missing::Items })),
            }
        },
        t => {
            match (t, &type_element.type_enum) {
                (TypeEnum::String, Some(enum_vec)) => {
                    match tokenize_enum(enum_vec, name) {
                        Ok(e) => Ok(unit.note(None, Some(e))),
                        Err(fault) => {
                            let cx = Context {
                                protocol,
                                domain: &unit.domain,
                                declaration: &type_element.id,
                            };
                            Err(locate(&cx, None, fault))
                        },
                    }
                },
                _ => {
                    let mut unit = unit;
                    match t.primitive() {
                        Some(target) => {
                            let alias = TypeAlias { name, target };
                            proof {
                                lemma_views_push(unit.aliases@, alias);
                            }
                            unit.aliases.push(alias);
                        },
                        None => {},
                    }
                    Ok(unit)
                },
            }
        },
    }
}

/// `type_outcome` as the step of a fold over the type elements of a domain.
pub open spec fn type_step(protocol: Protocol) -> spec_fn(DomainUnitView, TypeElement) -> Result<
    DomainUnitView,
    SchemaErrorView,
> {
    |unit: DomainUnitView, te: TypeElement| type_outcome(te, protocol, unit)
}

/// The emission unit with the parameter declaration of a command added. A
/// command without a parameter list has an opaque declaration without fields.
pub open spec fn parameters_outcome(
    command: Command,
    protocol: Protocol,
    unit: DomainUnitView,
) -> Result<DomainUnitView, SchemaErrorView> {
    match object_outcome(
        parameters_ident(command.name@),
        command.parameters,
        true,
        protocol,
        unit,
    ) {
        Ok(d) => Ok(DomainUnitView { parameters: d.unit.parameters.push(d.decl), ..d.unit }),
        Err(e) => Err(e),
    }
}

/// Declares the parameters of a command in the emission unit.
pub fn get_parameters(command: &Command, protocol: &Protocol, unit: DomainUnit) -> (r: Result<
    DomainUnit,
    SchemaError,
>)
    ensures
        result_view(r) == parameters_outcome(*command, *protocol, unit@),
{
    let name = parameters_name(command.name.as_str());
    match declare_object(name, &command.parameters, true, protocol, unit) {
        Ok(d) => {
            let mut unit = d.unit;
            proof {
                lemma_views_push(unit.parameters@, d.decl);
            }
            unit.parameters.push(d.decl);
            Ok(unit)
        },
        Err(e) => Err(e),
    }
}

/// The binding of a command of a domain.
pub open spec fn binding(domain: Seq<char>, command: Seq<char>) -> MethodBindingView {
    MethodBindingView {
        name: wire_ident(domain, command),
        parameter: parameters_ident(command),
        return_object: return_object_ident(command),
    }
}

/// The emission unit with one command compiled into it: its return declaration,
/// which has no field where the command has no return list, then its parameter
/// declaration, then its binding.
pub open spec fn command_outcome(
    command: Command,
    protocol: Protocol,
    unit: DomainUnitView,
) -> Result<DomainUnitView, SchemaErrorView> {
    match object_outcome(
        return_object_ident(command.name@),
        command.returns,
        false,
        protocol,
        unit,
    ) {
        Ok(d) => match parameters_outcome(
            command,
            protocol,
            DomainUnitView { returns: d.unit.returns.push(d.decl), ..d.unit },
        ) {
            Ok(u) => Ok(
                DomainUnitView { methods: u.methods.push(binding(u.domain, command.name@)), ..u },
            ),
            Err(e) => Err(e),
        },
        Err(e) => Err(e),
    }
}

/// `command_outcome` as the step of a fold over the commands of a domain.
pub open spec fn command_step(protocol: Protocol) -> spec_fn(DomainUnitView, Command) -> Result<
    DomainUnitView,
    SchemaErrorView,
> {
    |unit: DomainUnitView, command: Command| command_outcome(command, protocol, unit)
}

/// The emission unit with the commands compiled into it, in order, or the first
/// error.
pub open spec fn commands_outcome(
    commands: Seq<Command>,
    protocol: Protocol,
    unit: DomainUnitView,
) -> Result<DomainUnitView, SchemaErrorView> {
    try_fold(commands, unit, command_step(protocol))
}

fn compile_command(command: &Command, protocol: &Protocol, unit: DomainUnit) -> (r: Result<
    DomainUnit,
    SchemaError,
>)
    ensures
        result_view(r) == command_outcome(*command, *protocol, unit@),
{
    let name = return_object_name(command.name.as_str());
    match declare_object(name, &command.returns, false, protocol, unit) {
        Ok(d) => {
            let mut unit = d.unit;
            proof {
                lemma_views_push(unit.returns@, d.decl);
            }
            unit.returns.push(d.decl);
            match get_parameters(command, protocol, unit) {
                Ok(u) => {
                    let mut unit = u;
                    let method = MethodBinding {
                        name: wire_name(unit.domain.as_str(), command.name.as_str()),
                        parameter: parameters_name(command.name.as_str()),
                        return_object: return_object_name(command.name.as_str()),
                    };
                    proof {
                        lemma_views_push(unit.methods@, method);
                    }
                    unit.methods.push(method);
                    Ok(unit)
                },
                Err(e) => Err(e),
            }
        },
        Err(e) => Err(e),
    }
}

/// Compiles the commands of a domain into the emission unit, in order.
pub fn get_commands(commands: &Vec<Command>, protocol: &Protocol, unit: DomainUnit) -> (r: Result<
    DomainUnit,
    SchemaError,
>)
    ensures
        result_view(r) == commands_outcome(commands@, *protocol, unit@),
{
    let ghost step = command_step(*protocol);
    let ghost init = unit@;
    let mut current = unit;
    let mut i: usize = 0;
    while i < commands.len()
        invariant
            i <= commands.len(),
            step == command_step(*protocol),
            init == unit@,
            try_fold(commands@.take(i as int), init, step) == Ok::<
                DomainUnitView,
                SchemaErrorView,
            >(current@),
        decreases commands.len() - i,
    {
        proof {
            lemma_try_fold_next(commands@, i as int, init, step);
        }
        match compile_command(&commands[i], protocol, current) {
            Ok(u) => {
                current = u;
            },
            Err(e) => {
                proof {
                    lemma_try_fold_stops(commands@, i + 1, init, step);
                }
                return Err(e);
            },
        }
        i += 1;
    }
    assert(commands@.take(i as int) == commands@);
    Ok(current)
}

/// The envelope declaration of an event: one field, `params`, of the type that
/// holds the parameters of the event.
pub open spec fn envelope(event: Seq<char>) -> ObjectDeclView {
    ObjectDeclView {
        name: event_ident(event),
        fields: seq![
            FieldDeclView {
                name: "params"@,
                wire_name: "params"@,
                ty: TypeExprView::Named { domain: None, name: event_params_ident(event) },
                omit_if_absent: false,
                default_if_absent: false,
            },
        ],
        opaque: false,
    }
}

/// The variant that an event of a domain adds to the union of all events.
pub open spec fn union_variant(domain: Seq<char>, event: Seq<char>) -> EventUnionVariantView {
    EventUnionVariantView {
        name: union_variant_ident(domain, event),
        tag: wire_ident(domain, event),
        domain,
        payload: event_ident(event),
    }
}

/// The emission unit with one event compiled into it: its envelope and the
/// declaration of its parameters, which is opaque where the event has no
/// parameter list, and its variant of the union of all events.
pub open spec fn event_outcome(event: Event, protocol: Protocol, unit: DomainUnitView) -> Result<
    DomainUnitView,
    SchemaErrorView,
> {
    match object_outcome(event_params_ident(event.name@), event.parameters, true, protocol, unit) {
        Ok(d) => Ok(
            DomainUnitView {
                events: d.unit.events.push(envelope(event.name@)).push(d.decl),
                union_variants: d.unit.union_variants.push(
                    union_variant(d.unit.domain, event.name@),
                ),
                ..d.unit
            },
        ),
        Err(e) => Err(e),
    }
}

/// `event_outcome` as the step of a fold over the events of a domain.
pub open spec fn event_step(protocol: Protocol) -> spec_fn(DomainUnitView, Event) -> Result<
    DomainUnitView,
    SchemaErrorView,
> {
    |unit: DomainUnitView, event: Event| event_outcome(event, protocol, unit)
}

/// Compiles one event into the emission unit.
pub fn get_events(event: &Event, protocol: &Protocol, unit: DomainUnit) -> (r: Result<
    DomainUnit,
    SchemaError,
>)
    ensures
        result_view(r) == event_outcome(*event, *protocol, unit@),
{
    let inner_name = event_params_name(event.name.as_str());
    match declare_object(inner_name, &event.parameters, true, protocol, unit) {
        Ok(d) => {
            let mut unit = d.unit;
            let mut fields: Vec<FieldDecl> = Vec::new();
            fields.push(
                FieldDecl {
                    name: String::from_str("params"),
                    wire_name: String::from_str("params"),
                    ty: TypeExpr::Named { domain: None, name: d.decl.name.clone() },
                    omit_if_absent: false,
                    default_if_absent: false,
                },
            );
            let outer = ObjectDecl { name: event_name(event.name.as_str()), fields, opaque: false };
            let variant = EventUnionVariant {
                name: union_variant_name(unit.domain.as_str(), event.name.as_str()),
                tag: wire_name(unit.domain.as_str(), event.name.as_str()),
                domain: unit.domain.clone(),
                payload: event_name(event.name.as_str()),
            };
            proof {
                assert(outer@.fields =~= envelope(event.name@).fields);
                lemma_views_push(unit.events@, outer);
                lemma_views_push(unit.events@.push(outer), d.decl);
                lemma_views_push(unit.union_variants@, variant);
            }
            unit.events.push(outer);
            unit.events.push(d.decl);
            unit.union_variants.push(variant);
            Ok(unit)
        },
        Err(e) => Err(e),
    }
}

/// `imports` with every segment of `segments` registered, in order.
pub open spec fn registered_all(imports: Seq<Seq<char>>, segments: Seq<Seq<char>>) -> Seq<
    Seq<char>,
>
    decreases segments.len(),
{
    if segments.len() == 0 {
        imports
    } else {
        registered(registered_all(imports, segments.drop_last()), segments.last())
    }
}

/// The type elements of a domain, none where it has no list.
pub open spec fn types_of(domain: Domain) -> Seq<TypeElement> {
    match domain.types {
        Some(list) => list@,
        None => Seq::empty(),
    }
}

/// The events of a domain, none where it has no list.
pub open spec fn events_of(domain: Domain) -> Seq<Event> {
    match domain.events {
        Some(list) => list@,
        None => Seq::empty(),
    }
}

/// The domains that a domain says it depends on, none where it has no list.
pub open spec fn dependencies_of(domain: Domain) -> Seq<Seq<char>> {
    match domain.dependencies {
        Some(list) => views(list@),
        None => Seq::empty(),
    }
}

/// The emission unit of a domain before its declarations are compiled: empty
/// but for the imports of the domains it says it depends on.
pub open spec fn domain_start(domain: Domain) -> DomainUnitView {
    DomainUnitView {
        imports: registered_all(Seq::empty(), dependencies_of(domain)),
        ..DomainUnitView::empty(domain.domain@)
    }
}

/// The emission unit of a domain: its stated dependencies, then its types, its
/// commands and its events, each in order, or the first error.
pub open spec fn domain_outcome(domain: Domain, protocol: Protocol) -> Result<
    DomainUnitView,
    SchemaErrorView,
> {
    match try_fold(types_of(domain), domain_start(domain), type_step(protocol)) {
        Ok(typed) => match commands_outcome(domain.commands@, protocol, typed) {
            Ok(commanded) => try_fold(events_of(domain), commanded, event_step(protocol)),
            Err(e) => Err(e),
        },
        Err(e) => Err(e),
    }
}

fn start_domain(domain: &Domain) -> (r: DomainUnit)
    ensures
        r@ == domain_start(*domain),
{
    let mut unit = DomainUnit::new(domain.domain.clone());
    match &domain.dependencies {
        Some(list) => {
            let ghost segments = views(list@);
            let mut i: usize = 0;
            assert(segments.take(0) =~= Seq::empty());
            while i < list.len()
                invariant
                    i <= list.len(),
                    segments == views(list@),
                    unit@ == (DomainUnitView {
                        imports: registered_all(Seq::empty(), segments.take(i as int)),
                        ..DomainUnitView::empty(domain.domain@)
                    }),
                decreases list.len() - i,
            {
                proof {
                    assert(segments.take(i + 1).drop_last() == segments.take(i as int));
                    assert(segments.take(i + 1).last() == list@[i as int]@);
                }
                unit.imports = unit.imports.register(list[i].clone());
                i += 1;
            }
            assert(segments.take(i as int) == segments);
        },
        None => {},
    }
    unit
}

fn compile_types(types: &Vec<TypeElement>, protocol: &Protocol, unit: DomainUnit) -> (r: Result<
    DomainUnit,
    SchemaError,
>)
    ensures
        result_view(r) == try_fold(types@, unit@, type_step(*protocol)),
{
    let ghost step = type_step(*protocol);
    let ghost init = unit@;
    let mut current = unit;
    let mut i: usize = 0;
    while i < types.len()
        invariant
            i <= types.len(),
            step == type_step(*protocol),
            init == unit@,
            try_fold(types@.take(i as int), init, step) == Ok::<DomainUnitView, SchemaErrorView>(
                current@,
            ),
        decreases types.len() - i,
    {
        proof {
            lemma_try_fold_next(types@, i as int, init, step);
        }
        match get_types(&types[i], protocol, current) {
            Ok(u) => {
                current = u;
            },
            Err(e) => {
                proof {
                    lemma_try_fold_stops(types@, i + 1, init, step);
                }
                return Err(e);
            },
        }
        i += 1;
    }
    assert(types@.take(i as int) == types@);
    Ok(current)
}

fn compile_events(events: &Vec<Event>, protocol: &Protocol, unit: DomainUnit) -> (r: Result<
    DomainUnit,
    SchemaError,
>)
    ensures
        result_view(r) == try_fold(events@, unit@, event_step(*protocol)),
{
    let ghost step = event_step(*protocol);
    let ghost init = unit@;
    let mut current = unit;
    let mut i: usize = 0;
    while i < events.len()
        invariant
            i <= events.len(),
            step == event_step(*protocol),
            init == unit@,
            try_fold(events@.take(i as int), init, step) == Ok::<DomainUnitView, SchemaErrorView>(
                current@,
            ),
        decreases events.len() - i,
    {
        proof {
            lemma_try_fold_next(events@, i as int, init, step);
        }
        match get_events(&events[i], protocol, current) {
            Ok(u) => {
                current = u;
            },
            Err(e) => {
                proof {
                    lemma_try_fold_stops(events@, i + 1, init, step);
                }
                return Err(e);
            },
        }
        i += 1;
    }
    assert(events@.take(i as int) == events@);
    Ok(current)
}

/// Compiles one domain of the schema into its emission unit.
pub fn compile_domain(domain: &Domain, protocol: &Protocol) -> (r: Result<DomainUnit, SchemaError>)
    ensures
        result_view(r) == domain_outcome(*domain, *protocol),
{
    let unit = start_domain(domain);
    let typed = match &domain.types {
        Some(list) => compile_types(list, protocol, unit),
        None => Ok(unit),
    };
    match typed {
        Ok(unit) => match get_commands(&domain.commands, protocol, unit) {
            Ok(unit) => match &domain.events {
                Some(list) => compile_events(list, protocol, unit),
                None => Ok(unit),
            },
            Err(e) => Err(e),
        },
        Err(e) => Err(e),
    }
}

/// One more domain compiled into its emission unit.
pub open spec fn add_domain(
    units: Seq<DomainUnitView>,
    domain: Domain,
    protocol: Protocol,
) -> Result<Seq<DomainUnitView>, SchemaErrorView> {
    match domain_outcome(domain, protocol) {
        Ok(unit) => Ok(units.push(unit)),
        Err(e) => Err(e),
    }
}

/// `add_domain` as the step of a fold over the domains of a schema.
pub open spec fn domain_step(protocol: Protocol) -> spec_fn(Seq<DomainUnitView>, Domain) -> Result<
    Seq<DomainUnitView>,
    SchemaErrorView,
> {
    |units: Seq<DomainUnitView>, domain: Domain| add_domain(units, domain, protocol)
}

/// The emission units of all the domains of a schema, in order, or the first error.
pub open spec fn units_outcome(protocol: Protocol) -> Result<
    Seq<DomainUnitView>,
    SchemaErrorView,
> {
    try_fold(protocol.domains@, Seq::empty(), domain_step(protocol))
}

/// The compiled tree of a schema, or the first error met when the domains are
/// compiled in order.
pub open spec fn compiled(protocol: Protocol) -> Result<CompiledTreeView, SchemaErrorView> {
    match units_outcome(protocol) {
        Ok(units) => Ok(tree_of(units)),
        Err(e) => Err(e),
    }
}

/// Compiles a schema into its declaration tree. The domains are compiled in
/// order, each against the whole schema; the first error ends the compilation
/// and nothing of the tree is returned.
pub fn compile_cdp_json(protocol: &Protocol) -> (r: Result<CompiledTree, SchemaError>)
    ensures
        result_view(r) == compiled(*protocol),
        r matches Ok(tree) ==> tree@.wf(),
{
    proof {
        lemma_compiled_sound(*protocol);
    }
    let ghost step = domain_step(*protocol);
    let ghost init = Seq::<DomainUnitView>::empty();
    let mut units: Vec<DomainUnit> = Vec::new();
    let mut i: usize = 0;
    assert(views(units@) =~= init);
    while i < protocol.domains.len()
        invariant
            i <= protocol.domains.len(),
            step == domain_step(*protocol),
            init == Seq::<DomainUnitView>::empty(),
            try_fold(protocol.domains@.take(i as int), init, step) == Ok::<
                Seq<DomainUnitView>,
                SchemaErrorView,
            >(views(units@)),
        decreases protocol.domains.len() - i,
    {
        proof {
            lemma_try_fold_next(protocol.domains@, i as int, init, step);
        }
        match compile_domain(&protocol.domains[i], protocol) {
            Ok(unit) => {
                proof {
                    lemma_views_push(units@, unit);
                }
                units.push(unit);
            },
            Err(e) => {
                proof {
                    lemma_try_fold_stops(protocol.domains@, i + 1, init, step);
                }
                return Err(e);
            },
        }
        i += 1;
    }
    assert(protocol.domains@.take(i as int) == protocol.domains@);
    Ok(assemble(units))
}

} // verus!
