//! What holds of every schema and of everything compiled from it.

use crate::compile::{
    binding, command_outcome, command_step, commands_outcome, compiled, dependencies_of,
    domain_outcome, domain_start, domain_step, envelope, event_outcome, event_step, events_of,
    parameters_outcome, properties_of, registered_all, type_outcome, type_step, types_of,
    union_variant, units_outcome,
};
use crate::decl::{DeclView, TypeExprView};
use crate::emit::{module_of, tree_of};
use crate::fold::{lemma_try_fold_keeps, lemma_try_fold_same_steps, try_fold};
use crate::naming::{
    enum_name, event_ident, event_params_ident, field_ident, parameters_ident, ref_domain,
    ref_is_qualified, return_object_ident, wire_ident,
};
use crate::object::{add_field, field_step, fields_outcome, object_outcome, FieldsView};
use crate::resolve::{
    field_outcome, in_sequence, items_outcome, literals_view, ref_outcome, ref_type,
    ContextView,
};
use crate::schema::{
    declares, domain_declares, Command, Domain, Event, Items, Parameter, Protocol, TypeElement,
    TypeEnum,
};
use crate::unit::{lemma_registered_once, DomainUnitView};
use vstd::prelude::*;

verus! {

/// The name of the enumeration of a field is never the name of the declaration
/// that encloses the field.
pub proof fn lemma_enum_name_is_new(scope: Seq<char>, ident: Seq<char>)
    ensures
        enum_name(scope, ident) != scope,
{
    reveal_strlit("Option");
    assert(enum_name(scope, ident).len() == scope.len() + ident.len() + 6);
}

/// The parameter declaration and the return declaration of a command have
/// different names, and so have the envelope of an event and the declaration
/// of its parameters.
pub proof fn lemma_declaration_names_differ(name: Seq<char>)
    ensures
        parameters_ident(name) != return_object_ident(name),
        event_ident(name) != event_params_ident(name),
{
    reveal_strlit("Parameters");
    reveal_strlit("ReturnObject");
    reveal_strlit("Params");
    let p = parameters_ident(name);
    let r = return_object_ident(name);
    assert(p.len() == name.len() + 10);
    assert(r.len() == name.len() + 12);
    assert(event_params_ident(name).len() == event_ident(name).len() + 6);
}

/// A reference imports the domain that it names exactly where it is qualified;
/// a bare reference imports nothing, and no reference declares anything.
pub proof fn lemma_reference_imports_its_domain(cx: ContextView, reference: Seq<char>)
    ensures
        ref_outcome(cx, reference) matches Ok(s) ==> {
            &&& s.import is Some <==> ref_is_qualified(reference)
            &&& s.import is Some ==> s.import->0 == ref_domain(reference)
            &&& s.side_enum is None
            &&& s.ty == ref_type(reference)
        },
{
}

/// A property that refers to the declaration that encloses it resolves to a
/// field behind an owning indirection, inside the optional wrapper where the
/// property is optional.
pub proof fn lemma_self_reference_is_boxed(p: Parameter, cx: ContextView)
    requires
        p.parameter_type is None,
        p.parameter_ref matches Some(reference) && reference@ == cx.declaration,
        field_outcome(p, cx) is Ok,
    ensures
        ({
            let ty = field_outcome(p, cx)->Ok_0.field.ty;
            let boxed = TypeExprView::Boxed(Box::new(ref_type(cx.declaration)));
            ty == if p.optional {
                TypeExprView::Optional(Box::new(boxed))
            } else {
                boxed
            }
        }),
{
}

/// Every field that a property resolves to is sound in the declaration that
/// encloses it: it holds no value of that declaration in place, it is left out
/// of the output when absent exactly where the property is optional, which is
/// where its type is optional, and it carries the name of the property as
/// written.
pub proof fn lemma_field_sound(p: Parameter, cx: ContextView)
    ensures
        field_outcome(p, cx) matches Ok(f) ==> {
            &&& f.field.wf(cx.declaration)
            &&& f.field.omit_if_absent == p.optional
            &&& f.field.wire_name == p.name@
        },
{
    let ident = field_ident(p.name@);
    lemma_enum_name_is_new(cx.declaration, ident);
    reveal_with_fuel(TypeExprView::embeds, 2);
}

/// The fields so far are sound in `declaration`, and the unit is sound.
pub open spec fn fields_wf(acc: FieldsView, declaration: Seq<char>) -> bool {
    &&& acc.unit.wf()
    &&& forall|i: int| 0 <= i < acc.fields.len() ==> (#[trigger] acc.fields[i]).wf(declaration)
}

proof fn lemma_add_field_sound(
    acc: FieldsView,
    p: Parameter,
    protocol: Protocol,
    declaration: Seq<char>,
)
    requires
        fields_wf(acc, declaration),
    ensures
        add_field(acc, p, protocol, declaration) matches Ok(next) ==> fields_wf(next, declaration),
{
    let cx = ContextView { protocol, domain: acc.unit.domain, declaration };
    lemma_field_sound(p, cx);
    if let Ok(f) = field_outcome(p, cx) {
        if let Some(segment) = f.import {
            lemma_registered_once(acc.unit.imports, segment);
        }
    }
}

/// The fields of a property list are sound in their declaration, and resolving
/// them keeps a sound unit sound.
pub proof fn lemma_fields_sound(
    params: Seq<Parameter>,
    protocol: Protocol,
    declaration: Seq<char>,
    unit: DomainUnitView,
)
    requires
        unit.wf(),
    ensures
        fields_outcome(params, protocol, declaration, unit) matches Ok(acc) ==> fields_wf(
            acc,
            declaration,
        ),
{
    let step = field_step(protocol, declaration);
    let inv = |acc: FieldsView| fields_wf(acc, declaration);
    assert forall|acc: FieldsView, p: Parameter|
        inv(acc) && (#[trigger] step(acc, p)) is Ok implies inv(step(acc, p)->Ok_0) by {
        lemma_add_field_sound(acc, p, protocol, declaration);
    }
    lemma_try_fold_keeps(params, FieldsView { fields: Seq::empty(), unit }, step, inv);
}

/// The declaration of a property list is sound, and declaring it keeps a sound
/// unit sound.
pub proof fn lemma_object_sound(
    name: Seq<char>,
    params: Option<Vec<Parameter>>,
    absent_is_opaque: bool,
    protocol: Protocol,
    unit: DomainUnitView,
)
    requires
        unit.wf(),
    ensures
        object_outcome(name, params, absent_is_opaque, protocol, unit) matches Ok(d) ==> d.decl.wf()
            && d.unit.wf(),
{
    if let Some(list) = params {
        lemma_fields_sound(list@, protocol, name, unit);
    }
}

/// Compiling a type element keeps a sound unit sound.
pub proof fn lemma_type_sound(te: TypeElement, protocol: Protocol, unit: DomainUnitView)
    requires
        unit.wf(),
    ensures
        type_outcome(te, protocol, unit) matches Ok(next) ==> next.wf(),
{
    let cx = ContextView { protocol, domain: unit.domain, declaration: te.id@ };
    if te.type_type == TypeEnum::Object {
        lemma_fields_sound(properties_of(te), protocol, te.id@, unit);
    } else if te.type_type == TypeEnum::Array {
        if let Some(items) = te.items {
            if let Ok(s) = in_sequence(items_outcome(items, None, cx, Seq::empty())) {
                if let Some(segment) = s.import {
                    lemma_registered_once(unit.imports, segment);
                }
            }
        }
    }
}

/// Compiling a command keeps a sound unit sound.
pub proof fn lemma_command_sound(command: Command, protocol: Protocol, unit: DomainUnitView)
    requires
        unit.wf(),
    ensures
        command_outcome(command, protocol, unit) matches Ok(next) ==> next.wf(),
{
    let name = return_object_ident(command.name@);
    lemma_object_sound(name, command.returns, false, protocol, unit);
    if let Ok(d) = object_outcome(name, command.returns, false, protocol, unit) {
        let returned = DomainUnitView { returns: d.unit.returns.push(d.decl), ..d.unit };
        assert(returned.wf());
        lemma_object_sound(
            parameters_ident(command.name@),
            command.parameters,
            true,
            protocol,
            returned,
        );
    }
}

/// The envelope of an event never holds itself: its one field names the
/// declaration of the parameters, which has another name.
pub proof fn lemma_envelope_sound(event: Seq<char>)
    ensures
        envelope(event).wf(),
{
    reveal_strlit("Params");
    assert(event_params_ident(event).len() == event_ident(event).len() + 6);
    assert(envelope(event).fields[0].wf(event_ident(event)));
}

/// Compiling an event keeps a sound unit sound.
pub proof fn lemma_event_sound(event: Event, protocol: Protocol, unit: DomainUnitView)
    requires
        unit.wf(),
    ensures
        event_outcome(event, protocol, unit) matches Ok(next) ==> next.wf(),
{
    lemma_object_sound(event_params_ident(event.name@), event.parameters, true, protocol, unit);
    lemma_envelope_sound(event.name@);
}

/// Registering a list of segments one by one gives a list without duplicates.
pub proof fn lemma_registered_all_once(imports: Seq<Seq<char>>, segments: Seq<Seq<char>>)
    requires
        imports.no_duplicates(),
    ensures
        registered_all(imports, segments).no_duplicates(),
    decreases segments.len(),
{
    if segments.len() > 0 {
        lemma_registered_all_once(imports, segments.drop_last());
        lemma_registered_once(registered_all(imports, segments.drop_last()), segments.last());
    }
}

/// The emission unit of a domain is sound.
pub proof fn lemma_domain_sound(domain: Domain, protocol: Protocol)
    ensures
        domain_outcome(domain, protocol) matches Ok(unit) ==> unit.wf(),
{
    let inv = |unit: DomainUnitView| unit.wf();
    let start = domain_start(domain);
    lemma_registered_all_once(Seq::empty(), dependencies_of(domain));
    assert(start.wf());
    let types = type_step(protocol);
    assert forall|unit: DomainUnitView, te: TypeElement| inv(unit) && (#[trigger] types(unit, te))
        is Ok implies inv(types(unit, te)->Ok_0) by {
        lemma_type_sound(te, protocol, unit);
    }
    lemma_try_fold_keeps(types_of(domain), start, types, inv);
    if let Ok(typed) = try_fold(types_of(domain), start, types) {
        let commands = command_step(protocol);
        assert forall|unit: DomainUnitView, command: Command| inv(unit) && (#[trigger] commands(
            unit,
            command,
        )) is Ok implies inv(commands(unit, command)->Ok_0) by {
            lemma_command_sound(command, protocol, unit);
        }
        lemma_try_fold_keeps(domain.commands@, typed, commands, inv);
        if let Ok(commanded) = commands_outcome(domain.commands@, protocol, typed) {
            let events = event_step(protocol);
            assert forall|unit: DomainUnitView, event: Event| inv(unit) && (#[trigger] events(
                unit,
                event,
            )) is Ok implies inv(events(unit, event)->Ok_0) by {
                lemma_event_sound(event, protocol, unit);
            }
            lemma_try_fold_keeps(events_of(domain), commanded, events, inv);
        }
    }
}

/// The namespace of a sound unit is sound.
pub proof fn lemma_module_sound(unit: DomainUnitView)
    requires
        unit.wf(),
    ensures
        module_of(unit).wf(),
{
    let m = module_of(unit);
    assert forall|i: int| 0 <= i < m.decls.len() implies (#[trigger] m.decls[i]).wf() by {
        let a = unit.aliases.len();
        let e = a + unit.enums.len();
        let o = e + unit.objects.len();
        let p = o + unit.parameters.len();
        let r = p + unit.returns.len();
        if i < a {
        } else if i < e {
        } else if i < o {
            assert(m.decls[i] == DeclView::Object(unit.objects[i - e]));
        } else if i < p {
            assert(m.decls[i] == DeclView::Object(unit.parameters[i - o]));
        } else if i < r {
            assert(m.decls[i] == DeclView::Object(unit.returns[i - p]));
        } else {
        }
    }
    assert forall|i: int| 0 <= i < m.events.len() implies (#[trigger] m.events[i]).wf() by {
        assert(m.events[i] == DeclView::Object(unit.events[i]));
    }
}

/// Every tree compiled from a schema is sound. In each namespace no domain is
/// imported twice. Every object declaration has a finite size: no field holds
/// a value of its own declaration in place. A field is left out of the output
/// when absent exactly where its type is optional.
pub proof fn lemma_compiled_sound(protocol: Protocol)
    ensures
        compiled(protocol) matches Ok(tree) ==> tree.wf(),
{
    let step = domain_step(protocol);
    let inv = |units: Seq<DomainUnitView>|
        forall|i: int| 0 <= i < units.len() ==> (#[trigger] units[i]).wf();
    assert forall|units: Seq<DomainUnitView>, domain: Domain| inv(units) && (#[trigger] step(
        units,
        domain,
    )) is Ok implies inv(step(units, domain)->Ok_0) by {
        lemma_domain_sound(domain, protocol);
    }
    lemma_try_fold_keeps(protocol.domains@, Seq::empty(), step, inv);
    if let Ok(units) = units_outcome(protocol) {
        let tree = tree_of(units);
        assert forall|i: int| 0 <= i < tree.modules.len() implies (#[trigger] tree.modules[i]).wf(
        ) by {
            lemma_module_sound(units[i]);
        }
    }
}

/// The unit `after` differs from `before` in its imports and enumerations at most.
pub open spec fn same_declarations(before: DomainUnitView, after: DomainUnitView) -> bool {
    after == (DomainUnitView { imports: after.imports, enums: after.enums, ..before })
}

/// Resolving the fields of a property list changes nothing of the unit but its
/// imports and its enumerations, and gives one field for each property.
pub proof fn lemma_fields_frame(
    params: Seq<Parameter>,
    protocol: Protocol,
    declaration: Seq<char>,
    unit: DomainUnitView,
)
    ensures
        fields_outcome(params, protocol, declaration, unit) matches Ok(acc) ==> same_declarations(
            unit,
            acc.unit,
        ) && acc.fields.len() == params.len(),
    decreases params.len(),
{
    if params.len() > 0 {
        lemma_fields_frame(params.drop_last(), protocol, declaration, unit);
    }
}

/// A command always has its parameter declaration, under the name made from
/// the name of the command: compiling the parameters adds exactly one
/// declaration and changes none that was there, nor anything else of the unit
/// but its imports and its enumerations. Where the command has no
/// parameter, whether it has no list or an empty one, compiling cannot fail and
/// the declaration has no field.
pub proof fn lemma_parameters_always_declared(
    command: Command,
    protocol: Protocol,
    unit: DomainUnitView,
)
    ensures
        parameters_outcome(command, protocol, unit) matches Ok(next) ==> {
            &&& next.parameters.len() == unit.parameters.len() + 1
            &&& next.parameters.drop_last() == unit.parameters
            &&& next.parameters.last().name == parameters_ident(command.name@)
            &&& same_declarations(unit, DomainUnitView { parameters: unit.parameters, ..next })
        },
        command.parameters is None || command.parameters->0@.len() == 0 ==> {
            &&& parameters_outcome(command, protocol, unit) matches Ok(next)
            &&& next.parameters.last().fields.len() == 0
            &&& next.parameters.last().opaque == (command.parameters is None)
        },
{
    if let Some(list) = command.parameters {
        lemma_fields_frame(list@, protocol, parameters_ident(command.name@), unit);
    }
    if let Ok(next) = parameters_outcome(command, protocol, unit) {
        assert(next.parameters.drop_last() =~= unit.parameters);
    }
}

/// An event always has its envelope and the declaration of its parameters, in
/// that order, and its variant of the union of all events: compiling the event
/// adds them at the end of their lists and changes none that was there. The
/// variant is tagged with the name of the event on the wire and carries the
/// envelope. Where the event has no parameter list, compiling cannot fail and
/// the declaration of the parameters is opaque.
pub proof fn lemma_event_always_declared(event: Event, protocol: Protocol, unit: DomainUnitView)
    ensures
        event_outcome(event, protocol, unit) matches Ok(next) ==> {
            &&& next.events.len() == unit.events.len() + 2
            &&& next.events.take(unit.events.len() as int) == unit.events
            &&& next.events[unit.events.len() as int] == envelope(event.name@)
            &&& next.events.last().name == event_params_ident(event.name@)
            &&& next.union_variants == unit.union_variants.push(
                union_variant(unit.domain, event.name@),
            )
            &&& union_variant(unit.domain, event.name@).tag == wire_ident(unit.domain, event.name@)
            &&& union_variant(unit.domain, event.name@).payload == envelope(event.name@).name
        },
        event.parameters is None ==> {
            &&& event_outcome(event, protocol, unit) matches Ok(next)
            &&& next.events.last().opaque
            &&& next.events.last().fields.len() == 0
        },
{
    if let Some(list) = event.parameters {
        lemma_fields_frame(list@, protocol, event_params_ident(event.name@), unit);
    }
    if let Ok(next) = event_outcome(event, protocol, unit) {
        assert(next.events.take(unit.events.len() as int) =~= unit.events);
    }
}

/// Compiling a command adds its return declaration, its parameter declaration
/// and its binding at the end of their lists, each under the name made from
/// the name of the command, and changes none that was there.
pub proof fn lemma_command_always_declared(
    command: Command,
    protocol: Protocol,
    unit: DomainUnitView,
)
    ensures
        command_outcome(command, protocol, unit) matches Ok(next) ==> {
            &&& next.parameters.drop_last() == unit.parameters
            &&& next.returns.drop_last() == unit.returns
            &&& next.methods.drop_last() == unit.methods
            &&& next.parameters.len() == unit.parameters.len() + 1
            &&& next.returns.len() == unit.returns.len() + 1
            &&& next.methods.len() == unit.methods.len() + 1
            &&& next.parameters.last().name == parameters_ident(command.name@)
            &&& next.returns.last().name == return_object_ident(command.name@)
            &&& next.methods.last() == binding(unit.domain, command.name@)
            &&& next.domain == unit.domain
        },
{
    let name = return_object_ident(command.name@);
    if let Some(list) = command.returns {
        lemma_fields_frame(list@, protocol, name, unit);
    }
    if let Ok(d) = object_outcome(name, command.returns, false, protocol, unit) {
        let returned = DomainUnitView { returns: d.unit.returns.push(d.decl), ..d.unit };
        lemma_parameters_always_declared(command, protocol, returned);
        if let Ok(next) = command_outcome(command, protocol, unit) {
            assert(next.returns.drop_last() =~= unit.returns);
            assert(next.methods.drop_last() =~= unit.methods);
        }
    }
}

/// Every command of a list has its parameter declaration, its return
/// declaration and its binding: compiling the commands adds one of each for
/// each command, in the order of the commands, and changes none that was there.
pub proof fn lemma_commands_always_declared(
    commands: Seq<Command>,
    protocol: Protocol,
    unit: DomainUnitView,
)
    ensures
        commands_outcome(commands, protocol, unit) matches Ok(next) ==> {
            &&& next.domain == unit.domain
            &&& next.parameters.len() == unit.parameters.len() + commands.len()
            &&& next.returns.len() == unit.returns.len() + commands.len()
            &&& next.methods.len() == unit.methods.len() + commands.len()
            &&& next.parameters.take(unit.parameters.len() as int) == unit.parameters
            &&& next.returns.take(unit.returns.len() as int) == unit.returns
            &&& next.methods.take(unit.methods.len() as int) == unit.methods
            &&& forall|i: int|
                0 <= i < commands.len() ==> {
                    &&& (#[trigger] next.parameters[unit.parameters.len() + i]).name
                        == parameters_ident(commands[i].name@)
                    &&& next.returns[unit.returns.len() + i].name == return_object_ident(
                        commands[i].name@,
                    )
                    &&& next.methods[unit.methods.len() + i] == binding(
                        unit.domain,
                        commands[i].name@,
                    )
                }
        },
    decreases commands.len(),
{
    if let Ok(next) = commands_outcome(commands, protocol, unit) {
        if commands.len() == 0 {
            assert(next.parameters.take(unit.parameters.len() as int) =~= unit.parameters);
            assert(next.returns.take(unit.returns.len() as int) =~= unit.returns);
            assert(next.methods.take(unit.methods.len() as int) =~= unit.methods);
        } else {
            let before = commands.drop_last();
            let command = commands.last();
            lemma_commands_always_declared(before, protocol, unit);
            let mid = commands_outcome(before, protocol, unit)->Ok_0;
            assert(command_step(protocol)(mid, command) == command_outcome(command, protocol, mid));
            lemma_command_always_declared(command, protocol, mid);
            let p = unit.parameters.len() as int;
            let r = unit.returns.len() as int;
            let m = unit.methods.len() as int;
            assert(next.parameters.take(p) =~= mid.parameters.take(p)) by {
                assert(next.parameters.drop_last() == mid.parameters);
            }
            assert(next.returns.take(r) =~= mid.returns.take(r)) by {
                assert(next.returns.drop_last() == mid.returns);
            }
            assert(next.methods.take(m) =~= mid.methods.take(m)) by {
                assert(next.methods.drop_last() == mid.methods);
            }
            assert forall|i: int| 0 <= i < commands.len() implies {
                &&& (#[trigger] next.parameters[p + i]).name == parameters_ident(
                    commands[i].name@,
                )
                &&& next.returns[r + i].name == return_object_ident(commands[i].name@)
                &&& next.methods[m + i] == binding(unit.domain, commands[i].name@)
            } by {
                if i < before.len() {
                    assert(before[i] == commands[i]);
                    assert(next.parameters.drop_last()[p + i] == next.parameters[p + i]);
                    assert(next.returns.drop_last()[r + i] == next.returns[r + i]);
                    assert(next.methods.drop_last()[m + i] == next.methods[m + i]);
                    assert(mid.parameters[p + i].name == parameters_ident(before[i].name@));
                } else {
                    assert(next.parameters[p + i] == next.parameters.last());
                    assert(next.returns[r + i] == next.returns.last());
                    assert(next.methods[m + i] == next.methods.last());
                }
            }
        }
    }
}

/// The unit `after` has the domain and the declarations of commands of `before`.
pub open spec fn same_commands(before: DomainUnitView, after: DomainUnitView) -> bool {
    &&& after.domain == before.domain
    &&& after.parameters == before.parameters
    &&& after.returns == before.returns
    &&& after.methods == before.methods
}

proof fn lemma_type_keeps_commands(te: TypeElement, protocol: Protocol, unit: DomainUnitView)
    ensures
        type_outcome(te, protocol, unit) matches Ok(next) ==> same_commands(unit, next),
{
    lemma_fields_frame(properties_of(te), protocol, te.id@, unit);
}

proof fn lemma_event_keeps_commands(event: Event, protocol: Protocol, unit: DomainUnitView)
    ensures
        event_outcome(event, protocol, unit) matches Ok(next) ==> same_commands(unit, next),
{
    if let Some(list) = event.parameters {
        lemma_fields_frame(list@, protocol, event_params_ident(event.name@), unit);
    }
}

/// In the emission unit of a domain every command has its parameter
/// declaration, its return declaration and its binding, and nothing else is in
/// their lists: the three lists are as long as the list of commands and follow
/// its order.
pub proof fn lemma_domain_declares_every_command(domain: Domain, protocol: Protocol)
    ensures
        domain_outcome(domain, protocol) matches Ok(unit) ==> {
            &&& unit.domain == domain.domain@
            &&& unit.parameters.len() == domain.commands@.len()
            &&& unit.returns.len() == domain.commands@.len()
            &&& unit.methods.len() == domain.commands@.len()
            &&& forall|i: int|
                0 <= i < domain.commands@.len() ==> {
                    &&& (#[trigger] unit.parameters[i]).name == parameters_ident(
                        domain.commands@[i].name@,
                    )
                    &&& unit.returns[i].name == return_object_ident(domain.commands@[i].name@)
                    &&& unit.methods[i] == binding(domain.domain@, domain.commands@[i].name@)
                }
        },
{
    let start = domain_start(domain);
    let types = type_step(protocol);
    let untouched = |unit: DomainUnitView| same_commands(start, unit);
    assert forall|unit: DomainUnitView, te: TypeElement|
        untouched(unit) && (#[trigger] types(unit, te)) is Ok implies untouched(
        types(unit, te)->Ok_0,
    ) by {
        lemma_type_keeps_commands(te, protocol, unit);
    }
    lemma_try_fold_keeps(types_of(domain), start, types, untouched);
    if let Ok(typed) = try_fold(types_of(domain), start, types) {
        lemma_commands_always_declared(domain.commands@, protocol, typed);
        if let Ok(commanded) = commands_outcome(domain.commands@, protocol, typed) {
            let events = event_step(protocol);
            let kept = |unit: DomainUnitView| same_commands(commanded, unit);
            assert forall|unit: DomainUnitView, event: Event|
                kept(unit) && (#[trigger] events(unit, event)) is Ok implies kept(
                events(unit, event)->Ok_0,
            ) by {
                lemma_event_keeps_commands(event, protocol, unit);
            }
            lemma_try_fold_keeps(events_of(domain), commanded, events, kept);
            if let Ok(unit) = domain_outcome(domain, protocol) {
                assert(typed.parameters.len() == 0 && typed.returns.len() == 0
                    && typed.methods.len() == 0);
                assert forall|i: int| 0 <= i < domain.commands@.len() implies {
                    &&& (#[trigger] unit.parameters[i]).name == parameters_ident(
                        domain.commands@[i].name@,
                    )
                    &&& unit.returns[i].name == return_object_ident(domain.commands@[i].name@)
                    &&& unit.methods[i] == binding(domain.domain@, domain.commands@[i].name@)
                } by {
                    assert(commanded.parameters[typed.parameters.len() + i].name
                        == parameters_ident(domain.commands@[i].name@));
                }
            }
        }
    }
}

/// The two schemas declare the same types: every lookup gives the same answer
/// in both.
pub open spec fn same_lookup(p: Protocol, q: Protocol) -> bool {
    forall|domain: Seq<char>, name: Seq<char>|
        #![trigger declares(p, domain, name)]
        #![trigger declares(q, domain, name)]
        declares(p, domain, name) == declares(q, domain, name)
}

/// Two schemas that hold the same domains, in whatever order, declare the same
/// types.
pub proof fn lemma_lookup_ignores_order(p: Protocol, q: Protocol)
    requires
        forall|d: Domain| p.domains@.contains(d) <==> q.domains@.contains(d),
    ensures
        same_lookup(p, q),
{
    assert forall|domain: Seq<char>, name: Seq<char>|
        declares(p, domain, name) == declares(q, domain, name) by {
        if declares(p, domain, name) {
            lemma_lookup_finds_in_any(p, q, domain, name);
        }
        if declares(q, domain, name) {
            lemma_lookup_finds_in_any(q, p, domain, name);
        }
    }
}

proof fn lemma_lookup_finds_in_any(p: Protocol, q: Protocol, domain: Seq<char>, name: Seq<char>)
    requires
        forall|d: Domain| p.domains@.contains(d) ==> q.domains@.contains(d),
        declares(p, domain, name),
    ensures
        declares(q, domain, name),
{
    let i = choose|i: int|
        0 <= i < p.domains@.len() && (#[trigger] p.domains@[i]).domain@ == domain
            && domain_declares(p.domains@[i], name);
    let d = p.domains@[i];
    assert(p.domains@.contains(d));
    let j = choose|j: int| 0 <= j < q.domains@.len() && q.domains@[j] == d;
    assert(q.domains@[j].domain@ == domain && domain_declares(q.domains@[j], name));
}

proof fn lemma_items_depend_on_lookup(
    items: Items,
    literals: Option<Seq<Seq<char>>>,
    cx: ContextView,
    other: Protocol,
    ident: Seq<char>,
)
    requires
        same_lookup(cx.protocol, other),
    ensures
        items_outcome(items, literals, cx, ident) == items_outcome(
            items,
            literals,
            ContextView { protocol: other, ..cx },
            ident,
        ),
    decreases items,
{
    if items.items_ref is None && items.items_type == Some(TypeEnum::Array) {
        if let Some(inner) = items.items {
            lemma_items_depend_on_lookup(*inner, literals, cx, other, ident);
        }
    }
}

/// A property resolves to the same field in two contexts that differ in the
/// schema alone, where the two schemas declare the same types.
pub proof fn lemma_field_depends_on_lookup(p: Parameter, cx: ContextView, other: Protocol)
    requires
        same_lookup(cx.protocol, other),
    ensures
        field_outcome(p, cx) == field_outcome(p, ContextView { protocol: other, ..cx }),
{
    if let Some(items) = p.items {
        lemma_items_depend_on_lookup(
            items,
            literals_view(p.parameter_enum),
            cx,
            other,
            field_ident(p.name@),
        );
    }
}

proof fn lemma_fields_depend_on_lookup(
    params: Seq<Parameter>,
    p: Protocol,
    q: Protocol,
    declaration: Seq<char>,
    unit: DomainUnitView,
)
    requires
        same_lookup(p, q),
    ensures
        fields_outcome(params, p, declaration, unit) == fields_outcome(params, q, declaration, unit),
{
    let a = field_step(p, declaration);
    let b = field_step(q, declaration);
    assert forall|acc: FieldsView, item: Parameter| #[trigger] a(acc, item) == b(acc, item) by {
        let cx = ContextView { protocol: p, domain: acc.unit.domain, declaration };
        lemma_field_depends_on_lookup(item, cx, q);
    }
    lemma_try_fold_same_steps(params, FieldsView { fields: Seq::empty(), unit }, a, b);
}

proof fn lemma_object_depends_on_lookup(
    name: Seq<char>,
    params: Option<Vec<Parameter>>,
    absent_is_opaque: bool,
    p: Protocol,
    q: Protocol,
    unit: DomainUnitView,
)
    requires
        same_lookup(p, q),
    ensures
        object_outcome(name, params, absent_is_opaque, p, unit) == object_outcome(
            name,
            params,
            absent_is_opaque,
            q,
            unit,
        ),
{
    if let Some(list) = params {
        lemma_fields_depend_on_lookup(list@, p, q, name, unit);
    }
}

proof fn lemma_command_depends_on_lookup(
    command: Command,
    p: Protocol,
    q: Protocol,
    unit: DomainUnitView,
)
    requires
        same_lookup(p, q),
    ensures
        command_outcome(command, p, unit) == command_outcome(command, q, unit),
{
    let name = return_object_ident(command.name@);
    lemma_object_depends_on_lookup(name, command.returns, false, p, q, unit);
    if let Ok(d) = object_outcome(name, command.returns, false, p, unit) {
        let returned = DomainUnitView { returns: d.unit.returns.push(d.decl), ..d.unit };
        lemma_object_depends_on_lookup(
            parameters_ident(command.name@),
            command.parameters,
            true,
            p,
            q,
            returned,
        );
    }
}

/// A domain compiles to the same emission unit against two schemas that declare
/// the same types: a reference is settled by what the whole schema declares,
/// and by nothing else of it, not by the order of its domains either.
pub proof fn lemma_domain_depends_on_lookup(domain: Domain, p: Protocol, q: Protocol)
    requires
        same_lookup(p, q),
    ensures
        domain_outcome(domain, p) == domain_outcome(domain, q),
{
    let start = domain_start(domain);
    assert forall|unit: DomainUnitView, te: TypeElement| #[trigger]
        type_step(p)(unit, te) == type_step(q)(unit, te) by {
        lemma_fields_depend_on_lookup(properties_of(te), p, q, te.id@, unit);
        if let Some(items) = te.items {
            let cx = ContextView { protocol: p, domain: unit.domain, declaration: te.id@ };
            lemma_items_depend_on_lookup(items, None, cx, q, Seq::empty());
        }
    }
    lemma_try_fold_same_steps(types_of(domain), start, type_step(p), type_step(q));
    if let Ok(typed) = try_fold(types_of(domain), start, type_step(p)) {
        assert forall|unit: DomainUnitView, command: Command| #[trigger]
            command_step(p)(unit, command) == command_step(q)(unit, command) by {
            lemma_command_depends_on_lookup(command, p, q, unit);
        }
        lemma_try_fold_same_steps(domain.commands@, typed, command_step(p), command_step(q));
        if let Ok(commanded) = commands_outcome(domain.commands@, p, typed) {
            assert forall|unit: DomainUnitView, event: Event| #[trigger]
                event_step(p)(unit, event) == event_step(q)(unit, event) by {
                lemma_object_depends_on_lookup(
                    event_params_ident(event.name@),
                    event.parameters,
                    true,
                    p,
                    q,
                    unit,
                );
            }
            lemma_try_fold_same_steps(events_of(domain), commanded, event_step(p), event_step(q));
        }
    }
}

} // verus!
