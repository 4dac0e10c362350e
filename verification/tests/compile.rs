use cdp_bindings::compile::{compile_domain, get_commands, get_events, get_parameters, get_types};
use cdp_bindings::decl::{
    CompiledTree, Decl, DomainModule, EnumDecl, EnumVariant, EventUnionVariant, FieldDecl,
    MethodBinding, ObjectDecl, TypeAlias, TypeExpr,
};
use cdp_bindings::compile::compile_cdp_json;
use cdp_bindings::emit::{assemble, emit_module, shared_types, Node};
use cdp_bindings::error::{Missing, SchemaError, SchemaFault};
use cdp_bindings::object::{declare_object, resolve_fields};
use cdp_bindings::schema::{
    Command, Domain, Event, Items, Parameter, Protocol, TypeElement, TypeEnum,
};
use cdp_bindings::unit::{DependencyTracker, DomainUnit};

fn text(s: &str) -> String {
    String::from(s)
}

fn named(name: &str) -> TypeExpr {
    TypeExpr::Named { domain: None, name: text(name) }
}

fn qualified(domain: &str, name: &str) -> TypeExpr {
    TypeExpr::Named { domain: Some(text(domain)), name: text(name) }
}

fn typed(name: &str, t: TypeEnum) -> Parameter {
    Parameter {
        name: text(name),
        parameter_type: Some(t),
        parameter_ref: None,
        optional: false,
        parameter_enum: None,
        items: None,
    }
}

fn referring(name: &str, reference: &str) -> Parameter {
    Parameter {
        name: text(name),
        parameter_type: None,
        parameter_ref: Some(text(reference)),
        optional: false,
        parameter_enum: None,
        items: None,
    }
}

fn literal(name: &str, literals: &[&str]) -> Parameter {
    let mut p = typed(name, TypeEnum::String);
    p.parameter_enum = Some(literals.iter().map(|l| text(l)).collect());
    p
}

fn element(id: &str, t: TypeEnum) -> TypeElement {
    TypeElement { id: text(id), type_type: t, type_enum: None, properties: None, items: None }
}

fn object(id: &str, properties: Vec<Parameter>) -> TypeElement {
    TypeElement {
        id: text(id),
        type_type: TypeEnum::Object,
        type_enum: None,
        properties: Some(properties),
        items: None,
    }
}

fn command(name: &str) -> Command {
    Command { name: text(name), parameters: None, returns: None }
}

fn domain(name: &str) -> Domain {
    Domain {
        domain: text(name),
        dependencies: None,
        types: None,
        commands: Vec::new(),
        events: None,
    }
}

fn field(name: &str, wire: &str, ty: TypeExpr) -> FieldDecl {
    let default_if_absent = ty.leaf_is_primitive();
    FieldDecl {
        name: text(name),
        wire_name: text(wire),
        ty,
        omit_if_absent: false,
        default_if_absent,
    }
}

fn record(name: &str, fields: Vec<FieldDecl>) -> ObjectDecl {
    ObjectDecl { name: text(name), fields, opaque: false }
}

fn opaque(name: &str) -> ObjectDecl {
    ObjectDecl { name: text(name), fields: Vec::new(), opaque: true }
}

fn error(domain: &str, declaration: &str, field: Option<&str>, fault: SchemaFault) -> SchemaError {
    SchemaError {
        domain: text(domain),
        declaration: text(declaration),
        field: field.map(text),
        fault,
    }
}

fn target_schema() -> Protocol {
    let mut target = domain("Target");
    target.types = Some(vec![element("TargetID", TypeEnum::String)]);
    target.commands = vec![Command {
        name: text("attachToTarget"),
        parameters: Some(vec![referring("targetId", "TargetID")]),
        returns: Some(vec![typed("sessionId", TypeEnum::String)]),
    }];
    Protocol { domains: vec![target] }
}

#[test]
fn target_domain_compiles_to_alias_objects_and_binding() {
    let tree = compile_cdp_json(&target_schema()).unwrap();
    assert_eq!(tree.modules.len(), 1);
    let module = &tree.modules[0];
    assert_eq!(module.name, "Target");
    assert_eq!(module.imports, Vec::<String>::new());
    assert_eq!(
        module.decls,
        vec![
            Decl::Alias(TypeAlias { name: text("TargetID"), target: TypeExpr::Text }),
            Decl::Object(record(
                "AttachToTargetParameters",
                vec![field("target_id", "targetId", named("TargetID"))]
            )),
            Decl::Object(record(
                "AttachToTargetReturnObject",
                vec![field("session_id", "sessionId", TypeExpr::Text)]
            )),
            Decl::Method(MethodBinding {
                name: text("Target.attachToTarget"),
                parameter: text("AttachToTargetParameters"),
                return_object: text("AttachToTargetReturnObject"),
            }),
        ]
    );
    assert_eq!(module.events, Vec::<Decl>::new());
}

#[test]
fn same_literal_in_two_fields_gives_two_enums() {
    let mut input = domain("Input");
    input.commands = vec![
        Command {
            name: text("dispatchMouseEvent"),
            parameters: Some(vec![literal("type", &["mouseWheel", "mousePressed"])]),
            returns: None,
        },
        Command {
            name: text("emulateTouchFromMouseEvent"),
            parameters: Some(vec![literal("type", &["mouseWheel", "mouseReleased"])]),
            returns: None,
        },
    ];
    let unit = compile_domain(&input, &Protocol { domains: vec![input.clone()] }).unwrap();
    assert_eq!(
        unit.enums,
        vec![
            EnumDecl {
                name: text("DispatchMouseEventParametersTypeOption"),
                variants: vec![
                    EnumVariant { name: text("MouseWheel"), tag: text("mouseWheel") },
                    EnumVariant { name: text("MousePressed"), tag: text("mousePressed") },
                ],
            },
            EnumDecl {
                name: text("EmulateTouchFromMouseEventParametersTypeOption"),
                variants: vec![
                    EnumVariant { name: text("MouseWheel"), tag: text("mouseWheel") },
                    EnumVariant { name: text("MouseReleased"), tag: text("mouseReleased") },
                ],
            },
        ]
    );
    assert_ne!(unit.enums[0].name, unit.enums[1].name);
    assert_eq!(
        unit.parameters[0].fields,
        vec![field("Type", "type", named("DispatchMouseEventParametersTypeOption"))]
    );
    assert_eq!(
        unit.parameters[1].fields,
        vec![field("Type", "type", named("EmulateTouchFromMouseEventParametersTypeOption"))]
    );
}

#[test]
fn parameters_and_returns_of_one_command_have_enums_of_their_own() {
    let mut d = domain("D");
    d.commands = vec![Command {
        name: text("run"),
        parameters: Some(vec![literal("mode", &["a"])]),
        returns: Some(vec![literal("mode", &["a"])]),
    }];
    let unit = compile_domain(&d, &Protocol { domains: vec![d.clone()] }).unwrap();
    let names: Vec<&str> = unit.enums.iter().map(|e| e.name.as_str()).collect();
    assert_eq!(names, vec!["RunReturnObjectModeOption", "RunParametersModeOption"]);
}

#[test]
fn command_without_parameters_still_has_its_declarations() {
    let protocol = Protocol { domains: vec![domain("Page")] };
    let unit = get_commands(&vec![command("enable")], &protocol, DomainUnit::new(text("Page")))
        .unwrap();
    assert_eq!(unit.parameters, vec![opaque("EnableParameters")]);
    assert_eq!(unit.returns, vec![record("EnableReturnObject", Vec::new())]);
    assert_eq!(
        unit.methods,
        vec![MethodBinding {
            name: text("Page.enable"),
            parameter: text("EnableParameters"),
            return_object: text("EnableReturnObject"),
        }]
    );
}

#[test]
fn command_with_empty_lists_has_empty_declarations() {
    let protocol = Protocol { domains: vec![domain("Page")] };
    let cmd =
        Command { name: text("reload"), parameters: Some(Vec::new()), returns: Some(Vec::new()) };
    let unit = get_parameters(&cmd, &protocol, DomainUnit::new(text("Page"))).unwrap();
    assert_eq!(unit.parameters, vec![record("ReloadParameters", Vec::new())]);
    assert!(unit.returns.is_empty());
    let unit = get_commands(&vec![cmd], &protocol, DomainUnit::new(text("Page"))).unwrap();
    assert_eq!(unit.parameters, vec![record("ReloadParameters", Vec::new())]);
    assert_eq!(unit.returns, vec![record("ReloadReturnObject", Vec::new())]);
}

#[test]
fn commands_compile_in_order() {
    let protocol = Protocol { domains: vec![domain("Page")] };
    let commands = vec![command("enable"), command("disable"), command("reload")];
    let unit = get_commands(&commands, &protocol, DomainUnit::new(text("Page"))).unwrap();
    let names: Vec<&str> = unit.methods.iter().map(|m| m.name.as_str()).collect();
    assert_eq!(names, vec!["Page.enable", "Page.disable", "Page.reload"]);
    assert_eq!(unit.parameters.len(), 3);
    assert_eq!(unit.returns.len(), 3);
    let none = get_commands(&Vec::new(), &protocol, DomainUnit::new(text("Page"))).unwrap();
    assert_eq!(none, DomainUnit::new(text("Page")));
}

#[test]
fn object_type_becomes_a_declaration_with_its_fields() {
    let mut dom = domain("DOM");
    let node = object(
        "Node",
        vec![
            referring("nodeId", "NodeId"),
            {
                let mut p = referring("parent", "Node");
                p.optional = true;
                p
            },
            typed("nodeName", TypeEnum::String),
        ],
    );
    dom.types = Some(vec![element("NodeId", TypeEnum::Integer), node.clone()]);
    let protocol = Protocol { domains: vec![dom] };
    let unit = get_types(&node, &protocol, DomainUnit::new(text("DOM"))).unwrap();
    assert_eq!(
        unit.objects,
        vec![record(
            "Node",
            vec![
                field("node_id", "nodeId", named("NodeId")),
                FieldDecl {
                    name: text("parent"),
                    wire_name: text("parent"),
                    ty: TypeExpr::Optional(Box::new(TypeExpr::Boxed(Box::new(named("Node"))))),
                    omit_if_absent: true,
                    default_if_absent: false,
                },
                field("node_name", "nodeName", TypeExpr::Text),
            ]
        )]
    );
}

#[test]
fn object_type_without_properties_is_opaque() {
    let protocol = Protocol { domains: vec![domain("DOM")] };
    let unit =
        get_types(&element("Blob", TypeEnum::Object), &protocol, DomainUnit::new(text("DOM")))
            .unwrap();
    assert_eq!(unit.objects, vec![opaque("Blob")]);
    let unit = get_types(&object("Bag", Vec::new()), &protocol, DomainUnit::new(text("DOM")))
        .unwrap();
    assert_eq!(unit.objects, vec![opaque("Bag")]);
}

#[test]
fn primitive_types_become_aliases() {
    let protocol = Protocol { domains: vec![domain("DOM")] };
    let mut unit = DomainUnit::new(text("DOM"));
    for (id, t) in [
        ("Flag", TypeEnum::Boolean),
        ("NodeId", TypeEnum::Integer),
        ("Ratio", TypeEnum::Number),
        ("Name", TypeEnum::String),
        ("Payload", TypeEnum::Any),
    ] {
        unit = get_types(&element(id, t), &protocol, unit).unwrap();
    }
    assert_eq!(
        unit.aliases,
        vec![
            TypeAlias { name: text("Flag"), target: TypeExpr::Boolean },
            TypeAlias { name: text("NodeId"), target: TypeExpr::Integer },
            TypeAlias { name: text("Ratio"), target: TypeExpr::Number },
            TypeAlias { name: text("Name"), target: TypeExpr::Text },
            TypeAlias { name: text("Payload"), target: TypeExpr::Json },
        ]
    );
}

#[test]
fn string_type_with_literals_becomes_an_enum_named_by_its_id() {
    let protocol = Protocol { domains: vec![domain("Network")] };
    let mut te = element("CookieSameSite", TypeEnum::String);
    te.type_enum = Some(vec![text("Strict"), text("Lax"), text("None")]);
    let unit = get_types(&te, &protocol, DomainUnit::new(text("Network"))).unwrap();
    assert_eq!(
        unit.enums,
        vec![EnumDecl {
            name: text("CookieSameSite"),
            variants: vec![
                EnumVariant { name: text("Strict"), tag: text("Strict") },
                EnumVariant { name: text("Lax"), tag: text("Lax") },
                EnumVariant { name: text("None"), tag: text("None") },
            ],
        }]
    );
    assert!(unit.aliases.is_empty());
}

#[test]
fn array_type_becomes_an_alias_of_a_sequence() {
    let mut dom = domain("DOM");
    dom.types = Some(vec![element("Quad", TypeEnum::Number)]);
    let mut runtime = domain("Runtime");
    runtime.types = Some(vec![element("RemoteObject", TypeEnum::Object)]);
    let protocol = Protocol { domains: vec![dom, runtime] };
    let mut quads = element("Quads", TypeEnum::Array);
    quads.items = Some(Items { items_type: None, items_ref: Some(text("Quad")), items: None });
    let mut numbers = element("Numbers", TypeEnum::Array);
    numbers.items =
        Some(Items { items_type: Some(TypeEnum::Number), items_ref: None, items: None });
    let mut remote = element("Remotes", TypeEnum::Array);
    remote.items = Some(Items {
        items_type: None,
        items_ref: Some(text("Runtime.RemoteObject")),
        items: None,
    });
    let mut unit = DomainUnit::new(text("DOM"));
    for te in [&quads, &numbers, &remote] {
        unit = get_types(te, &protocol, unit).unwrap();
    }
    assert_eq!(
        unit.aliases,
        vec![
            TypeAlias { name: text("Quads"), target: TypeExpr::Sequence(Box::new(named("Quad"))) },
            TypeAlias {
                name: text("Numbers"),
                target: TypeExpr::Sequence(Box::new(TypeExpr::Number)),
            },
            TypeAlias {
                name: text("Remotes"),
                target: TypeExpr::Sequence(Box::new(qualified("Runtime", "RemoteObject"))),
            },
        ]
    );
    assert_eq!(unit.imports.segments(), &vec![text("Runtime")]);
}

#[test]
fn array_type_without_items_is_an_error_at_the_type() {
    let protocol = Protocol { domains: vec![domain("DOM")] };
    assert_eq!(
        get_types(&element("Quads", TypeEnum::Array), &protocol, DomainUnit::new(text("DOM"))),
        Err(error("DOM", "Quads", None, SchemaFault::Shape { missing: Missing::Items }))
    );
}

#[test]
fn errors_name_domain_declaration_and_field() {
    let mut dom = domain("DOM");
    dom.types = Some(vec![object("Node", vec![referring("nodeId", "NodeId")])]);
    let protocol = Protocol { domains: vec![dom] };
    assert_eq!(
        compile_cdp_json(&protocol),
        Err(error(
            "DOM",
            "Node",
            Some("nodeId"),
            SchemaFault::Reference { target: text("NodeId") }
        ))
    );
    let mut page = domain("Page");
    page.commands = vec![Command {
        name: text("navigate"),
        parameters: Some(vec![{
            let mut p = typed("url", TypeEnum::String);
            p.parameter_type = None;
            p
        }]),
        returns: None,
    }];
    assert_eq!(
        compile_cdp_json(&Protocol { domains: vec![page] }),
        Err(error(
            "Page",
            "NavigateParameters",
            Some("url"),
            SchemaFault::Shape { missing: Missing::TypeOrRef }
        ))
    );
    let mut log = domain("Log");
    log.events = Some(vec![Event {
        name: text("entryAdded"),
        parameters: Some(vec![typed("entries", TypeEnum::Array)]),
    }]);
    assert_eq!(
        compile_cdp_json(&Protocol { domains: vec![log] }),
        Err(error(
            "Log",
            "EntryAddedEventParams",
            Some("entries"),
            SchemaFault::Shape { missing: Missing::Items }
        ))
    );
    let mut net = domain("Network");
    let mut te = element("Kind", TypeEnum::String);
    te.type_enum = Some(vec![text("é")]);
    net.types = Some(vec![te]);
    assert_eq!(
        compile_cdp_json(&Protocol { domains: vec![net] }),
        Err(error("Network", "Kind", None, SchemaFault::Name { name: text("é") }))
    );
}

#[test]
fn the_first_error_wins() {
    let mut a = domain("A");
    a.types = Some(vec![
        element("Fine", TypeEnum::String),
        object(
            "First",
            vec![typed("ok", TypeEnum::String), referring("x", "Gone"), referring("y", "Lost")],
        ),
        object("Second", vec![referring("z", "Away")]),
    ]);
    a.commands = vec![Command {
        name: text("run"),
        parameters: Some(vec![referring("p", "Never")]),
        returns: Some(vec![referring("r", "Nope")]),
    }];
    let mut b = domain("B");
    b.types = Some(vec![element("Broken", TypeEnum::Array)]);
    let protocol = Protocol { domains: vec![a.clone(), b.clone()] };
    assert_eq!(
        compile_cdp_json(&protocol),
        Err(error("A", "First", Some("x"), SchemaFault::Reference { target: text("Gone") }))
    );
    a.types = None;
    assert_eq!(
        compile_cdp_json(&Protocol { domains: vec![a.clone(), b.clone()] }),
        Err(error(
            "A",
            "RunReturnObject",
            Some("r"),
            SchemaFault::Reference { target: text("Nope") }
        ))
    );
    a.commands[0].returns = None;
    assert_eq!(
        compile_cdp_json(&Protocol { domains: vec![a.clone(), b.clone()] }),
        Err(error(
            "A",
            "RunParameters",
            Some("p"),
            SchemaFault::Reference { target: text("Never") }
        ))
    );
    a.commands.clear();
    assert_eq!(
        compile_cdp_json(&Protocol { domains: vec![a, b] }),
        Err(error("B", "Broken", None, SchemaFault::Shape { missing: Missing::Items }))
    );
}

#[test]
fn references_may_point_at_later_domains() {
    let mut a = domain("A");
    a.types = Some(vec![object("Holder", vec![referring("held", "B.Thing")])]);
    let mut b = domain("B");
    b.types = Some(vec![element("Thing", TypeEnum::String)]);
    let tree = compile_cdp_json(&Protocol { domains: vec![a, b] }).unwrap();
    assert_eq!(tree.modules[0].imports, vec![text("B")]);
    assert_eq!(
        tree.modules[0].decls,
        vec![Decl::Object(record("Holder", vec![field("held", "held", qualified("B", "Thing"))]))]
    );
}

#[test]
fn each_domain_is_imported_once() {
    let mut a = domain("A");
    a.dependencies = Some(vec![text("C"), text("B"), text("C")]);
    a.types = Some(vec![object(
        "Holder",
        vec![
            referring("one", "B.Thing"),
            referring("two", "B.Other"),
            referring("three", "D.Thing"),
            referring("four", "C.Thing"),
            referring("five", "D.Thing"),
        ],
    )]);
    a.commands = vec![Command {
        name: text("run"),
        parameters: Some(vec![referring("p", "E.Thing"), referring("q", "B.Thing")]),
        returns: Some(vec![referring("r", "F.Thing")]),
    }];
    a.events = Some(vec![Event {
        name: text("ran"),
        parameters: Some(vec![referring("e", "G.Thing"), referring("f", "F.Thing")]),
    }]);
    let mut domains = vec![a];
    for name in ["B", "C", "D", "E", "F", "G"] {
        let mut d = domain(name);
        d.types =
            Some(vec![element("Thing", TypeEnum::String), element("Other", TypeEnum::String)]);
        domains.push(d);
    }
    let tree = compile_cdp_json(&Protocol { domains }).unwrap();
    assert_eq!(
        tree.modules[0].imports,
        vec![text("C"), text("B"), text("D"), text("F"), text("E"), text("G")]
    );
    for module in &tree.modules[1..] {
        assert!(module.imports.is_empty());
    }
}

#[test]
fn tracker_registers_each_segment_once() {
    let tracker = DependencyTracker::new();
    assert!(tracker.segments().is_empty());
    let tracker = tracker.register(text("DOM")).register(text("Runtime")).register(text("DOM"));
    assert_eq!(tracker.segments(), &vec![text("DOM"), text("Runtime")]);
    assert!(tracker.holds(&text("DOM")));
    assert!(!tracker.holds(&text("Page")));
    assert!(!tracker.holds(&text("DO")));
    assert_eq!(tracker.clone(), tracker);
    assert_eq!(tracker.into_segments(), vec![text("DOM"), text("Runtime")]);
}

#[test]
fn event_has_envelope_inner_declaration_and_union_variant() {
    let mut target = domain("Target");
    target.types = Some(vec![element("TargetInfo", TypeEnum::Object)]);
    let ev = Event {
        name: text("targetCreated"),
        parameters: Some(vec![referring("targetInfo", "TargetInfo")]),
    };
    let protocol = Protocol { domains: vec![target] };
    let unit = get_events(&ev, &protocol, DomainUnit::new(text("Target"))).unwrap();
    assert_eq!(
        unit.events,
        vec![
            record(
                "TargetCreatedEvent",
                vec![field("params", "params", named("TargetCreatedEventParams"))]
            ),
            record(
                "TargetCreatedEventParams",
                vec![field("target_info", "targetInfo", named("TargetInfo"))]
            ),
        ]
    );
    assert_eq!(
        unit.union_variants,
        vec![EventUnionVariant {
            name: text("TargetCreated"),
            tag: text("Target.targetCreated"),
            domain: text("Target"),
            payload: text("TargetCreatedEvent"),
        }]
    );
}

#[test]
fn event_without_parameters_has_an_opaque_inner_declaration() {
    let protocol = Protocol { domains: vec![domain("Page")] };
    let ev = Event { name: text("frameResized"), parameters: None };
    let unit = get_events(&ev, &protocol, DomainUnit::new(text("Page"))).unwrap();
    assert_eq!(
        unit.events,
        vec![
            record(
                "FrameResizedEvent",
                vec![field("params", "params", named("FrameResizedEventParams"))]
            ),
            opaque("FrameResizedEventParams"),
        ]
    );
    assert_eq!(
        unit.union_variants,
        vec![EventUnionVariant {
            name: text("PageFrameResized"),
            tag: text("Page.frameResized"),
            domain: text("Page"),
            payload: text("FrameResizedEvent"),
        }]
    );
}

#[test]
fn event_enums_join_the_enums_of_the_domain() {
    let protocol = Protocol { domains: vec![domain("Page")] };
    let ev = Event {
        name: text("lifecycle"),
        parameters: Some(vec![literal("state", &["frozen", "active"])]),
    };
    let unit = get_events(&ev, &protocol, DomainUnit::new(text("Page"))).unwrap();
    assert_eq!(
        unit.enums,
        vec![EnumDecl {
            name: text("LifecycleEventParamsStateOption"),
            variants: vec![
                EnumVariant { name: text("Frozen"), tag: text("frozen") },
                EnumVariant { name: text("Active"), tag: text("active") },
            ],
        }]
    );
}

#[test]
fn unit_notes_an_import_and_an_enum() {
    let kind = EnumDecl { name: text("Kind"), variants: Vec::new() };
    let unit = DomainUnit::new(text("D"));
    let unit = unit.note(None, None);
    assert_eq!(unit, DomainUnit::new(text("D")));
    let unit = unit.note(Some(text("Other")), Some(kind.clone()));
    let unit = unit.note(Some(text("Other")), None);
    assert_eq!(unit.imports.segments(), &vec![text("Other")]);
    assert_eq!(unit.enums, vec![kind]);
    assert_eq!(unit.domain, "D");
}

#[test]
fn each_declaration_is_a_node_of_its_kind() {
    let alias = TypeAlias { name: text("Id"), target: TypeExpr::Integer };
    assert_eq!(alias.clone().into_decl(), Decl::Alias(alias));
    let kind = EnumDecl { name: text("Kind"), variants: Vec::new() };
    assert_eq!(kind.clone().into_decl(), Decl::Enum(kind));
    assert_eq!(opaque("Thing").into_decl(), Decl::Object(opaque("Thing")));
    let method = MethodBinding {
        name: text("D.run"),
        parameter: text("RunParameters"),
        return_object: text("RunReturnObject"),
    };
    assert_eq!(method.clone().into_decl(), Decl::Method(method));
    let variant = EventUnionVariant {
        name: text("DRan"),
        tag: text("D.ran"),
        domain: text("D"),
        payload: text("RanEvent"),
    };
    assert_eq!(variant.clone().into_decl(), Decl::EventVariant(variant));
}

#[test]
fn module_lists_declarations_in_output_order() {
    let mut unit = DomainUnit::new(text("D"));
    unit.imports = unit.imports.register(text("Other"));
    unit.methods.push(MethodBinding {
        name: text("D.run"),
        parameter: text("RunParameters"),
        return_object: text("RunReturnObject"),
    });
    unit.returns.push(record("RunReturnObject", Vec::new()));
    unit.parameters.push(opaque("RunParameters"));
    unit.objects.push(opaque("Thing"));
    unit.enums.push(EnumDecl { name: text("Kind"), variants: Vec::new() });
    unit.aliases.push(TypeAlias { name: text("Id"), target: TypeExpr::Integer });
    unit.events.push(opaque("RanEventParams"));
    unit.union_variants.push(EventUnionVariant {
        name: text("DRan"),
        tag: text("D.ran"),
        domain: text("D"),
        payload: text("RanEvent"),
    });
    let emitted = emit_module(unit.clone());
    assert_eq!(
        emitted.module,
        DomainModule {
            name: text("D"),
            imports: vec![text("Other")],
            decls: vec![
                Decl::Alias(TypeAlias { name: text("Id"), target: TypeExpr::Integer }),
                Decl::Enum(EnumDecl { name: text("Kind"), variants: Vec::new() }),
                Decl::Object(opaque("Thing")),
                Decl::Object(opaque("RunParameters")),
                Decl::Object(record("RunReturnObject", Vec::new())),
                Decl::Method(MethodBinding {
                    name: text("D.run"),
                    parameter: text("RunParameters"),
                    return_object: text("RunReturnObject"),
                }),
            ],
            events: vec![Decl::Object(opaque("RanEventParams"))],
        }
    );
    assert_eq!(emitted.union_variants, unit.union_variants);
}

#[test]
fn shared_namespace_holds_aliases_then_the_event_union() {
    let mut a = domain("A");
    a.events = Some(vec![Event { name: text("one"), parameters: None }]);
    let mut b = domain("B");
    b.events = Some(vec![
        Event { name: text("two"), parameters: None },
        Event { name: text("bThree"), parameters: None },
    ]);
    let tree = compile_cdp_json(&Protocol { domains: vec![a, domain("Quiet"), b] }).unwrap();
    let variant = |name: &str, tag: &str, domain: &str, payload: &str| {
        Decl::EventVariant(EventUnionVariant {
            name: text(name),
            tag: text(tag),
            domain: text(domain),
            payload: text(payload),
        })
    };
    assert_eq!(
        tree.shared,
        vec![
            Decl::Alias(TypeAlias { name: text("JsFloat"), target: TypeExpr::Number }),
            Decl::Alias(TypeAlias { name: text("JsUInt"), target: TypeExpr::Integer }),
            Decl::Alias(TypeAlias { name: text("WindowId"), target: TypeExpr::Integer }),
            Decl::Alias(TypeAlias { name: text("CallId"), target: TypeExpr::Integer }),
            variant("AOne", "A.one", "A", "OneEvent"),
            variant("BTwo", "B.two", "B", "TwoEvent"),
            variant("BThree", "B.bThree", "B", "BThreeEvent"),
        ]
    );
    let names: Vec<&str> = tree.modules.iter().map(|m| m.name.as_str()).collect();
    assert_eq!(names, vec!["A", "Quiet", "B"]);
}

#[test]
fn empty_schema_compiles_to_the_shared_aliases_alone() {
    let tree = compile_cdp_json(&Protocol { domains: Vec::new() }).unwrap();
    let shared: Vec<Decl> = shared_types().into_iter().map(Decl::Alias).collect();
    assert_eq!(tree, CompiledTree { shared, modules: Vec::new() });
    assert_eq!(assemble(Vec::new()), tree);
}

#[test]
fn fields_resolve_in_order_and_note_imports_and_enums() {
    let mut other = domain("Other");
    other.types = Some(vec![element("Thing", TypeEnum::String)]);
    let protocol = Protocol { domains: vec![domain("D"), other] };
    let params = vec![
        literal("mode", &["on", "off"]),
        referring("thing", "Other.Thing"),
        typed("count", TypeEnum::Integer),
    ];
    let acc = resolve_fields(&params, &protocol, &text("Holder"), DomainUnit::new(text("D")))
        .unwrap();
    assert_eq!(
        acc.fields,
        vec![
            field("mode", "mode", named("HolderModeOption")),
            field("thing", "thing", qualified("Other", "Thing")),
            field("count", "count", TypeExpr::Integer),
        ]
    );
    assert_eq!(acc.unit.imports.segments(), &vec![text("Other")]);
    assert_eq!(acc.unit.enums.len(), 1);
    assert_eq!(acc.unit.enums[0].name, "HolderModeOption");
    let declared =
        declare_object(text("Holder"), &Some(params), true, &protocol, DomainUnit::new(text("D")))
            .unwrap();
    assert_eq!(declared.decl, record("Holder", acc.fields));
    assert_eq!(declared.unit, acc.unit);
    let absent =
        declare_object(text("Holder"), &None, false, &protocol, DomainUnit::new(text("D")))
            .unwrap();
    assert_eq!(absent.decl, record("Holder", Vec::new()));
    assert_eq!(absent.unit, DomainUnit::new(text("D")));
}

#[test]
fn domain_compiles_types_then_commands_then_events() {
    let mut d = domain("D");
    d.dependencies = Some(vec![text("Runtime")]);
    d.types = Some(vec![element("Id", TypeEnum::Integer)]);
    d.commands = vec![command("run")];
    d.events = Some(vec![Event { name: text("ran"), parameters: None }]);
    let unit = compile_domain(&d, &Protocol { domains: vec![d.clone()] }).unwrap();
    assert_eq!(unit.domain, "D");
    assert_eq!(unit.imports.segments(), &vec![text("Runtime")]);
    assert_eq!(unit.aliases.len(), 1);
    assert_eq!(unit.parameters.len(), 1);
    assert_eq!(unit.returns.len(), 1);
    assert_eq!(unit.methods.len(), 1);
    assert_eq!(unit.events.len(), 2);
    assert_eq!(unit.union_variants.len(), 1);
}
