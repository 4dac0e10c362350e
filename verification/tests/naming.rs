use cdp_bindings::naming::{
    escape_reserved, event_name, event_params_name, normalize_field, normalize_type,
    parameters_name, return_object_name, split_reference, synth_enum_name, union_variant_name,
    variant_name, wire_name,
};

#[test]
fn normalize_field_makes_snake_case() {
    assert_eq!(normalize_field("targetId"), Some(String::from("target_id")));
    assert_eq!(normalize_field("sessionId"), Some(String::from("session_id")));
    assert_eq!(normalize_field("url"), Some(String::from("url")));
}

#[test]
fn normalize_field_escapes_reserved_words() {
    assert_eq!(normalize_field("type"), Some(String::from("Type")));
    assert_eq!(normalize_field("override"), Some(String::from("Override")));
    assert_eq!(normalize_field("pointerType"), Some(String::from("pointer_Type")));
}

#[test]
fn normalize_field_refuses_names_outside_ascii() {
    assert_eq!(normalize_field("é"), None);
    assert_eq!(normalize_field("éAb"), None);
}

#[test]
fn escape_reserved_capitalises_each_occurrence() {
    assert_eq!(escape_reserved("type"), "Type");
    assert_eq!(escape_reserved("override_type"), "Override_Type");
    assert_eq!(escape_reserved("kind"), "kind");
}

#[test]
fn normalize_type_keeps_the_id() {
    assert_eq!(normalize_type("TargetID"), "TargetID");
    assert_eq!(normalize_type(""), "");
}

#[test]
fn synth_enum_name_joins_scope_field_and_suffix() {
    assert_eq!(
        synth_enum_name("DispatchMouseEventParameters", "Type"),
        "DispatchMouseEventParametersTypeOption"
    );
    assert_eq!(synth_enum_name("Cookie", "same_site"), "CookieSame_siteOption");
    assert_eq!(synth_enum_name("", ""), "Option");
}

#[test]
fn variant_name_splits_hyphenated_literals() {
    assert_eq!(variant_name("same-origin"), Some(String::from("SameOrigin")));
    assert_eq!(
        variant_name("no-referrer-when-downgrade"),
        Some(String::from("NoReferrerWhenDowngrade"))
    );
    assert_eq!(variant_name("a-"), Some(String::from("A")));
    assert_eq!(variant_name("-"), Some(String::new()));
    assert_eq!(variant_name("é-b"), Some(String::from("éB")));
}

#[test]
fn variant_name_converts_other_literals_to_pascal_case() {
    assert_eq!(variant_name("mouseWheel"), Some(String::from("MouseWheel")));
    assert_eq!(variant_name("mousePressed"), Some(String::from("MousePressed")));
    assert_eq!(variant_name("none"), Some(String::from("None")));
    assert_eq!(variant_name("é"), None);
}

#[test]
fn declaration_names_carry_their_suffix() {
    assert_eq!(parameters_name("attachToTarget"), "AttachToTargetParameters");
    assert_eq!(return_object_name("attachToTarget"), "AttachToTargetReturnObject");
    assert_eq!(event_name("targetCreated"), "TargetCreatedEvent");
    assert_eq!(event_params_name("targetCreated"), "TargetCreatedEventParams");
}

#[test]
fn wire_name_joins_with_a_dot() {
    assert_eq!(wire_name("Target", "attachToTarget"), "Target.attachToTarget");
}

#[test]
fn union_variant_name_adds_the_domain_once() {
    assert_eq!(union_variant_name("Page", "frameNavigated"), "PageFrameNavigated");
    assert_eq!(union_variant_name("Target", "targetCreated"), "TargetCreated");
    assert_eq!(union_variant_name("Target", "attachedToTarget"), "AttachedToTarget");
}

#[test]
fn split_reference_cuts_at_the_first_dot() {
    assert_eq!(
        split_reference("Runtime.RemoteObject"),
        Some((String::from("Runtime"), String::from("RemoteObject")))
    );
    assert_eq!(split_reference("A.B.C"), Some((String::from("A"), String::from("B.C"))));
    assert_eq!(split_reference(".x"), Some((String::new(), String::from("x"))));
    assert_eq!(split_reference("x."), Some((String::from("x"), String::new())));
    assert_eq!(split_reference("NodeId"), None);
}
