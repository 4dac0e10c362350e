//! The naming rules: how identifiers of the declaration tree are made from the
//! names of the schema. The names on the wire are never changed; they travel
//! beside the identifiers.

use crate::casing::{cased, recase, CaseStyle};
use crate::text::{
    capitalized, capitalized_pieces, chars_capitalize_pieces, chars_contain, chars_find,
    chars_of, first_index, lemma_first_index, occurs_in, replace_all, replaced, string_of,
    StringUtils,
};
use vstd::prelude::*;
use vstd::string::*;
use vstd::utf8::is_ascii_chars;

verus! {

/// `ident` with the reserved words `type` and `override` capitalised wherever
/// they occur in it.
pub open spec fn escaped(ident: Seq<char>) -> Seq<char> {
    replaced(replaced(ident, "type"@, "Type"@), "override"@, "Override"@)
}

/// The field identifier of the wire name `name`: its snake-case form, escaped.
pub open spec fn field_ident(name: Seq<char>) -> Seq<char> {
    escaped(cased(name, CaseStyle::Snake))
}

/// The name of the enumeration made for the field `ident` of the declaration `scope`.
pub open spec fn enum_name(scope: Seq<char>, ident: Seq<char>) -> Seq<char> {
    scope + capitalized(ident) + "Option"@
}

/// An identifier can be made from the literal: it holds a hyphen, or it is ASCII.
pub open spec fn variant_supported(literal: Seq<char>) -> bool {
    literal.contains('-') || is_ascii_chars(literal)
}

/// The variant identifier of a literal: split at hyphens and capitalised piece by
/// piece where it holds a hyphen, its Pascal-case form where it holds none.
pub open spec fn variant_ident(literal: Seq<char>) -> Seq<char> {
    if literal.contains('-') {
        capitalized_pieces(literal, '-')
    } else {
        cased(literal, CaseStyle::Pascal)
    }
}

/// The name of the parameter declaration of a command.
pub open spec fn parameters_ident(command: Seq<char>) -> Seq<char> {
    capitalized(command) + "Parameters"@
}

/// The name of the return declaration of a command.
pub open spec fn return_object_ident(command: Seq<char>) -> Seq<char> {
    capitalized(command) + "ReturnObject"@
}

/// The name of the envelope declaration of an event.
pub open spec fn event_ident(event: Seq<char>) -> Seq<char> {
    capitalized(event) + "Event"@
}

/// The name of the declaration that holds the parameters of an event.
pub open spec fn event_params_ident(event: Seq<char>) -> Seq<char> {
    event_ident(event) + "Params"@
}

/// The name of a command or an event on the wire: `Domain.name`.
pub open spec fn wire_ident(domain: Seq<char>, name: Seq<char>) -> Seq<char> {
    domain + "."@ + name
}

/// The name of the union variant of an event: its capitalised name, with the
/// domain in front unless the name already holds the domain.
pub open spec fn union_variant_ident(domain: Seq<char>, event: Seq<char>) -> Seq<char> {
    if occurs_in(capitalized(event), domain) {
        capitalized(event)
    } else {
        domain + capitalized(event)
    }
}

/// A reference names another domain: it holds a dot.
pub open spec fn ref_is_qualified(reference: Seq<char>) -> bool {
    reference.contains('.')
}

/// The domain that a qualified reference names: the text before its first dot.
pub open spec fn ref_domain(reference: Seq<char>) -> Seq<char> {
    reference.take(first_index(reference, '.'))
}

/// The type that a qualified reference names: the text after its first dot.
pub open spec fn ref_name(reference: Seq<char>) -> Seq<char> {
    reference.skip(first_index(reference, '.') + 1)
}

/// Capitalises the reserved words `type` and `override` wherever they occur in `ident`.
pub fn escape_reserved(ident: &str) -> (r: String)
    ensures
        r@ == escaped(ident@),
{
    let first = replace_all(ident, "type", "Type");
    replace_all(first.as_str(), "override", "Override")
}

/// The field identifier of a wire name, or `None` for a name that is not ASCII.
pub fn normalize_field(name: &str) -> (r: Option<String>)
    ensures
        r is Some <==> is_ascii_chars(name@),
        r is Some ==> r->0@ == field_ident(name@),
{
    if name.is_ascii() {
        let snake = recase(name, CaseStyle::Snake);
        Some(escape_reserved(snake.as_str()))
    } else {
        None
    }
}

/// The identifier of a type id: the id itself.
pub fn normalize_type(name: &str) -> (r: String)
    ensures
        r@ == name@,
{
    String::from_str(name)
}

/// The name of the enumeration made for the field `ident` of the declaration `scope`.
pub fn synth_enum_name(scope: &str, ident: &str) -> (r: String)
    ensures
        r@ == enum_name(scope@, ident@),
{
    let mut r = String::from_str(scope);
    r.append(String::from_str(ident).first_uppercased().as_str());
    r.append("Option");
    r
}

/// The variant identifier of a literal, or `None` for a literal that holds no
/// hyphen and is not ASCII.
pub fn variant_name(literal: &str) -> (r: Option<String>)
    ensures
        r is Some <==> variant_supported(literal@),
        r is Some ==> r->0@ == variant_ident(literal@),
{
    let chars = chars_of(literal);
    let k: usize = chars_find(&chars, 0, '-');
    proof {
        assert(chars@.skip(0) == chars@);
        lemma_first_index(chars@, '-');
    }
    if k < chars.len() {
        Some(string_of(&chars_capitalize_pieces(&chars, '-')))
    } else if literal.is_ascii() {
        Some(recase(literal, CaseStyle::Pascal))
    } else {
        None
    }
}

fn capitalized_with(name: &str, suffix: &str) -> (r: String)
    ensures
        r@ == capitalized(name@) + suffix@,
{
    let mut r = String::from_str(name).first_uppercased();
    r.append(suffix);
    r
}

/// The name of the parameter declaration of a command.
pub fn parameters_name(command: &str) -> (r: String)
    ensures
        r@ == parameters_ident(command@),
{
    capitalized_with(command, "Parameters")
}

/// The name of the return declaration of a command.
pub fn return_object_name(command: &str) -> (r: String)
    ensures
        r@ == return_object_ident(command@),
{
    capitalized_with(command, "ReturnObject")
}

/// The name of the envelope declaration of an event.
pub fn event_name(event: &str) -> (r: String)
    ensures
        r@ == event_ident(event@),
{
    capitalized_with(event, "Event")
}

/// The name of the declaration that holds the parameters of an event.
pub fn event_params_name(event: &str) -> (r: String)
    ensures
        r@ == event_params_ident(event@),
{
    let mut r = event_name(event);
    r.append("Params");
    r
}

/// The name of a command or an event on the wire.
pub fn wire_name(domain: &str, name: &str) -> (r: String)
    ensures
        r@ == wire_ident(domain@, name@),
{
    let mut r = String::from_str(domain);
    r.append(".");
    r.append(name);
    r
}

/// The name of the union variant of an event.
pub fn union_variant_name(domain: &str, event: &str) -> (r: String)
    ensures
        r@ == union_variant_ident(domain@, event@),
{
    let name = String::from_str(event).first_uppercased();
    if chars_contain(&chars_of(name.as_str()), &chars_of(domain)) {
        name
    } else {
        let mut r = String::from_str(domain);
        r.append(name.as_str());
        r
    }
}

/// The two sides of a qualified reference, or `None` for a reference without a dot.
pub fn split_reference(reference: &str) -> (r: Option<(String, String)>)
    ensures
        match r {
            Some((domain, name)) => ref_is_qualified(reference@) && domain@ == ref_domain(
                reference@,
            ) && name@ == ref_name(reference@),
            None => !ref_is_qualified(reference@),
        },
{
    let chars = chars_of(reference);
    let k: usize = chars_find(&chars, 0, '.');
    proof {
        assert(chars@.skip(0) == chars@);
        lemma_first_index(chars@, '.');
    }
    if k < chars.len() {
        let mut domain: Vec<char> = Vec::new();
        let mut name: Vec<char> = Vec::new();
        let mut i: usize = 0;
        while i < chars.len()
            invariant
                i <= chars.len(),
                k < chars.len(),
                domain@ == chars@.take(if i <= k { i as int } else { k as int }),
                name@ == if i <= k {
                    Seq::<char>::empty()
                } else {
                    chars@.subrange(k + 1, i as int)
                },
            decreases chars.len() - i,
        {
            if i < k {
                domain.push(chars[i]);
            } else if i > k {
                name.push(chars[i]);
            }
            i += 1;
        }
        assert(chars@.subrange(k + 1, chars@.len() as int) == chars@.skip(k + 1));
        Some((string_of(&domain), string_of(&name)))
    } else {
        None
    }
}

/// The names of the enumerations of two fields with one identifier differ where
/// the enclosing declarations differ.
pub proof fn lemma_enum_name_tells_scopes_apart(
    scope_a: Seq<char>,
    scope_b: Seq<char>,
    ident: Seq<char>,
)
    requires
        scope_a != scope_b,
    ensures
        enum_name(scope_a, ident) != enum_name(scope_b, ident),
{
    let tail = capitalized(ident) + "Option"@;
    let a = enum_name(scope_a, ident);
    let b = enum_name(scope_b, ident);
    assert(a == scope_a + tail);
    assert(b == scope_b + tail);
    if a == b {
        assert(scope_a.len() == scope_b.len());
        assert(a.take(scope_a.len() as int) == scope_a);
        assert(b.take(scope_b.len() as int) == scope_b);
    }
}

/// The names of the enumerations of two fields of one declaration differ where the
/// capitalised identifiers of the fields differ.
pub proof fn lemma_enum_name_tells_fields_apart(
    scope: Seq<char>,
    ident_a: Seq<char>,
    ident_b: Seq<char>,
)
    requires
        capitalized(ident_a) != capitalized(ident_b),
    ensures
        enum_name(scope, ident_a) != enum_name(scope, ident_b),
{
    let a = enum_name(scope, ident_a);
    let b = enum_name(scope, ident_b);
    let n = scope.len() as int;
    if a == b {
        assert(a.len() == n + capitalized(ident_a).len() + "Option"@.len());
        assert(b.len() == n + capitalized(ident_b).len() + "Option"@.len());
        assert(a.subrange(n, n + capitalized(ident_a).len()) == capitalized(ident_a));
        assert(b.subrange(n, n + capitalized(ident_b).len()) == capitalized(ident_b));
    }
}

} // verus!
