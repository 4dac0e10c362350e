//! The schema model: the decoded protocol description, read and never changed.

use vstd::prelude::*;

verus! {

/// The shape discriminator of a schema type node.
#[derive(Clone, Copy, Debug, PartialEq, Eq)]
pub enum TypeEnum {
    Boolean,
    Integer,
    Number,
    String,
    Any,
    Array,
    Object,
}

/// The element shape of an array: a reference to a declared type, or a nested shape.
/// A nested array shape carries its own element shape in `items`.
#[derive(Debug, PartialEq, Eq)]
pub struct Items {
    pub items_type: Option<TypeEnum>,
    pub items_ref: Option<String>,
    pub items: Option<Box<Items>>,
}

/// A field of an object, a command or an event.
#[derive(Clone, Debug, PartialEq, Eq)]
pub struct Parameter {
    pub name: String,
    pub parameter_type: Option<TypeEnum>,
    pub parameter_ref: Option<String>,
    pub optional: bool,
    pub parameter_enum: Option<Vec<String>>,
    pub items: Option<Items>,
}

/// A named type declaration of a domain.
#[derive(Clone, Debug, PartialEq, Eq)]
pub struct TypeElement {
    pub id: String,
    pub type_type: TypeEnum,
    pub type_enum: Option<Vec<String>>,
    pub properties: Option<Vec<Parameter>>,
    pub items: Option<Items>,
}

/// A remote call of a domain.
#[derive(Clone, Debug, PartialEq, Eq)]
pub struct Command {
    pub name: String,
    pub parameters: Option<Vec<Parameter>>,
    pub returns: Option<Vec<Parameter>>,
}

/// A notification of a domain.
#[derive(Clone, Debug, PartialEq, Eq)]
pub struct Event {
    pub name: String,
    pub parameters: Option<Vec<Parameter>>,
}

/// A named namespace of types, commands and events.
#[derive(Clone, Debug, PartialEq, Eq)]
pub struct Domain {
    pub domain: String,
    pub dependencies: Option<Vec<String>>,
    pub types: Option<Vec<TypeElement>>,
    pub commands: Vec<Command>,
    pub events: Option<Vec<Event>>,
}

/// The whole schema: every domain, in order.
#[derive(Clone, Debug, PartialEq, Eq)]
pub struct Protocol {
    pub domains: Vec<Domain>,
}

/// The type ids that `d` declares include `name`.
pub open spec fn domain_declares(d: Domain, name: Seq<char>) -> bool {
    d.types is Some && exists|j: int|
        0 <= j < d.types->0@.len() && (#[trigger] d.types->0@[j]).id@ == name
}

/// Some domain called `domain` declares a type with id `name`.
pub open spec fn declares(p: Protocol, domain: Seq<char>, name: Seq<char>) -> bool {
    exists|i: int|
        0 <= i < p.domains@.len() && (#[trigger] p.domains@[i]).domain@ == domain
            && domain_declares(p.domains@[i], name)
}

impl Items {
    /// A copy of this shape and of every shape nested in it.
    pub fn duplicate(&self) -> (r: Items)
        ensures
            r == *self,
        decreases self,
    {
        Items {
            items_type: self.items_type,
            items_ref: match &self.items_ref {
                Some(s) => Some(s.clone()),
                None => None,
            },
            items: match &self.items {
                Some(inner) => Some(Box::new(inner.duplicate())),
                None => None,
            },
        }
    }
}

impl Clone for Items {
    fn clone(&self) -> (r: Self)
        ensures
            r == *self,
    {
        self.duplicate()
    }
}

impl Domain {
    /// Whether this domain declares a type with id `name`.
    pub fn declares_type(&self, name: &String) -> (r: bool)
        ensures
            r == domain_declares(*self, name@),
    {
        match &self.types {
            None => false,
            Some(types) => {
                let mut j: usize = 0;
                while j < types.len()
                    invariant
                        j <= types.len(),
                        self.types == Some(*types),
                        forall|k: int| 0 <= k < j ==> (#[trigger] types@[k]).id@ != name@,
                    decreases types.len() - j,
                {
                    if types[j].id == *name {
                        return true;
                    }
                    j += 1;
                }
                false
            },
        }
    }
}

impl Protocol {
    /// Whether some domain called `domain` declares a type with id `name`.
    pub fn declares_type(&self, domain: &String, name: &String) -> (r: bool)
        ensures
            r == declares(*self, domain@, name@),
    {
        let mut i: usize = 0;
        while i < self.domains.len()
            invariant
                i <= self.domains.len(),
                forall|k: int|
                    0 <= k < i ==> !((#[trigger] self.domains@[k]).domain@ == domain@
                        && domain_declares(self.domains@[k], name@)),
            decreases self.domains.len() - i,
        {
            if self.domains[i].domain == *domain && self.domains[i].declares_type(name) {
                return true;
            }
            i += 1;
        }
        false
    }
}

} // verus!
