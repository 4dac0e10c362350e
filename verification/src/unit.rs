//! The emission unit of one domain: the lists that compiling the domain fills,
//! and the tracker of the domains it imports.

use crate::decl::{
    objects_wf, EnumDecl, EnumDeclView, EventUnionVariant, EventUnionVariantView, MethodBinding,
    MethodBindingView, ObjectDecl, ObjectDeclView, TypeAlias, TypeAliasView,
};
use crate::views::{lemma_views_push, option_view, views};
use vstd::prelude::*;
use vstd::string::*;

verus! {

/// `imports` with `segment` registered: added at the end unless it is there already.
pub open spec fn registered(imports: Seq<Seq<char>>, segment: Seq<char>) -> Seq<Seq<char>> {
    if imports.contains(segment) {
        imports
    } else {
        imports.push(segment)
    }
}

/// Registering keeps a list free of duplicates and loses nothing of it; the
/// segment is in it afterwards, and registering it once more changes nothing.
pub proof fn lemma_registered_once(imports: Seq<Seq<char>>, segment: Seq<char>)
    requires
        imports.no_duplicates(),
    ensures
        registered(imports, segment).no_duplicates(),
        registered(imports, segment).contains(segment),
        forall|s: Seq<char>| imports.contains(s) ==> registered(imports, segment).contains(s),
        registered(registered(imports, segment), segment) == registered(imports, segment),
{
    let after = registered(imports, segment);
    if !imports.contains(segment) {
        assert(after[imports.len() as int] == segment);
        assert forall|s: Seq<char>| imports.contains(s) implies after.contains(s) by {
            let i = choose|i: int| 0 <= i < imports.len() && imports[i] == s;
            assert(after[i] == s);
        }
    }
}

/// The domains that one emission unit imports, each held once, in the order in
/// which they were first registered.
#[derive(Debug, PartialEq, Eq)]
pub struct DependencyTracker {
    segments: Vec<String>,
}

impl View for DependencyTracker {
    type V = Seq<Seq<char>>;

    closed spec fn view(&self) -> Seq<Seq<char>> {
        views(self.segments@)
    }
}

impl DependencyTracker {
    #[verifier::type_invariant]
    spec fn distinct(self) -> bool {
        views(self.segments@).no_duplicates()
    }

    /// A tracker that holds nothing.
    pub fn new() -> (r: DependencyTracker)
        ensures
            r@ == Seq::<Seq<char>>::empty(),
    {
        let r = DependencyTracker { segments: Vec::new() };
        assert(views(r.segments@) =~= Seq::<Seq<char>>::empty());
        r
    }

    /// Whether `segment` is registered.
    pub fn holds(&self, segment: &String) -> (r: bool)
        ensures
            r == self@.contains(segment@),
    {
        let mut i: usize = 0;
        while i < self.segments.len()
            invariant
                i <= self.segments.len(),
                forall|k: int| 0 <= k < i ==> views(self.segments@)[k] != segment@,
            decreases self.segments.len() - i,
        {
            if self.segments[i] == *segment {
                assert(views(self.segments@)[i as int] == segment@);
                return true;
            }
            i += 1;
        }
        false
    }

    /// This tracker with `segment` registered: added at the end unless it is
    /// registered already.
    pub fn register(self, segment: String) -> (r: DependencyTracker)
        ensures
            r@ == registered(self@, segment@),
    {
        proof {
            use_type_invariant(&self);
            lemma_registered_once(self@, segment@);
        }
        if self.holds(&segment) {
            self
        } else {
            let mut segments = self.segments;
            proof {
                lemma_views_push(segments@, segment);
            }
            segments.push(segment);
            DependencyTracker { segments }
        }
    }

    /// The registered segments, in order of registration. No segment occurs twice.
    pub fn into_segments(self) -> (r: Vec<String>)
        ensures
            views(r@) == self@,
            views(r@).no_duplicates(),
    {
        proof {
            use_type_invariant(&self);
        }
        self.segments
    }

    /// The registered segments, in order of registration. No segment occurs twice.
    pub fn segments(&self) -> (r: &Vec<String>)
        ensures
            views(r@) == self@,
            views(r@).no_duplicates(),
    {
        proof {
            use_type_invariant(self);
        }
        &self.segments
    }
}

impl Clone for DependencyTracker {
    fn clone(&self) -> (r: Self)
        ensures
            r@ == self@,
    {
        proof {
            use_type_invariant(self);
        }
        let mut segments: Vec<String> = Vec::new();
        let mut i: usize = 0;
        while i < self.segments.len()
            invariant
                i <= self.segments.len(),
                views(segments@) == views(self.segments@).take(i as int),
            decreases self.segments.len() - i,
        {
            proof {
                lemma_views_push(segments@, self.segments@[i as int]);
            }
            segments.push(self.segments[i].clone());
            i += 1;
        }
        assert(views(self.segments@).take(i as int) == views(self.segments@));
        DependencyTracker { segments }
    }
}

/// The lists that compiling one domain fills.
#[derive(Clone, Debug, PartialEq, Eq)]
pub struct DomainUnit {
    pub domain: String,
    pub imports: DependencyTracker,
    pub aliases: Vec<TypeAlias>,
    pub enums: Vec<EnumDecl>,
    pub objects: Vec<ObjectDecl>,
    pub parameters: Vec<ObjectDecl>,
    pub returns: Vec<ObjectDecl>,
    pub methods: Vec<MethodBinding>,
    pub events: Vec<ObjectDecl>,
    pub union_variants: Vec<EventUnionVariant>,
}

/// The view of [`DomainUnit`]: the same shape over `Seq`.
pub ghost struct DomainUnitView {
    pub domain: Seq<char>,
    pub imports: Seq<Seq<char>>,
    pub aliases: Seq<TypeAliasView>,
    pub enums: Seq<EnumDeclView>,
    pub objects: Seq<ObjectDeclView>,
    pub parameters: Seq<ObjectDeclView>,
    pub returns: Seq<ObjectDeclView>,
    pub methods: Seq<MethodBindingView>,
    pub events: Seq<ObjectDeclView>,
    pub union_variants: Seq<EventUnionVariantView>,
}

impl View for DomainUnit {
    type V = DomainUnitView;

    open spec fn view(&self) -> DomainUnitView {
        DomainUnitView {
            domain: self.domain@,
            imports: self.imports@,
            aliases: views(self.aliases@),
            enums: views(self.enums@),
            objects: views(self.objects@),
            parameters: views(self.parameters@),
            returns: views(self.returns@),
            methods: views(self.methods@),
            events: views(self.events@),
            union_variants: views(self.union_variants@),
        }
    }
}

impl DomainUnitView {
    /// The unit of a domain before anything is compiled into it.
    pub open spec fn empty(domain: Seq<char>) -> DomainUnitView {
        DomainUnitView {
            domain,
            imports: Seq::empty(),
            aliases: Seq::empty(),
            enums: Seq::empty(),
            objects: Seq::empty(),
            parameters: Seq::empty(),
            returns: Seq::empty(),
            methods: Seq::empty(),
            events: Seq::empty(),
            union_variants: Seq::empty(),
        }
    }

    /// The unit is sound: no domain is imported twice, and every object
    /// declaration is sound.
    pub open spec fn wf(self) -> bool {
        &&& self.imports.no_duplicates()
        &&& objects_wf(self.objects)
        &&& objects_wf(self.parameters)
        &&& objects_wf(self.returns)
        &&& objects_wf(self.events)
    }

    /// This unit with `segment` registered as an import, if there is one.
    pub open spec fn importing(self, segment: Option<Seq<char>>) -> DomainUnitView {
        match segment {
            Some(s) => DomainUnitView { imports: registered(self.imports, s), ..self },
            None => self,
        }
    }

    /// This unit with one more enumeration, if there is one.
    pub open spec fn declaring(self, side_enum: Option<EnumDeclView>) -> DomainUnitView {
        match side_enum {
            Some(e) => DomainUnitView { enums: self.enums.push(e), ..self },
            None => self,
        }
    }
}

impl DomainUnit {
    /// This unit with an import registered and an enumeration declared, where
    /// there is one.
    pub fn note(self, import: Option<String>, side_enum: Option<EnumDecl>) -> (r: DomainUnit)
        ensures
            r@ == self@.importing(option_view(import)).declaring(option_view(side_enum)),
    {
        let mut unit = self;
        match import {
            Some(segment) => {
                unit.imports = unit.imports.register(segment);
            },
            None => {},
        }
        match side_enum {
            Some(e) => {
                proof {
                    lemma_views_push(unit.enums@, e);
                }
                unit.enums.push(e);
            },
            None => {},
        }
        unit
    }

    /// The unit of a domain before anything is compiled into it.
    pub fn new(domain: String) -> (r: DomainUnit)
        ensures
            r@ == DomainUnitView::empty(domain@),
    {
        let r = DomainUnit {
            domain,
            imports: DependencyTracker::new(),
            aliases: Vec::new(),
            enums: Vec::new(),
            objects: Vec::new(),
            parameters: Vec::new(),
            returns: Vec::new(),
            methods: Vec::new(),
            events: Vec::new(),
            union_variants: Vec::new(),
        };
        assert(r@.aliases =~= Seq::empty());
        assert(r@.enums =~= Seq::empty());
        assert(r@.objects =~= Seq::empty());
        assert(r@.parameters =~= Seq::empty());
        assert(r@.returns =~= Seq::empty());
        assert(r@.methods =~= Seq::empty());
        assert(r@.events =~= Seq::empty());
        assert(r@.union_variants =~= Seq::empty());
        r
    }
}

} // verus!
