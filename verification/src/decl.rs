//! The structural representation of a type declaration, and the false-marker
//! directive that may be attached to one of its cases.

use vstd::prelude::*;

verus! {

/// An annotation attached to a declaration or to one of its cases, identified
/// by its path name. Decorative annotations are preserved verbatim by the
/// transformer; the one named `into_false` is the transformer's own directive.
#[derive(Debug)]
pub struct Annotation {
    pub name: String,
}

impl View for Annotation {
    type V = Seq<char>;

    open spec fn view(&self) -> Seq<char> {
        self.name@
    }
}

/// The name of the false-marker directive.
pub open spec fn marker_name() -> Seq<char> {
    "into_false"@
}

/// Whether an annotation (given by its name) is the false-marker directive.
pub open spec fn is_marker(a: Seq<char>) -> bool {
    a == marker_name()
}

/// The names of a sequence of annotations, in order.
pub open spec fn annotation_views(s: Seq<Annotation>) -> Seq<Seq<char>> {
    s.map_values(|x: Annotation| x@)
}

impl Annotation {
    /// Whether this annotation is the false-marker directive.
    pub fn is_false_marker(&self) -> (r: bool)
        ensures
            r == is_marker(self@),
    {
        self.name == "into_false".to_owned()
    }
}

impl Clone for Annotation {
    fn clone(&self) -> (r: Self)
        ensures
            r@ == self@,
    {
        Annotation { name: self.name.clone() }
    }
}

/// Mathematical model of a case: its identifier and the names of its
/// annotations, in declaration order.
#[verifier::ext_equal]
pub ghost struct CaseV {
    pub name: Seq<char>,
    pub annotations: Seq<Seq<char>>,
}

/// One case of a case-based (sum) declaration: an identifier carrying no data,
/// with its attached annotations.
#[derive(Debug)]
pub struct Case {
    pub name: String,
    pub annotations: Vec<Annotation>,
}

impl View for Case {
    type V = CaseV;

    open spec fn view(&self) -> CaseV {
        CaseV { name: self.name@, annotations: annotation_views(self.annotations@) }
    }
}

/// Whether some annotation of the case is the false-marker.
pub open spec fn case_marked(c: CaseV) -> bool {
    exists|i: int| 0 <= i < c.annotations.len() && is_marker(c.annotations[i])
}

/// The annotation list with every false-marker removed.
pub open spec fn strip_markers(annotations: Seq<Seq<char>>) -> Seq<Seq<char>> {
    annotations.filter(|a: Seq<char>| !is_marker(a))
}

/// The case with every false-marker removed from its annotation list.
pub open spec fn strip_case(c: CaseV) -> CaseV {
    CaseV { name: c.name, annotations: strip_markers(c.annotations) }
}

proof fn lemma_strip_take_step(s: Seq<Seq<char>>, i: int)
    requires
        0 <= i < s.len(),
    ensures
        strip_markers(s.take(i + 1)) == if is_marker(s[i]) {
            strip_markers(s.take(i))
        } else {
            strip_markers(s.take(i)).push(s[i])
        },
{
    reveal_with_fuel(Seq::filter, 2);
    assert(s.take(i + 1).drop_last() =~= s.take(i));
    assert(s.take(i + 1).last() == s[i]);
}

impl Case {
    /// Whether any annotation of this case is the false-marker, scanning the
    /// annotation list in order.
    pub fn has_false_marker(&self) -> (r: bool)
        ensures
            r == case_marked(self@),
    {
        let mut i: usize = 0;
        while i < self.annotations.len()
            invariant
                i <= self.annotations.len(),
                forall|j: int| 0 <= j < i ==> !is_marker(self@.annotations[j]),
            decreases self.annotations.len() - i,
        {
            if self.annotations[i].is_false_marker() {
                assert(is_marker(self@.annotations[i as int]));
                return true;
            }
            i = i + 1;
        }
        false
    }

    /// A copy of this case with every false-marker removed from its
    /// annotation list, other annotations kept verbatim and in order.
    pub fn without_false_markers(&self) -> (r: Case)
        ensures
            r@ == strip_case(self@),
    {
        let mut kept: Vec<Annotation> = Vec::new();
        let mut i: usize = 0;
        while i < self.annotations.len()
            invariant
                i <= self.annotations.len(),
                annotation_views(kept@) == strip_markers(self@.annotations.take(i as int)),
            decreases self.annotations.len() - i,
        {
            proof {
                lemma_strip_take_step(self@.annotations, i as int);
            }
            let a = &self.annotations[i];
            if !a.is_false_marker() {
                kept.push(a.clone());
            }
            i = i + 1;
            assert(annotation_views(kept@) =~= strip_markers(
                self@.annotations.take(i as int),
            ));
        }
        proof {
            assert(self@.annotations.take(self.annotations.len() as int) =~= self@.annotations);
        }
        let r = Case { name: self.name.clone(), annotations: kept };
        proof {
            assert(r@ =~= strip_case(self@));
        }
        r
    }
}

impl Clone for Case {
    fn clone(&self) -> (r: Self)
        ensures
            r@ == self@,
    {
        let r = Case { name: self.name.clone(), annotations: clone_annotations(&self.annotations) };
        proof {
            assert(r@ =~= self@);
        }
        r
    }
}

proof fn lemma_annotation_views_push(s: Seq<Annotation>, a: Annotation)
    ensures
        annotation_views(s.push(a)) == annotation_views(s).push(a@),
{
    assert(annotation_views(s.push(a)) =~= annotation_views(s).push(a@));
}

/// An element-wise copy of an annotation list, preserving every name.
pub fn clone_annotations(v: &Vec<Annotation>) -> (r: Vec<Annotation>)
    ensures
        annotation_views(r@) == annotation_views(v@),
{
    let mut r: Vec<Annotation> = Vec::new();
    let mut i: usize = 0;
    while i < v.len()
        invariant
            i <= v.len(),
            annotation_views(r@) == annotation_views(v@.take(i as int)),
        decreases v.len() - i,
    {
        let a = v[i].clone();
        proof {
            lemma_annotation_views_push(r@, a);
            assert(v@.take(i as int + 1) =~= v@.take(i as int).push(v@[i as int]));
            lemma_annotation_views_push(v@.take(i as int), v@[i as int]);
        }
        r.push(a);
        i = i + 1;
    }
    proof {
        assert(v@.take(v.len() as int) =~= v@);
    }
    r
}

/// Mathematical model of a declaration body: either case-based (sum) with its
/// ordered cases, or a structure (product).
#[verifier::ext_equal]
pub ghost enum BodyV {
    Cases(Seq<CaseV>),
    Structure,
}

/// The body of a declaration: either case-based (sum) with its ordered cases,
/// or a structure (product) that the transformer rejects.
#[derive(Debug)]
pub enum DeclBody {
    Cases(Vec<Case>),
    Structure,
}

/// The models of a sequence of cases, in order.
pub open spec fn case_views(s: Seq<Case>) -> Seq<CaseV> {
    s.map_values(|x: Case| x@)
}

impl View for DeclBody {
    type V = BodyV;

    open spec fn view(&self) -> BodyV {
        match *self {
            DeclBody::Cases(cs) => BodyV::Cases(case_views(cs@)),
            DeclBody::Structure => BodyV::Structure,
        }
    }
}

/// Mathematical model of a declaration.
#[verifier::ext_equal]
pub ghost struct DeclV {
    pub name: Seq<char>,
    pub annotations: Seq<Seq<char>>,
    pub body: BodyV,
}

impl DeclV {
    /// A valid declaration names its cases with distinct identifiers, as the
    /// host language requires of an enumerated type.
    pub open spec fn wf(self) -> bool {
        match self.body {
            BodyV::Cases(cs) => forall|i: int, j: int|
                #![trigger cs[i], cs[j]]
                0 <= i < j < cs.len() ==> cs[i].name != cs[j].name,
            BodyV::Structure => true,
        }
    }
}

/// The structural representation of a type declaration: its name, its
/// declaration-level annotations, and its body.
#[derive(Debug)]
pub struct Declaration {
    pub name: String,
    pub annotations: Vec<Annotation>,
    pub body: DeclBody,
}

impl View for Declaration {
    type V = DeclV;

    open spec fn view(&self) -> DeclV {
        DeclV {
            name: self.name@,
            annotations: annotation_views(self.annotations@),
            body: self.body@,
        }
    }
}

} // verus!
