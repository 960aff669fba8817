//! The transformer: validate a declaration's shape, honor the false-marker,
//! and construct the declarations to emit.

use vstd::prelude::*;

use crate::decl::{
    case_marked, case_views, clone_annotations, strip_case, BodyV, Case, CaseV, DeclBody, DeclV,
    Declaration,
};

verus! {

/// Why a declaration was rejected. Both violations are fatal: the transformer
/// emits nothing for a rejected declaration.
#[derive(Debug, Clone, Copy, PartialEq, Eq, Structural)]
pub enum ShapeError {
    /// The annotated declaration is not a case-based (sum) type.
    NotEnumType,
    /// The declaration has this number of cases instead of exactly two.
    WrongArity(usize),
}

impl ShapeError {
    /// A human-readable diagnostic naming the violated precondition, for the
    /// host build system's error-reporting channel.
    pub fn message(&self) -> (r: String)
        ensures
            *self is NotEnumType ==> r@ == "the bool_like transformation can only be applied to enums"@,
            *self is WrongArity ==> r@ == "the bool_like transformation requires an enum with exactly two cases"@,
    {
        match self {
            ShapeError::NotEnumType => "the bool_like transformation can only be applied to enums"
                .to_owned(),
            ShapeError::WrongArity(_) => "the bool_like transformation requires an enum with exactly two cases"
                .to_owned(),
        }
    }
}

/// Mathematical model of the emitted negation operation.
#[verifier::ext_equal]
pub ghost struct NegationV {
    pub target_name: Seq<char>,
    pub case1: Seq<char>,
    pub case2: Seq<char>,
}

/// The emitted negation operation on the type named `target_name`: the case
/// named `case1` maps to `case2`, and `case2` maps back to `case1`.
#[derive(Debug)]
pub struct NegationImpl {
    pub target_name: String,
    pub case1: String,
    pub case2: String,
}

impl View for NegationImpl {
    type V = NegationV;

    open spec fn view(&self) -> NegationV {
        NegationV { target_name: self.target_name@, case1: self.case1@, case2: self.case2@ }
    }
}

/// Mathematical model of the emitted conversion pair.
#[verifier::ext_equal]
pub ghost struct ConversionV {
    pub target_name: Seq<char>,
    pub false_case: Seq<char>,
}

/// The emitted pair of conversions between the type named `target_name` and a
/// primitive boolean: the case named `false_case` converts to `false`, its
/// sibling to `true`.
#[derive(Debug)]
pub struct ConversionImpl {
    pub target_name: String,
    pub false_case: String,
}

impl View for ConversionImpl {
    type V = ConversionV;

    open spec fn view(&self) -> ConversionV {
        ConversionV { target_name: self.target_name@, false_case: self.false_case@ }
    }
}

/// Mathematical model of a successful transformation's output.
#[verifier::ext_equal]
pub ghost struct TransformedV {
    pub declaration: DeclV,
    pub negation: NegationV,
    pub conversions: Option<ConversionV>,
}

impl TransformedV {
    /// The output of a transformation is internally consistent: the emitted
    /// declaration has exactly two cases, the negation names the type and its
    /// two cases in declaration order, and any conversion pair names the type
    /// and one of the two cases as the false case.
    pub open spec fn wf(self) -> bool {
        &&& self.negation.target_name == self.declaration.name
        &&& match self.declaration.body {
            BodyV::Cases(cs) => {
                &&& cs.len() == 2
                &&& self.negation.case1 == cs[0].name
                &&& self.negation.case2 == cs[1].name
            },
            BodyV::Structure => false,
        }
        &&& match self.conversions {
            Some(c) => {
                &&& c.target_name == self.declaration.name
                &&& (c.false_case == self.negation.case1 || c.false_case == self.negation.case2)
            },
            None => true,
        }
    }
}

/// The declarations a successful transformation emits.
#[derive(Debug)]
pub struct Transformed {
    /// The input declaration, re-emitted with the false-marker stripped and
    /// otherwise unchanged.
    pub declaration: Declaration,
    /// The negation operation over the declaration's two cases.
    pub negation: NegationImpl,
    /// The boolean conversions, present exactly when a case was marked false.
    pub conversions: Option<ConversionImpl>,
}

impl View for Transformed {
    type V = TransformedV;

    open spec fn view(&self) -> TransformedV {
        TransformedV {
            declaration: self.declaration@,
            negation: self.negation@,
            conversions: match self.conversions {
                Some(c) => Some(c@),
                None => None,
            },
        }
    }
}

/// The two cases after marker extraction: the first marked case, scanned in
/// declaration order, has its false-markers removed; every other case is kept
/// verbatim.
pub open spec fn stripped_two(cs: Seq<CaseV>) -> Seq<CaseV>
    recommends
        cs.len() == 2,
{
    if case_marked(cs[0]) {
        seq![strip_case(cs[0]), cs[1]]
    } else if case_marked(cs[1]) {
        seq![cs[0], strip_case(cs[1])]
    } else {
        cs
    }
}

/// The name of the false case, if any: the first case in declaration order
/// that carries the false-marker.
pub open spec fn false_case_of(cs: Seq<CaseV>) -> Option<Seq<char>>
    recommends
        cs.len() == 2,
{
    if case_marked(cs[0]) {
        Some(cs[0].name)
    } else if case_marked(cs[1]) {
        Some(cs[1].name)
    } else {
        None
    }
}

/// What the transformer produces from a declaration: a shape error for a
/// structure or for a case count other than two; otherwise the marker-stripped
/// declaration, the negation over its two cases, and the conversion pair
/// exactly when a case is marked false.
pub open spec fn transform_spec(d: DeclV) -> Result<TransformedV, ShapeError> {
    match d.body {
        BodyV::Structure => Err(ShapeError::NotEnumType),
        BodyV::Cases(cs) => if cs.len() != 2 {
            Err(ShapeError::WrongArity(cs.len() as usize))
        } else {
            Ok(
                TransformedV {
                    declaration: DeclV {
                        name: d.name,
                        annotations: d.annotations,
                        body: BodyV::Cases(stripped_two(cs)),
                    },
                    negation: NegationV { target_name: d.name, case1: cs[0].name, case2: cs[1].name },
                    conversions: match false_case_of(cs) {
                        Some(f) => Some(ConversionV { target_name: d.name, false_case: f }),
                        None => None,
                    },
                },
            )
        },
    }
}

/// Validate `decl` and construct the declarations to emit: the declaration
/// itself with the false-marker stripped, the negation operation over its two
/// cases, and, exactly when a case carries the false-marker, the two boolean
/// conversions. Rejection is total: a structure or a case count other than two
/// yields an error and nothing is emitted.
pub fn transform(decl: &Declaration) -> (r: Result<Transformed, ShapeError>)
    ensures
        (match r {
            Ok(t) => transform_spec(decl@) == Ok::<TransformedV, ShapeError>(t@),
            Err(e) => transform_spec(decl@) == Err::<TransformedV, ShapeError>(e),
        }),
        r is Ok <==> (decl@.body matches BodyV::Cases(cs) && cs.len() == 2),
{
    let cases: &Vec<Case> = match &decl.body {
        DeclBody::Structure => {
            return Err(ShapeError::NotEnumType);
        },
        DeclBody::Cases(cs) => cs,
    };
    if cases.len() != 2 {
        return Err(ShapeError::WrongArity(cases.len()));
    }
    let ghost cs: Seq<CaseV> = case_views(cases@);
    let negation = NegationImpl {
        target_name: decl.name.clone(),
        case1: cases[0].name.clone(),
        case2: cases[1].name.clone(),
    };
    // Scan the two cases in declaration order; only the first marked case is
    // honored and stripped.
    let mut out_cases: Vec<Case> = Vec::new();
    let mut false_name: Option<String> = None;
    if cases[0].has_false_marker() {
        false_name = Some(cases[0].name.clone());
        out_cases.push(cases[0].without_false_markers());
        out_cases.push(cases[1].clone());
    } else if cases[1].has_false_marker() {
        false_name = Some(cases[1].name.clone());
        out_cases.push(cases[0].clone());
        out_cases.push(cases[1].without_false_markers());
    } else {
        out_cases.push(cases[0].clone());
        out_cases.push(cases[1].clone());
    }
    proof {
        assert(case_views(out_cases@) =~= stripped_two(cs));
    }
    let conversions = match false_name {
        Some(f) => Some(ConversionImpl { target_name: decl.name.clone(), false_case: f }),
        None => None,
    };
    let declaration = Declaration {
        name: decl.name.clone(),
        annotations: clone_annotations(&decl.annotations),
        body: DeclBody::Cases(out_cases),
    };
    let result = Transformed { declaration, negation, conversions };
    proof {
        assert(result@ =~= transform_spec(decl@)->Ok_0);
    }
    Ok(result)
}

/// Every successful transformation is well formed; and when the input is a
/// valid declaration (distinct case names), the two cases the negation maps
/// between are distinct.
pub proof fn lemma_transform_wf(d: DeclV)
    requires
        transform_spec(d) is Ok,
    ensures
        transform_spec(d)->Ok_0.wf(),
        d.wf() ==> transform_spec(d)->Ok_0.negation.case1 != transform_spec(d)->Ok_0.negation.case2,
{
}

/// No-marker omission: a successful transformation emits the conversion pair
/// exactly when one of the two cases carries the false-marker; with no marker,
/// no conversion operations exist in the output.
pub proof fn lemma_no_marker_omission(d: DeclV)
    requires
        transform_spec(d) is Ok,
    ensures
        transform_spec(d)->Ok_0.conversions is None <==> (d.body matches BodyV::Cases(cs)
            && !case_marked(cs[0]) && !case_marked(cs[1])),
{
}

} // verus!
