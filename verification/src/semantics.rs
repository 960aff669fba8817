//! The meaning of the emitted operations, and the laws they obey.
//!
//! A value of the transformed type is named by its case identifier. The
//! functions here compute exactly what the emitted implementations compute, so
//! the laws proved about them hold of the generated code's behaviour.

use vstd::prelude::*;

use crate::decl::DeclV;
use crate::transform::{
    lemma_transform_wf, transform_spec, ConversionImpl, ConversionV, NegationImpl, NegationV,
};

verus! {

/// What the emitted negation computes: the case named `case1` maps to `case2`,
/// and the case named `case2` maps back to `case1`.
pub open spec fn negate_spec(n: NegationV, v: Seq<char>) -> Seq<char> {
    if v == n.case1 {
        n.case2
    } else {
        n.case1
    }
}

/// What the emitted conversion to boolean computes: the marked false case maps
/// to `false`; any other value of the type maps to `true`.
pub open spec fn to_bool_spec(c: ConversionV, v: Seq<char>) -> bool {
    v != c.false_case
}

/// What the emitted conversion from boolean computes: `false` maps to the
/// marked false case, and `true` maps to its negation.
pub open spec fn from_bool_spec(n: NegationV, c: ConversionV, b: bool) -> Seq<char> {
    if b {
        negate_spec(n, c.false_case)
    } else {
        c.false_case
    }
}

impl NegationImpl {
    /// Apply the emitted negation to a value of the target type, given by its
    /// case name.
    pub fn negate(&self, v: &String) -> (r: String)
        requires
            v@ == self@.case1 || v@ == self@.case2,
        ensures
            r@ == negate_spec(self@, v@),
    {
        if *v == self.case1 {
            self.case2.clone()
        } else {
            self.case1.clone()
        }
    }
}

impl ConversionImpl {
    /// Apply the emitted conversion from the target type to a boolean.
    pub fn to_bool(&self, v: &String) -> (r: bool)
        ensures
            r == to_bool_spec(self@, v@),
    {
        !(*v == self.false_case)
    }

    /// Apply the emitted conversion from a boolean to the target type. As in
    /// the emitted code, `true` is sent through the negation operation rather
    /// than naming the true case a second time.
    pub fn from_bool(&self, negation: &NegationImpl, b: bool) -> (r: String)
        requires
            self@.false_case == negation@.case1 || self@.false_case == negation@.case2,
        ensures
            r@ == from_bool_spec(negation@, self@, b),
    {
        if b {
            negation.negate(&self.false_case)
        } else {
            self.false_case.clone()
        }
    }
}

/// Involution: negating a value of the type twice returns the value, for both
/// case values.
pub proof fn lemma_negation_involutive(n: NegationV, v: Seq<char>)
    requires
        v == n.case1 || v == n.case2,
    ensures
        negate_spec(n, negate_spec(n, v)) == v,
{
}

/// Exhaustive swap: negation sends the first case to the second and the second
/// back to the first.
pub proof fn lemma_negation_swaps(n: NegationV)
    ensures
        negate_spec(n, n.case1) == n.case2,
        negate_spec(n, n.case2) == n.case1,
{
}

/// Marker round trip: with false case F and true case T = negate(F), the
/// conversions send F to `false` and T to `true`, and send `false` back to F
/// and `true` back to T. The two case names are distinct, as the host language
/// requires of an enumerated type.
pub proof fn lemma_marker_round_trip(n: NegationV, c: ConversionV)
    requires
        n.case1 != n.case2,
        c.false_case == n.case1 || c.false_case == n.case2,
    ensures
        to_bool_spec(c, c.false_case) == false,
        to_bool_spec(c, negate_spec(n, c.false_case)) == true,
        from_bool_spec(n, c, false) == c.false_case,
        from_bool_spec(n, c, true) == negate_spec(n, c.false_case),
{
}

/// Conversion and negation are consistent: converting the negation of a value
/// gives the complement of converting the value, for both case values.
pub proof fn lemma_to_bool_negate(n: NegationV, c: ConversionV, v: Seq<char>)
    requires
        n.case1 != n.case2,
        c.false_case == n.case1 || c.false_case == n.case2,
        v == n.case1 || v == n.case2,
    ensures
        to_bool_spec(c, negate_spec(n, v)) == !to_bool_spec(c, v),
{
}

/// The laws above, at the output of the transformer: for every valid
/// declaration that transforms successfully and every value `v` of the
/// transformed type, the emitted negation swaps the two cases and undoes
/// itself; and whenever the conversions are emitted, they round-trip between
/// the false case, its negation and the booleans, and agree with negation.
pub proof fn lemma_transformed_laws(d: DeclV, v: Seq<char>)
    requires
        d.wf(),
        transform_spec(d) is Ok,
        ({
            let t = transform_spec(d)->Ok_0;
            v == t.negation.case1 || v == t.negation.case2
        }),
    ensures
        ({
            let t = transform_spec(d)->Ok_0;
            &&& negate_spec(t.negation, t.negation.case1) == t.negation.case2
            &&& negate_spec(t.negation, t.negation.case2) == t.negation.case1
            &&& negate_spec(t.negation, negate_spec(t.negation, v)) == v
            &&& (t.conversions matches Some(c) ==> {
                &&& to_bool_spec(c, c.false_case) == false
                &&& to_bool_spec(c, negate_spec(t.negation, c.false_case)) == true
                &&& from_bool_spec(t.negation, c, false) == c.false_case
                &&& from_bool_spec(t.negation, c, true) == negate_spec(t.negation, c.false_case)
                &&& to_bool_spec(c, negate_spec(t.negation, v)) == !to_bool_spec(c, v)
            })
        }),
{
    lemma_transform_wf(d);
    let t = transform_spec(d)->Ok_0;
    lemma_negation_involutive(t.negation, v);
    lemma_negation_swaps(t.negation);
    match t.conversions {
        Some(c) => {
            lemma_marker_round_trip(t.negation, c);
            lemma_to_bool_negate(t.negation, c, v);
        },
        None => {},
    }
}

} // verus!
