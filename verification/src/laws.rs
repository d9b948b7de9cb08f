//! Laws that relate the connectives, the postulates and the theorems to each
//! other.
use vstd::prelude::*;
use crate::axioms::{absurd, excluded_middle, exfalso, postulate, sorry};
use crate::connectives::{lemma_connective_values, And, False, Not, Or, Prop};
use crate::theorems::feeds;

verus! {

/// There is no genuine evidence of the false proposition: a contradiction is
/// never at hand.
pub proof fn lemma_never_absurd()
    ensures
        !absurd(),
{
}

/// No postulate ever hands back a value: whatever it is asked for, and
/// whatever it is given, a call of one does not return.
pub proof fn lemma_postulates_give_nothing<P: Prop>(p: P, h: False, d: Or<P, Not<P>>)
    ensures
        !call_ensures(postulate::<P>, (), p),
        !call_ensures(sorry::<P>, (), p),
        !call_ensures(exfalso::<P>, (h,), p),
        !call_ensures(excluded_middle::<P>, (), d),
{
}

/// A disjunction holds exactly one side, never both and never neither.
pub proof fn lemma_or_holds_one_side<L: Prop, R: Prop>(d: Or<L, R>)
    ensures
        (d is L) != (d is R),
{
}

/// Exchanging a pair twice gives the pair back. One exchange keeps whether
/// the evidence is genuine, and keeps the truth value of the conjunction.
pub proof fn lemma_and_comm_twice<A: Prop, B: Prop>(h: And<A, B>)
    ensures
        h.swapped().swapped() == h,
        h.swapped().holds() == h.holds(),
        And::<B, A>::VALUE == And::<A, B>::VALUE,
{
    lemma_connective_values::<A, B>();
    lemma_connective_values::<B, A>();
}

/// Moving a disjunction's evidence to the other side twice gives the
/// disjunction back. One move keeps whether the evidence is genuine, and
/// keeps the truth value of the disjunction.
pub proof fn lemma_or_comm_twice<L: Prop, R: Prop>(h: Or<L, R>)
    ensures
        h.swapped().swapped() == h,
        h.swapped().holds() == h.holds(),
        Or::<R, L>::VALUE == Or::<L, R>::VALUE,
{
    lemma_connective_values::<L, R>();
    lemma_connective_values::<R, L>();
}

/// A proposition and its double negation have the same truth value.
pub proof fn lemma_double_negation_value<P: Prop>()
    ensures
        Not::<Not<P>>::VALUE == P::VALUE,
{
    lemma_connective_values::<P, False>();
    lemma_connective_values::<Not<P>, False>();
}

/// Introduction, then elimination: the double negation that was introduced
/// on genuine evidence can be eliminated by every genuine case, and only
/// genuine evidence comes back.
pub proof fn lemma_double_negation_round_trip<P: Prop>(
    p: P,
    nnp: Not<Not<P>>,
    cases: Or<P, Not<P>>,
    back: P,
)
    requires
        p.holds(),
        feeds(nnp, p),
        cases.holds(),
    ensures
        nnp.holds(),
        cases is R ==> nnp.sound_on(cases->R_0),
        cases == Or::<P, Not<P>>::L(back) ==> back.holds(),
{
    assert forall|np: Not<P>| #[trigger] np.holds() implies nnp.sound_on(np) by {
        assert(np.sound_on(p));
    }
}

} // verus!
