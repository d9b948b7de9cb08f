//! Theorems: functions from evidence of a hypothesis to evidence of a
//! conclusion. The constructive ones work on any evidence. The classical ones
//! rest on the excluded middle, and can be run only with its case handed in.
use vstd::prelude::*;
use crate::axioms::{absurd, excluded_middle, exfalso};
use crate::connectives::{And, Equal, False, Imply, Not, Or, Prop};

verus! {

/// Conjunction commutes: the pair, exchanged.
pub fn and_comm<A: Prop, B: Prop>(h: And<A, B>) -> (r: And<B, A>)
    ensures
        r == h.swapped(),
        r.holds() == h.holds(),
{
    And(h.1, h.0)
}

/// Disjunction commutes: the same evidence, on the other side.
pub fn or_comm<L: Prop, R: Prop>(h: Or<L, R>) -> (r: Or<R, L>)
    ensures
        r == h.swapped(),
        r.holds() == h.holds(),
{
    match h {
        Or::L(l) => Or::R(l),
        Or::R(r) => Or::L(r),
    }
}

/// Whether `r` refutes a refutation by handing it `p`: it may be applied to
/// every `np` that may be applied to `p`, and gives only what `np` gives on
/// `p`.
pub open spec fn feeds<P: Prop>(r: Not<Not<P>>, p: P) -> bool {
    &&& forall|np: Not<P>| np.pre(p) ==> #[trigger] r.pre(np)
    &&& forall|np: Not<P>, o: False| #[trigger] r.post(np, o) ==> np.post(p, o)
}

/// Whether a transformer is barren: whatever it is applied to, it gives
/// nothing back.
pub open spec fn barren<P: Prop, Q: Prop>(r: Imply<P, Q>) -> bool {
    forall|p: P, q: Q| !#[trigger] r.post(p, q)
}

/// Double negation, introduced: given `p`, whoever refutes `P` is refuted by
/// being applied to `p`.
pub fn double_negation_introduction<P: Prop>(p: P) -> (r: Not<Not<P>>)
    ensures
        feeds(r, p),
        p.holds() ==> r.holds(),
{
    let feed = move |np: Not<P>| -> (o: False)
        requires
            np.pre(p),
        ensures
            np.post(p, o),
        {
            np.apply(p)
        };
    let r = Imply::new(feed);
    assert(p.holds() ==> r.holds()) by {
        if p.holds() {
            assert forall|np: Not<P>| #[trigger] np.holds() implies r.sound_on(np) by {
                assert(np.sound_on(p));
            }
        }
    }
    r
}

/// Double negation, eliminated by cases. Where `cases` holds `P`, that
/// evidence is the result. Where it holds a refutation, `nnp` is applied to
/// it, which must then be allowed and must give nothing back: there is no
/// way on from a contradiction.
pub fn double_negation_elimination_by<P: Prop>(cases: Or<P, Not<P>>, nnp: Not<Not<P>>) -> (p: P)
    requires
        cases is R ==> nnp.sound_on(cases->R_0),
    ensures
        cases == Or::<P, Not<P>>::L(p),
{
    match cases {
        Or::L(p) => p,
        Or::R(np) => exfalso(nnp.apply(np)),
    }
}

/// Double negation, eliminated. The case comes from the excluded middle, so
/// this can be called only where a contradiction is at hand.
pub fn double_negation_elimination<P: Prop>(nnp: Not<Not<P>>) -> (p: P)
    requires
        absurd(),
    ensures
        p.holds(),
        absurd(),
{
    double_negation_elimination_by(excluded_middle(), nnp)
}

/// `P` is equivalent to its double negation. The first direction introduces
/// the double negation and is genuine. The second eliminates it and is
/// barren.
pub fn double_negation<P: Prop>() -> (r: Equal<P, Not<Not<P>>>)
    ensures
        forall|p: P| #[trigger] r.0.pre(p),
        forall|p: P, nnp: Not<Not<P>>| #[trigger] r.0.post(p, nnp) ==> feeds(nnp, p),
        r.0.holds(),
        barren(r.1),
{
    let there = |p: P| -> (nnp: Not<Not<P>>)
        ensures
            feeds(nnp, p),
            p.holds() ==> nnp.holds(),
        {
            double_negation_introduction(p)
        };
    let back = |nnp: Not<Not<P>>| -> (p: P)
        requires
            absurd(),
        ensures
            absurd(),
        {
            double_negation_elimination(nnp)
        };
    And(Imply::new(there), Imply::new(back))
}

/// Whether `c` is `first` followed by `then`: it may be applied wherever the
/// two can be run in a row, and gives only what they give in a row.
pub open spec fn chains<P: Prop, Q: Prop, R: Prop>(
    c: Imply<P, R>,
    first: Imply<P, Q>,
    then: Imply<Q, R>,
) -> bool {
    &&& forall|p: P|
        first.pre(p) && (forall|q: Q| #[trigger] first.post(p, q) ==> then.pre(q)) ==> #[trigger] c.pre(p)
    &&& forall|p: P, r: R| #[trigger]
        c.post(p, r) ==> exists|q: Q| #[trigger] first.post(p, q) && then.post(q, r)
}

/// Whether `r` is the contrapositive of `h`: it may be applied to every
/// refutation of `Q`, and gives only `h` followed by that refutation.
pub open spec fn contraposes<P: Prop, Q: Prop>(r: Imply<Not<Q>, Not<P>>, h: Imply<P, Q>) -> bool {
    &&& forall|nq: Not<Q>| #[trigger] r.pre(nq)
    &&& forall|nq: Not<Q>, np: Not<P>| #[trigger] r.post(nq, np) ==> chains(np, h, nq)
}

/// Contraposition, forward: if `P` implies `Q`, whoever refutes `Q` refutes
/// `P`, by running the implication first.
pub fn contraposition_forward<P: Prop, Q: Prop>(h: Imply<P, Q>) -> (r: Imply<Not<Q>, Not<P>>)
    ensures
        contraposes(r, h),
        h.holds() ==> r.holds(),
{
    let contrapose = move |nq: Not<Q>| -> (np: Not<P>)
        ensures
            chains(np, h, nq),
        {
            let chain = move |p: P| -> (o: False)
                requires
                    h.pre(p),
                    forall|q: Q| #[trigger] h.post(p, q) ==> nq.pre(q),
                ensures
                    exists|q: Q| #[trigger] h.post(p, q) && nq.post(q, o),
                {
                    let q = h.apply(p);
                    nq.apply(q)
                };
            Imply::new(chain)
        };
    let r = Imply::new(contrapose);
    assert(h.holds() ==> r.holds()) by {
        if h.holds() {
            assert forall|nq: Not<Q>| #[trigger] nq.holds() implies r.sound_on(nq) by {
                assert forall|np: Not<P>| #[trigger] r.post(nq, np) implies np.holds() by {
                    assert(chains(np, h, nq));
                    assert forall|p: P| #[trigger] p.holds() implies np.sound_on(p) by {
                        assert(h.sound_on(p));
                        assert forall|q: Q| #[trigger] h.post(p, q) implies nq.pre(q) by {
                            assert(nq.sound_on(q));
                        }
                        assert forall|o: False| #[trigger] np.post(p, o) implies o.holds() by {
                            let q = choose|q: Q| #[trigger] h.post(p, q) && nq.post(q, o);
                            assert(nq.sound_on(q));
                        }
                    }
                }
            }
        }
    }
    r
}

/// Whether the contrapositive `h` can carry `p` past the refutation `nq`:
/// `h` may be applied to `nq`, and whatever it gives is sound on `p`.
pub open spec fn carries<P: Prop, Q: Prop>(h: Imply<Not<Q>, Not<P>>, nq: Not<Q>, p: P) -> bool {
    &&& h.pre(nq)
    &&& forall|np: Not<P>| #[trigger] h.post(nq, np) ==> np.sound_on(p)
}

/// Whether `r` decides `Q` by `cases`: it may be applied to `p` where
/// `cases` holds `Q`, or holds a refutation past which `h` carries `p`, and
/// it gives only the evidence that `cases` holds.
pub open spec fn decides<P: Prop, Q: Prop>(
    r: Imply<P, Q>,
    cases: Or<Q, Not<Q>>,
    h: Imply<Not<Q>, Not<P>>,
) -> bool {
    &&& forall|p: P| (cases is R ==> carries(h, cases->R_0, p)) ==> #[trigger] r.pre(p)
    &&& forall|p: P, q: Q| #[trigger] r.post(p, q) ==> cases == Or::<Q, Not<Q>>::L(q)
}

/// Contraposition, reversed by cases. Given `p`, the result hands out the
/// evidence of `Q` that `cases` holds. Where `cases` holds a refutation of
/// `Q` instead, `h` turns it into a refutation of `P`, which meets `p`:
/// from there nothing comes back.
pub fn contraposition_reverse_by<P: Prop, Q: Prop>(
    cases: Or<Q, Not<Q>>,
    h: Imply<Not<Q>, Not<P>>,
) -> (r: Imply<P, Q>)
    ensures
        decides(r, cases, h),
        cases.holds() && h.holds() ==> r.holds(),
{
    let decide = move |p: P| -> (q: Q)
        requires
            cases is R ==> carries(h, cases->R_0, p),
        ensures
            cases == Or::<Q, Not<Q>>::L(q),
        {
            match cases {
                Or::L(q) => q,
                Or::R(nq) => {
                    let np = h.apply(nq);
                    exfalso(np.apply(p))
                },
            }
        };
    let r = Imply::new(decide);
    assert(cases.holds() && h.holds() ==> r.holds()) by {
        if cases.holds() && h.holds() {
            assert forall|p: P| #[trigger] p.holds() implies r.sound_on(p) by {
                match cases {
                    Or::L(_) => {},
                    Or::R(nq) => {
                        assert(h.sound_on(nq));
                        assert forall|np: Not<P>| #[trigger] h.post(nq, np) implies np.sound_on(
                            p,
                        ) by {
                            assert(np.holds());
                        }
                    },
                }
            }
        }
    }
    r
}

/// Contraposition, reversed. The case comes from the excluded middle when
/// the result is applied, so the result is barren.
pub fn contraposition_reverse<P: Prop, Q: Prop>(h: Imply<Not<Q>, Not<P>>) -> (r: Imply<P, Q>)
    ensures
        barren(r),
{
    let decide = move |p: P| -> (q: Q)
        requires
            absurd(),
        ensures
            absurd(),
        {
            contraposition_reverse_by(excluded_middle(), h).apply(p)
        };
    Imply::new(decide)
}

/// An implication is equivalent to its contrapositive. The first direction
/// contraposes and is genuine. The second can always be applied, and gives a
/// barren implication.
pub fn contraposition<P: Prop, Q: Prop>() -> (r: Equal<Imply<P, Q>, Imply<Not<Q>, Not<P>>>)
    ensures
        forall|h: Imply<P, Q>| #[trigger] r.0.pre(h),
        forall|h: Imply<P, Q>, c: Imply<Not<Q>, Not<P>>| #[trigger]
            r.0.post(h, c) ==> contraposes(c, h),
        r.0.holds(),
        forall|c: Imply<Not<Q>, Not<P>>| #[trigger] r.1.pre(c),
        forall|c: Imply<Not<Q>, Not<P>>, h: Imply<P, Q>| #[trigger] r.1.post(c, h) ==> barren(h),
{
    let there = |h: Imply<P, Q>| -> (c: Imply<Not<Q>, Not<P>>)
        ensures
            contraposes(c, h),
            h.holds() ==> c.holds(),
        {
            contraposition_forward(h)
        };
    let back = |c: Imply<Not<Q>, Not<P>>| -> (h: Imply<P, Q>)
        ensures
            barren(h),
        {
            contraposition_reverse(c)
        };
    And(Imply::new(there), Imply::new(back))
}

/// Material implication, forward by cases. Where `cases` holds `P`, the
/// implication is applied to it, which must then be allowed, and the result
/// holds what it gives. Where `cases` holds a refutation of `P`, the result
/// holds that.
pub fn material_implication_forward_by<P: Prop, Q: Prop>(
    cases: Or<P, Not<P>>,
    h: Imply<P, Q>,
) -> (r: Or<Not<P>, Q>)
    requires
        cases is L ==> h.pre(cases->L_0),
    ensures
        cases is L ==> r is R && h.post(cases->L_0, r->R_0),
        cases is R ==> r == Or::<Not<P>, Q>::L(cases->R_0),
        cases.holds() && h.holds() ==> r.holds(),
{
    match cases {
        Or::L(p) => {
            proof {
                if cases.holds() && h.holds() {
                    assert(h.sound_on(p));
                }
            }
            Or::R(h.apply(p))
        },
        Or::R(np) => Or::L(np),
    }
}

/// Material implication, forward. The case comes from the excluded middle,
/// so this can be called only where a contradiction is at hand.
pub fn material_implication_forward<P: Prop, Q: Prop>(h: Imply<P, Q>) -> (r: Or<Not<P>, Q>)
    requires
        absurd(),
    ensures
        r.holds(),
        absurd(),
{
    material_implication_forward_by(excluded_middle(), h)
}

/// Whether `r` resolves the disjunction `h`: it may be applied to `p` where
/// `h` holds `Q`, or holds a refutation that is sound on `p`, and it gives
/// only the evidence of `Q` that `h` holds.
pub open spec fn resolves<P: Prop, Q: Prop>(r: Imply<P, Q>, h: Or<Not<P>, Q>) -> bool {
    &&& forall|p: P| (h is L ==> h->L_0.sound_on(p)) ==> #[trigger] r.pre(p)
    &&& forall|p: P, q: Q| #[trigger] r.post(p, q) ==> h == Or::<Not<P>, Q>::R(q)
}

/// Material implication, reversed: given `p`, the result hands out the
/// evidence of `Q` that the disjunction holds. Where the disjunction holds a
/// refutation of `P` instead, that meets `p`: from there nothing comes back.
pub fn material_implication_reverse<P: Prop, Q: Prop>(h: Or<Not<P>, Q>) -> (r: Imply<P, Q>)
    ensures
        resolves(r, h),
        h.holds() ==> r.holds(),
{
    let resolve = move |p: P| -> (q: Q)
        requires
            h is L ==> h->L_0.sound_on(p),
        ensures
            h == Or::<Not<P>, Q>::R(q),
        {
            match h {
                Or::L(np) => exfalso(np.apply(p)),
                Or::R(q) => q,
            }
        };
    let r = Imply::new(resolve);
    assert(h.holds() ==> r.holds()) by {
        if h.holds() {
            assert forall|p: P| #[trigger] p.holds() implies r.sound_on(p) by {
                match h {
                    Or::L(np) => {
                        assert(np.sound_on(p));
                    },
                    Or::R(_) => {},
                }
            }
        }
    }
    r
}

/// An implication is equivalent to the disjunction of its conclusion with
/// the negation of its hypothesis. The first direction rests on the excluded
/// middle and is barren. The second resolves the disjunction and is genuine.
pub fn material_implication<P: Prop, Q: Prop>() -> (r: Equal<Imply<P, Q>, Or<Not<P>, Q>>)
    ensures
        barren(r.0),
        forall|d: Or<Not<P>, Q>| #[trigger] r.1.pre(d),
        forall|d: Or<Not<P>, Q>, h: Imply<P, Q>| #[trigger] r.1.post(d, h) ==> resolves(h, d),
        r.1.holds(),
{
    let there = |h: Imply<P, Q>| -> (d: Or<Not<P>, Q>)
        requires
            absurd(),
        ensures
            absurd(),
        {
            material_implication_forward(h)
        };
    let back = |d: Or<Not<P>, Q>| -> (h: Imply<P, Q>)
        ensures
            resolves(h, d),
            d.holds() ==> h.holds(),
        {
            material_implication_reverse(d)
        };
    And(Imply::new(there), Imply::new(back))
}

} // verus!
