use curry_howard::{
    and_comm, contraposition, contraposition_forward, contraposition_reverse,
    contraposition_reverse_by, double_negation, double_negation_elimination_by,
    double_negation_introduction, material_implication, material_implication_forward_by,
    material_implication_reverse, or_comm, And, Bool, False, Imply, Not, Or, Prop, True,
};
use std::cell::Cell;
use std::rc::Rc;

/// An implication from `P` to `Q` that counts how often it is applied.
fn counted<P: Prop, Q: Prop>(count: &Rc<Cell<u32>>, q: Q) -> Imply<P, Q> {
    let count = Rc::clone(count);
    Imply::new(move |_p: P| {
        count.set(count.get() + 1);
        q
    })
}

#[test]
fn and_comm_exchanges_the_pair() {
    let h: And<True, False> = And(Bool::<true>, Bool::<false>);
    let r: And<False, True> = and_comm(h);
    let And(Bool::<false>, Bool::<true>) = r;
}

#[test]
fn and_comm_twice_gives_the_pair_back() {
    let left = Rc::new(Cell::new(0));
    let right = Rc::new(Cell::new(0));
    let h: And<Imply<True, True>, Imply<False, True>> =
        And(counted(&left, Bool::<true>), counted(&right, Bool::<true>));
    let once = and_comm(h);
    let Bool::<true> = once.0.apply(Bool::<false>);
    assert_eq!((left.get(), right.get()), (0, 1));
    let h: And<Imply<True, True>, Imply<False, True>> =
        And(counted(&left, Bool::<true>), counted(&right, Bool::<true>));
    let twice = and_comm(and_comm(h));
    let Bool::<true> = twice.0.apply(Bool::<true>);
    assert_eq!((left.get(), right.get()), (1, 1));
    assert_eq!(And::<True, False>::VALUE, And::<False, True>::VALUE);
}

#[test]
fn or_comm_moves_the_held_side() {
    let h: Or<True, False> = Or::L(Bool::<true>);
    assert!(matches!(or_comm(h), Or::R(Bool::<true>)));
    let k: Or<True, False> = Or::R(Bool::<false>);
    assert!(matches!(or_comm(k), Or::L(Bool::<false>)));
}

#[test]
fn or_comm_twice_gives_the_side_back() {
    let h: Or<True, False> = Or::L(Bool::<true>);
    assert!(matches!(or_comm(or_comm(h)), Or::L(Bool::<true>)));
    let k: Or<True, False> = Or::R(Bool::<false>);
    assert!(matches!(or_comm(or_comm(k)), Or::R(Bool::<false>)));
    assert_eq!(Or::<True, False>::VALUE, Or::<False, True>::VALUE);
}

#[test]
fn or_holds_exactly_one_side() {
    let h: Or<True, True> = Or::L(Bool::<true>);
    assert!(matches!(h, Or::L(_)) != matches!(h, Or::R(_)));
    let k: Or<True, True> = Or::R(Bool::<true>);
    assert!(matches!(k, Or::L(_)) != matches!(k, Or::R(_)));
}

#[test]
fn implication_applies_its_function() {
    let count = Rc::new(Cell::new(0));
    let f: Imply<False, True> = counted(&count, Bool::<true>);
    let Bool::<true> = f.apply(Bool::<false>);
    assert_eq!(count.get(), 1);
}

#[test]
fn double_negation_introduction_feeds_the_refutation() {
    let count = Rc::new(Cell::new(0));
    let refutation: Not<False> = counted(&count, Bool::<false>);
    let nnp: Not<Not<False>> = double_negation_introduction(Bool::<false>);
    assert_eq!(count.get(), 0);
    let Bool::<false> = nnp.apply(refutation);
    assert_eq!(count.get(), 1);
}

#[test]
fn double_negation_elimination_by_returns_the_held_evidence() {
    let count = Rc::new(Cell::new(0));
    let nnp: Not<Not<Imply<True, True>>> = double_negation_introduction(counted(&count, Bool::<true>));
    let held: Imply<True, True> = counted(&Rc::new(Cell::new(0)), Bool::<true>);
    let back = double_negation_elimination_by(Or::L(held), nnp);
    let Bool::<true> = back.apply(Bool::<true>);
    assert_eq!(count.get(), 0);
}

#[test]
fn double_negation_round_trip_keeps_the_truth_value() {
    let nnp: Not<Not<True>> = double_negation_introduction(Bool::<true>);
    let Bool::<true> = double_negation_elimination_by(Or::L(Bool::<true>), nnp);
    assert_eq!(Not::<Not<True>>::VALUE, True::VALUE);
    assert_eq!(Not::<Not<False>>::VALUE, False::VALUE);
}

#[test]
fn double_negation_packages_the_introduction() {
    let count = Rc::new(Cell::new(0));
    let And(there, _back) = double_negation::<False>();
    let nnp = there.apply(Bool::<false>);
    let Bool::<false> = nnp.apply(counted(&count, Bool::<false>));
    assert_eq!(count.get(), 1);
}

#[test]
fn contraposition_forward_runs_the_implication_first() {
    let first = Rc::new(Cell::new(0));
    let then = Rc::new(Cell::new(0));
    let h: Imply<True, True> = counted(&first, Bool::<true>);
    let nq: Not<True> = counted(&then, Bool::<false>);
    let r = contraposition_forward(h);
    let np: Not<True> = r.apply(nq);
    assert_eq!((first.get(), then.get()), (0, 0));
    let Bool::<false> = np.apply(Bool::<true>);
    assert_eq!((first.get(), then.get()), (1, 1));
}

#[test]
fn contraposition_reverse_by_hands_out_the_held_evidence() {
    let count = Rc::new(Cell::new(0));
    let inner: Not<True> = counted(&Rc::new(Cell::new(0)), Bool::<false>);
    let h: Imply<Not<True>, Not<True>> = counted(&count, inner);
    let r: Imply<True, True> = contraposition_reverse_by(Or::L(Bool::<true>), h);
    let Bool::<true> = r.apply(Bool::<true>);
    assert_eq!(count.get(), 0);
}

#[test]
fn contraposition_reverse_builds_without_running() {
    let count = Rc::new(Cell::new(0));
    let inner: Not<True> = counted(&Rc::new(Cell::new(0)), Bool::<false>);
    let h: Imply<Not<True>, Not<True>> = counted(&count, inner);
    let _r: Imply<True, True> = contraposition_reverse(h);
    assert_eq!(count.get(), 0);
}

#[test]
fn contraposition_packages_the_forward_direction() {
    let first = Rc::new(Cell::new(0));
    let then = Rc::new(Cell::new(0));
    let And(there, back) = contraposition::<True, True>();
    let np = there.apply(counted(&first, Bool::<true>)).apply(counted(&then, Bool::<false>));
    let Bool::<false> = np.apply(Bool::<true>);
    assert_eq!((first.get(), then.get()), (1, 1));
    let inner: Not<True> = counted(&Rc::new(Cell::new(0)), Bool::<false>);
    let _unrun: Imply<True, True> = back.apply(counted(&Rc::new(Cell::new(0)), inner));
}

#[test]
fn material_implication_forward_by_applies_to_the_held_evidence() {
    let count = Rc::new(Cell::new(0));
    let h: Imply<True, True> = counted(&count, Bool::<true>);
    let r = material_implication_forward_by(Or::L(Bool::<true>), h);
    assert!(matches!(r, Or::R(Bool::<true>)));
    assert_eq!(count.get(), 1);
}

#[test]
fn material_implication_forward_by_keeps_the_refutation() {
    let count = Rc::new(Cell::new(0));
    let refuted = Rc::new(Cell::new(0));
    let h: Imply<False, True> = counted(&count, Bool::<true>);
    let np: Not<False> = counted(&refuted, Bool::<false>);
    let r = material_implication_forward_by(Or::R(np), h);
    assert_eq!(count.get(), 0);
    match r {
        Or::L(np) => {
            let Bool::<false> = np.apply(Bool::<false>);
        }
        Or::R(_) => panic!("the refutation was to be kept"),
    }
    assert_eq!(refuted.get(), 1);
}

#[test]
fn material_implication_reverse_hands_out_the_held_evidence() {
    let count = Rc::new(Cell::new(0));
    let held: Imply<True, True> = counted(&count, Bool::<true>);
    let d: Or<Not<False>, Imply<True, True>> = Or::R(held);
    let r = material_implication_reverse(d);
    assert_eq!(count.get(), 0);
    let q = r.apply(Bool::<false>);
    let Bool::<true> = q.apply(Bool::<true>);
    assert_eq!(count.get(), 1);
}

#[test]
fn material_implication_packages_the_reverse_direction() {
    let And(_there, back) = material_implication::<False, True>();
    let r: Imply<False, True> = back.apply(Or::R(Bool::<true>));
    let Bool::<true> = r.apply(Bool::<false>);
}

#[test]
fn nested_connectives_compute_their_truth_value() {
    assert!(And::<Or<False, True>, Imply<False, False>>::VALUE);
    assert!(!Or::<And<True, False>, Not<True>>::VALUE);
    assert!(Imply::<And<True, True>, Or<False, True>>::VALUE);
    assert!(!Imply::<Or<True, False>, And<True, False>>::VALUE);
    assert!(Not::<Not<True>>::VALUE);
    assert!(!Not::<Not<False>>::VALUE);
}
