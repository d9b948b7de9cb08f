//! The connectives: literals, conjunction, disjunction and implication, with
//! negation and the biconditional derived from them.
use vstd::prelude::*;

verus! {

/// A proposition. The type stands for the statement; a value of the type is
/// evidence for it.
pub trait Prop: 'static {
    /// The truth value of the proposition, computed from its shape alone.
    const VALUE: bool;

    /// Whether this value is genuine evidence: a witness that could only have
    /// been built if the proposition is true.
    spec fn holds(&self) -> bool;
}

/// The literal proposition with the fixed truth value `B`.
pub struct Bool<const B: bool>;

/// The proposition that is always true.
pub type True = Bool<true>;

/// The proposition that is always false.
pub type False = Bool<false>;

impl<const B: bool> Prop for Bool<B> {
    const VALUE: bool = B;

    open spec fn holds(&self) -> bool {
        B
    }
}

/// Conjunction: evidence of `A` together with evidence of `B`.
pub struct And<A, B>(pub A, pub B);

impl<A: Prop, B: Prop> And<A, B> {
    /// The same pair with its two sides exchanged.
    pub open spec fn swapped(self) -> And<B, A> {
        And(self.1, self.0)
    }
}

impl<A: Prop, B: Prop> Prop for And<A, B> {
    const VALUE: bool = A::VALUE && B::VALUE;

    open spec fn holds(&self) -> bool {
        self.0.holds() && self.1.holds()
    }
}

/// Disjunction: evidence of `L`, or else evidence of `R`.
pub enum Or<L, R> {
    L(L),
    R(R),
}

impl<L: Prop, R: Prop> Or<L, R> {
    /// The same evidence, held on the other side.
    pub open spec fn swapped(self) -> Or<R, L> {
        match self {
            Or::L(l) => Or::R(l),
            Or::R(r) => Or::L(r),
        }
    }
}

impl<L: Prop, R: Prop> Prop for Or<L, R> {
    const VALUE: bool = L::VALUE || R::VALUE;

    open spec fn holds(&self) -> bool {
        match self {
            Or::L(l) => l.holds(),
            Or::R(r) => r.holds(),
        }
    }
}

/// What an implication is made of: a procedure that can be run once.
trait Transformer<P, Q> {
    spec fn pre(&self, p: P) -> bool;

    spec fn post(&self, p: P, q: Q) -> bool;

    fn run(self: Box<Self>, p: P) -> (q: Q)
        requires
            self.pre(p),
        ensures
            self.post(p, q),
    ;
}

/// A function value, seen as a transformer.
struct Closure<F> {
    f: F,
}

impl<P, Q, F: FnOnce(P) -> Q> Transformer<P, Q> for Closure<F> {
    closed spec fn pre(&self, p: P) -> bool {
        call_requires(self.f, (p,))
    }

    closed spec fn post(&self, p: P, q: Q) -> bool {
        call_ensures(self.f, (p,), q)
    }

    fn run(self: Box<Self>, p: P) -> (q: Q) {
        let this = *self;
        (this.f)(p)
    }
}

/// Implication: a one-shot transformer from evidence of `P` to evidence of
/// `Q`. It is the only connective whose evidence is a procedure.
#[verifier::reject_recursive_types(P)]
#[verifier::reject_recursive_types(Q)]
pub struct Imply<P, Q> {
    rule: Box<dyn Transformer<P, Q>>,
}

/// Negation: from evidence of `P`, a contradiction.
pub type Not<P> = Imply<P, False>;

/// The biconditional: an implication in each direction.
pub type Equal<P, Q> = And<Imply<P, Q>, Imply<Q, P>>;

impl<P: Prop, Q: Prop> Imply<P, Q> {
    /// Whether the transformer may be applied to `p`.
    pub closed spec fn pre(&self, p: P) -> bool {
        self.rule.pre(p)
    }

    /// Whether `q` is a possible result of applying the transformer to `p`.
    pub closed spec fn post(&self, p: P, q: Q) -> bool {
        self.rule.post(p, q)
    }

    /// Whether the transformer may be applied to `p` and every result of
    /// doing so is genuine.
    pub open spec fn sound_on(&self, p: P) -> bool {
        &&& self.pre(p)
        &&& forall|q: Q| #[trigger] self.post(p, q) ==> q.holds()
    }

    /// Wraps a function as evidence of the implication. The evidence may be
    /// applied wherever the function may be called, and gives only what the
    /// function gives.
    pub fn new<F: FnOnce(P) -> Q + 'static>(f: F) -> (r: Self)
        ensures
            forall|p: P| call_requires(f, (p,)) ==> #[trigger] r.pre(p),
            forall|p: P, q: Q| #[trigger] r.post(p, q) ==> call_ensures(f, (p,), q),
    {
        Imply { rule: Box::new(Closure { f }) }
    }

    /// Modus ponens: runs the transformer on `p`, using it up.
    pub fn apply(self, p: P) -> (q: Q)
        requires
            self.pre(p),
        ensures
            self.post(p, q),
            self.sound_on(p) ==> q.holds(),
    {
        self.rule.run(p)
    }
}

impl<P: Prop, Q: Prop> Prop for Imply<P, Q> {
    const VALUE: bool = !P::VALUE || Q::VALUE;

    /// An implication is genuine when it may be applied to all genuine
    /// evidence of `P` and then gives only genuine evidence of `Q`.
    open spec fn holds(&self) -> bool {
        forall|p: P| #![trigger p.holds()] #![trigger self.sound_on(p)] p.holds() ==> self.sound_on(p)
    }
}

/// The truth value of a literal is the value it is made with.
pub proof fn lemma_literal_value<const B: bool>()
    ensures
        Bool::<B>::VALUE == B,
        True::VALUE,
        !False::VALUE,
{
}

/// The truth tables: over literals, each connective has the truth value that
/// classical logic gives it.
pub proof fn lemma_truth_tables<const A: bool, const B: bool>()
    ensures
        And::<Bool<A>, Bool<B>>::VALUE == (A && B),
        Or::<Bool<A>, Bool<B>>::VALUE == (A || B),
        Imply::<Bool<A>, Bool<B>>::VALUE == (!A || B),
        Not::<Bool<A>>::VALUE == !A,
        Equal::<Bool<A>, Bool<B>>::VALUE == (A == B),
{
}

/// The truth value of each connective is the classical one: conjunction is
/// "and", disjunction is "or", implication is "not, or", negation is "not",
/// and the biconditional is "if and only if".
pub proof fn lemma_connective_values<P: Prop, Q: Prop>()
    ensures
        And::<P, Q>::VALUE == (P::VALUE && Q::VALUE),
        Or::<P, Q>::VALUE == (P::VALUE || Q::VALUE),
        Imply::<P, Q>::VALUE == (P::VALUE ==> Q::VALUE),
        Not::<P>::VALUE == !P::VALUE,
        Equal::<P, Q>::VALUE == (P::VALUE <==> Q::VALUE),
{
}

} // verus!
