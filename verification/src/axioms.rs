//! The postulates of classical logic. They are statements, not procedures:
//! none of them can be run.
use vstd::prelude::*;
use crate::connectives::{False, Not, Or, Prop};

verus! {

/// Whether a contradiction is at hand: genuine evidence of the false
/// proposition. There is no such evidence, so this never holds.
pub open spec fn absurd() -> bool {
    exists|f: False| #[trigger] f.holds()
}

/// The foundational postulate: evidence of any proposition. Inventing a
/// witness would be unsound, so it may be called only where a contradiction
/// is at hand, and it never returns: if it is ever run, it stops the program
/// with a message that names the cause.
pub fn postulate<P: Prop>() -> (p: P)
    requires
        absurd(),
    ensures
        p.holds(),
        absurd(),
{
    let nothing: Option<P> = None;
    nothing.expect("axioms cannot be executed")
}

/// Stands for a proof that is still owed. Deprecated: it is `postulate`
/// under another name, kept for work in progress only.
pub fn sorry<P: Prop>() -> (p: P)
    requires
        absurd(),
    ensures
        p.holds(),
        absurd(),
{
    postulate()
}

/// The principle of explosion: from genuine evidence of the false
/// proposition, evidence of anything.
pub fn exfalso<P: Prop>(h: False) -> (p: P)
    requires
        h.holds(),
    ensures
        p.holds(),
        absurd(),
{
    postulate()
}

/// The law of the excluded middle: every proposition holds or its negation
/// does.
pub fn excluded_middle<P: Prop>() -> (r: Or<P, Not<P>>)
    requires
        absurd(),
    ensures
        r.holds(),
        absurd(),
{
    postulate()
}

} // verus!
