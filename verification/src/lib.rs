//! Propositional logic through the Curry-Howard correspondence.
//!
//! A proposition is a type, and a value of that type is evidence for it. Each
//! proposition has a computed truth value, and each piece of evidence is either
//! genuine or not: the theorems of this crate are functions from evidence to
//! evidence that are proved to keep genuine evidence genuine.
pub mod axioms;
pub mod connectives;
pub mod laws;
pub mod theorems;

pub use axioms::{absurd, excluded_middle, exfalso, postulate, sorry};
pub use connectives::{And, Bool, Equal, False, Imply, Not, Or, Prop, True};
pub use theorems::{
    and_comm, contraposition, contraposition_forward, contraposition_reverse,
    contraposition_reverse_by, double_negation, double_negation_elimination,
    double_negation_elimination_by, double_negation_introduction, material_implication,
    material_implication_forward, material_implication_forward_by, material_implication_reverse,
    or_comm,
};
