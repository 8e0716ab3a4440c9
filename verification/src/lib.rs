//! Propositional e-graph rewriting: the verified core of a rewriting
//! environment built on `egg`.
//!
//! The library holds the parts of the rewriter that decide and compute on
//! plain values: the operator language and its grammar, the constant-folding
//! analysis, the rewrite-rule tables, the cost functions used for
//! extraction, and the bookkeeping of the rewriting environment and of the
//! rule-selection run.  The e-graph itself is driven by `egg` around it.

pub mod bandit;
pub mod cost;
pub mod env;
pub mod fold;
pub mod pattern;
pub mod prop;
pub mod rules;
pub mod symrules;
