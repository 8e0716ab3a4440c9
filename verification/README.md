# eggenv

A verified core for e-graph rewriting of propositional expressions with
[egg](https://github.com/egraphs-good/egg).

- `src/` is the library, verified with Verus:
  - `prop.rs`: the operator language (`0`, `1`, `!`, `+`, `*`, `->`, `let`,
    `&`, symbols), its grammar `Prop::from_op` and printing `Prop::op_name`;
  - `pattern.rs`: rule patterns and their truth value under an assignment;
  - `fold.rs`: the constant-folding analysis (`make`, `merge`, `modify`);
  - `rules.rs`: the propositional rewrite rules, proved to be equalities;
  - `symrules.rs`: the rules of the general-purpose rewriter;
  - `cost.rs`: the extraction cost functions;
  - `env.rs`: the environment's actions, rewards and best cost;
  - `bandit.rs`: the step, reward and stopping decisions of the
    rule-selection run.
- `app/` drives egg with these: the `egg` trait impls of the language, the
  Python environment class, and the rewriter program that reads
  `input.sexpr`.
- `tests/` runs the library on concrete values.
