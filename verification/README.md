# zizmor_core

Verified core of a GitHub Actions workflow auditor, written in Verus.

- `src/matrix.rs` — strategy-matrix expansion: every scalar of every
  dimension and `include:` row becomes an expansion (`matrix.os` =
  `ubuntu-latest`, with its location); `exclude:` rows are removed before
  `include:` rows are added; matrices given by expressions are indeterminate.
  Also decides whether the paths a context refers to expand to static values.
- `src/cache_poisoning.rs` — the `cache-poisoning` audit: jobs that publish
  artifacts (by trigger or by a well-known publisher step) and use caching.
- `src/superfluous_actions.rs` — the `superfluous-actions` audit.
- `src/uses.rs` — parsing and matching of `uses:` clauses.
- `src/text.rs`, `src/location.rs`, `src/value.rs`, `src/models.rs`,
  `src/finding.rs`, `src/context.rs` — strings, symbolic locations, plain-value
  models of workflows, findings, and expression contexts.

Every public function states its result exactly over spec functions; the
laws of the library (exclusions before inclusions, indirect matrices are never
static, matching is asymmetric, ...) are public proof functions beside them.

`app/` converts documents parsed by `github-actions-models` into the
library's values and runs the audits.
