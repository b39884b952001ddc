//! Expression contexts (`matrix.os`, `github.event.name`, ...), as parsed
//! and matched by the `github_actions_expressions` crate.

use vstd::prelude::*;
use github_actions_expressions::context::Context;

verus! {

/// `github_actions_expressions::context::Context`: a context parsed from a
/// GitHub Actions expression, carried through opaquely.
#[verifier::external_type_specification]
#[verifier::external_body]
pub struct ExContext<'src>(Context<'src>);

/// Whether `context` matches the context pattern `pattern` exactly, as
/// `Context::matches` decides: the pattern is dotted identifiers and `*`
/// wildcards, compared part by part with the context, ignoring ASCII case;
/// a pattern that is not valid matches nothing.
pub uninterp spec fn context_matches_pattern(context: Context<'_>, pattern: Seq<char>) -> bool;

/// Calls `Context::matches` with `pattern` as the pattern. The result is
/// named by `context_matches_pattern`; the outside source computes it from
/// the context's parsed parts and the pattern's text alone.
#[verifier::external_body]
pub(crate) fn context_matches<'src>(context: &Context<'src>, pattern: &'src str) -> (r: bool)
    ensures
        r == context_matches_pattern(*context, pattern@),
{
    context.matches(pattern)
}

} // verus!
