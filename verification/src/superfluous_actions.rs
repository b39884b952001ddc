//! The `superfluous-actions` audit: actions whose functionality is already
//! included by the runner.

use vstd::prelude::*;
use crate::finding::{Confidence, Finding, FindingView, Persona, Severity, findings_view, locations_view};
use crate::location::{FeatureView, LocationKind, LocationView, RouteKey, RouteKeyView, Subfeature, SymbolicLocation};
use crate::matrix::prefix_of;
use crate::models::{NormalJob, Step, StepBody, step_location};
use crate::text::{eq_ignore_ascii_case, str_eq_ignore_ascii_case};
use crate::uses::{RepositoryUses, RepositoryUsesView, parse_repository_clause, parsed_repository_uses};

verus! {

/// When to leave a check out, to reduce false positives.
#[derive(Debug, Clone, Copy, PartialEq, Eq, Structural)]
pub enum SkipCriteria {
    Never,
    SelfHostedRunnerDetected,
}

/// A pattern matching exactly the repository `owner/repo`, with no subpath.
#[derive(Debug)]
pub struct RepositoryUsesPattern {
    pub owner: String,
    pub repo: String,
}

/// The repository clause `u` matches the exact-repository pattern
/// `owner/repo`: owner and repo agree up to ASCII case and `u` has no
/// subpath.
pub open spec fn pattern_matches(owner: Seq<char>, repo: Seq<char>, u: RepositoryUsesView) -> bool {
    &&& eq_ignore_ascii_case(u.owner, owner)
    &&& eq_ignore_ascii_case(u.repo, repo)
    &&& u.subpath is None
}

impl RepositoryUsesPattern {
    /// Whether the clause matches this pattern.
    pub fn matches(&self, uses: &RepositoryUses) -> (r: bool)
        ensures
            r == pattern_matches(self.owner@, self.repo@, uses@),
    {
        str_eq_ignore_ascii_case(uses.owner.as_str(), self.owner.as_str())
            && str_eq_ignore_ascii_case(uses.repo.as_str(), self.repo.as_str())
            && uses.subpath.is_none()
    }
}

/// One superfluous action, with what to use instead.
#[derive(Debug)]
pub struct SuperfluousAction {
    pub pattern: RepositoryUsesPattern,
    pub recommendation: String,
    pub persona: Persona,
    pub confidence: Confidence,
    pub skip: SkipCriteria,
}

/// The mathematical form of a [`SuperfluousAction`].
pub struct SuperfluousActionView {
    pub owner: Seq<char>,
    pub repo: Seq<char>,
    pub recommendation: Seq<char>,
    pub persona: Persona,
    pub confidence: Confidence,
    pub skip: SkipCriteria,
}

impl View for SuperfluousAction {
    type V = SuperfluousActionView;

    open spec fn view(&self) -> SuperfluousActionView {
        SuperfluousActionView {
            owner: self.pattern.owner@,
            repo: self.pattern.repo@,
            recommendation: self.recommendation@,
            persona: self.persona,
            confidence: self.confidence,
            skip: self.skip,
        }
    }
}

pub open spec fn entry(
    owner: Seq<char>,
    repo: Seq<char>,
    recommendation: Seq<char>,
    persona: Persona,
    confidence: Confidence,
    skip: SkipCriteria,
) -> SuperfluousActionView {
    SuperfluousActionView { owner, repo, recommendation, persona, confidence, skip }
}

/// The superfluous actions, in the order they are checked.
pub open spec fn superfluous_actions_spec() -> Seq<SuperfluousActionView> {
    seq![
        entry("ncipollo"@, "release-action"@, "use `gh release` in a script step"@, Persona::Regular, Confidence::High, SkipCriteria::Never),
        entry("softprops"@, "action-gh-release"@, "use `gh release` in a script step"@, Persona::Regular, Confidence::High, SkipCriteria::Never),
        entry("elgohr"@, "Github-Release-Action"@, "use `gh release` in a script step"@, Persona::Regular, Confidence::High, SkipCriteria::Never),
        entry("peter-evans"@, "create-pull-request"@, "use `gh pr create` in a script step"@, Persona::Pedantic, Confidence::Low, SkipCriteria::Never),
        entry("peter-evans"@, "create-or-update-comment"@, "use `gh pr comment` or `gh issue comment` in a script step"@, Persona::Pedantic, Confidence::Low, SkipCriteria::Never),
        entry("dacbd"@, "create-issue-action"@, "use `gh issue create` in a script step"@, Persona::Regular, Confidence::High, SkipCriteria::Never),
        entry("actions-ecosystem"@, "action-add-labels"@, "use `gh issue edit --add-label` or `gh pr edit --add-label` in a script step"@, Persona::Regular, Confidence::High, SkipCriteria::Never),
        entry("actions-ecosystem"@, "action-remove-labels"@, "use `gh issue edit --remove-label` or `gh pr edit --remove-label` in a script step"@, Persona::Regular, Confidence::High, SkipCriteria::Never),
        entry("svenstaro"@, "upload-release-action"@, "use `gh release create` and `gh release upload` in a script step"@, Persona::Regular, Confidence::High, SkipCriteria::Never),
        entry("addnab"@, "docker-run-action"@, "use `docker run` in a script step, or use a container step"@, Persona::Regular, Confidence::High, SkipCriteria::Never),
        entry("sergeysova"@, "jq-action"@, "use `jq` in a script step"@, Persona::Regular, Confidence::High, SkipCriteria::Never),
        entry("dtolnay"@, "rust-toolchain"@, "use `rustup` and/or `cargo` in a script step"@, Persona::Pedantic, Confidence::Medium, SkipCriteria::SelfHostedRunnerDetected),
        entry("stefanzweifel"@, "git-auto-commit-action"@, "use `git add`, `git commit`, and `git push` in a script step"@, Persona::Pedantic, Confidence::Low, SkipCriteria::Never),
        entry("EndBug"@, "add-and-commit"@, "use `git add`, `git commit`, and `git push` in a script step"@, Persona::Pedantic, Confidence::Low, SkipCriteria::Never),
    ]
}

fn action(
    owner: &str,
    repo: &str,
    recommendation: &str,
    persona: Persona,
    confidence: Confidence,
    skip: SkipCriteria,
) -> (r: SuperfluousAction)
    ensures
        r@ == entry(owner@, repo@, recommendation@, persona, confidence, skip),
{
    SuperfluousAction {
        pattern: RepositoryUsesPattern { owner: owner.to_owned(), repo: repo.to_owned() },
        recommendation: recommendation.to_owned(),
        persona,
        confidence,
        skip,
    }
}

/// The views of a sequence of superfluous actions.
pub open spec fn actions_view(s: Seq<SuperfluousAction>) -> Seq<SuperfluousActionView> {
    s.map_values(|a: SuperfluousAction| a@)
}

/// The superfluous actions.
pub fn superfluous_actions() -> (r: Vec<SuperfluousAction>)
    ensures
        actions_view(r@) == superfluous_actions_spec(),
{
    let r = vec![
        action("ncipollo", "release-action", "use `gh release` in a script step", Persona::Regular, Confidence::High, SkipCriteria::Never),
        action("softprops", "action-gh-release", "use `gh release` in a script step", Persona::Regular, Confidence::High, SkipCriteria::Never),
        action("elgohr", "Github-Release-Action", "use `gh release` in a script step", Persona::Regular, Confidence::High, SkipCriteria::Never),
        // Pedantic: creating a PR with just `gh` and `git` is cumbersome.
        action("peter-evans", "create-pull-request", "use `gh pr create` in a script step", Persona::Pedantic, Confidence::Low, SkipCriteria::Never),
        // Pedantic: `gh` can't edit a comment by ID.
        action("peter-evans", "create-or-update-comment", "use `gh pr comment` or `gh issue comment` in a script step", Persona::Pedantic, Confidence::Low, SkipCriteria::Never),
        action("dacbd", "create-issue-action", "use `gh issue create` in a script step", Persona::Regular, Confidence::High, SkipCriteria::Never),
        action("actions-ecosystem", "action-add-labels", "use `gh issue edit --add-label` or `gh pr edit --add-label` in a script step", Persona::Regular, Confidence::High, SkipCriteria::Never),
        action("actions-ecosystem", "action-remove-labels", "use `gh issue edit --remove-label` or `gh pr edit --remove-label` in a script step", Persona::Regular, Confidence::High, SkipCriteria::Never),
        action("svenstaro", "upload-release-action", "use `gh release create` and `gh release upload` in a script step", Persona::Regular, Confidence::High, SkipCriteria::Never),
        action("addnab", "docker-run-action", "use `docker run` in a script step, or use a container step", Persona::Regular, Confidence::High, SkipCriteria::Never),
        action("sergeysova", "jq-action", "use `jq` in a script step", Persona::Regular, Confidence::High, SkipCriteria::Never),
        // Skipped on self-hosted runners: this action also sets up the
        // environment, and the finding is disruptive there.
        action("dtolnay", "rust-toolchain", "use `rustup` and/or `cargo` in a script step", Persona::Pedantic, Confidence::Medium, SkipCriteria::SelfHostedRunnerDetected),
        // Pedantic: replicating this action (empty-commit detection, auth
        // setup) takes several git commands and some care.
        action("stefanzweifel", "git-auto-commit-action", "use `git add`, `git commit`, and `git push` in a script step", Persona::Pedantic, Confidence::Low, SkipCriteria::Never),
        action("EndBug", "add-and-commit", "use `git add`, `git commit`, and `git push` in a script step", Persona::Pedantic, Confidence::Low, SkipCriteria::Never),
    ];
    assert(actions_view(r@) =~= superfluous_actions_spec());
    r
}

/// A step's location narrowed to a key that identifies it: its `name:` if
/// it has one, else its `id:` if it has one, else the whole step.
pub open spec fn location_with_grip(step: Step, loc: LocationView) -> LocationView {
    if step.name is Some {
        loc.with_key(RouteKeyView::Key("name"@))
    } else if step.id is Some {
        loc.with_key(RouteKeyView::Key("id"@))
    } else {
        loc
    }
}

/// The finding for a step at `loc` whose `uses:` clause `u` matches the
/// superfluous action `a`.
pub open spec fn superfluous_finding(
    step: Step,
    loc: LocationView,
    u: RepositoryUsesView,
    a: SuperfluousActionView,
) -> FindingView {
    FindingView {
        ident: "superfluous-actions"@,
        confidence: a.confidence,
        severity: Severity::Informational,
        persona: a.persona,
        locations: seq![
            location_with_grip(step, loc),
            loc.with_key(RouteKeyView::Key("uses"@)).with_feature(
                FeatureView::Subfeature { after: 0, fragment: u.raw },
            ).annotated(a.recommendation).with_kind(LocationKind::Primary),
            loc.with_kind(LocationKind::Hidden),
        ],
    }
}

/// The findings for the first `n` superfluous actions checked against a
/// step at `loc` with clause `u`: entries skipped on self-hosted runners are
/// left out there, and each matching entry gives one finding.
pub open spec fn superfluous_findings_upto(
    step: Step,
    loc: LocationView,
    u: RepositoryUsesView,
    self_hosted: bool,
    n: int,
) -> Seq<FindingView>
    decreases n,
{
    if n <= 0 || n > superfluous_actions_spec().len() {
        Seq::empty()
    } else {
        let prev = superfluous_findings_upto(step, loc, u, self_hosted, n - 1);
        let a = superfluous_actions_spec()[n - 1];
        if self_hosted && a.skip == SkipCriteria::SelfHostedRunnerDetected {
            prev
        } else if pattern_matches(a.owner, a.repo, u) {
            prev.push(superfluous_finding(step, loc, u, a))
        } else {
            prev
        }
    }
}

/// The findings for a step at `loc`: none unless its `uses:` parses as a
/// repository clause.
pub open spec fn step_superfluous_findings(step: Step, loc: LocationView, self_hosted: bool) -> Seq<
    FindingView,
> {
    match step.body {
        StepBody::Uses { uses, .. } => match parsed_repository_uses(uses@) {
            Some(u) => superfluous_findings_upto(
                step,
                loc,
                u,
                self_hosted,
                superfluous_actions_spec().len() as int,
            ),
            None => Seq::empty(),
        },
        StepBody::Run => Seq::empty(),
    }
}

/// The findings for the first `n` steps of `job`, in step order.
pub open spec fn job_superfluous_findings(job: NormalJob, n: int) -> Seq<FindingView>
    decreases n,
{
    if n <= 0 || n > job.steps@.len() {
        Seq::empty()
    } else {
        job_superfluous_findings(job, n - 1) + step_superfluous_findings(
            job.steps@[n - 1],
            step_location(job.id@, (n - 1) as usize),
            job.runs_on_self_hosted,
        )
    }
}

/// Every finding for a step is informational, with the confidence and
/// persona of the entry that matched; its second location is the primary
/// one and its third is hidden. A step whose `uses:` is not a repository
/// clause gets no finding.
pub proof fn lemma_superfluous_findings_shape(step: Step, loc: LocationView, self_hosted: bool)
    ensures
        forall|i: int|
            0 <= i < step_superfluous_findings(step, loc, self_hosted).len() ==> {
                let f = #[trigger] step_superfluous_findings(step, loc, self_hosted)[i];
                &&& f.severity == Severity::Informational
                &&& f.locations.len() == 3
                &&& f.locations[1].kind == LocationKind::Primary
                &&& f.locations[2].kind == LocationKind::Hidden
            },
        (match step.body {
            StepBody::Uses { uses, .. } => parsed_repository_uses(uses@) is None,
            StepBody::Run => true,
        }) ==> step_superfluous_findings(step, loc, self_hosted).len() == 0,
{
    if let StepBody::Uses { uses, .. } = step.body {
        if let Some(u) = parsed_repository_uses(uses@) {
            lemma_upto_shape(step, loc, u, self_hosted, superfluous_actions_spec().len() as int);
        }
    }
}

proof fn lemma_upto_shape(step: Step, loc: LocationView, u: RepositoryUsesView, self_hosted: bool, n: int)
    ensures
        forall|i: int|
            0 <= i < superfluous_findings_upto(step, loc, u, self_hosted, n).len() ==> {
                let f = #[trigger] superfluous_findings_upto(step, loc, u, self_hosted, n)[i];
                &&& f.severity == Severity::Informational
                &&& f.locations.len() == 3
                &&& f.locations[1].kind == LocationKind::Primary
                &&& f.locations[2].kind == LocationKind::Hidden
            },
    decreases n,
{
    if n > 0 && n <= superfluous_actions_spec().len() {
        lemma_upto_shape(step, loc, u, self_hosted, n - 1);
    }
}

/// On a self-hosted runner, entries marked to be skipped there never give a
/// finding: every finding's recommendation comes from an entry that is not.
pub proof fn lemma_self_hosted_skips(step: Step, loc: LocationView, u: RepositoryUsesView, n: int)
    ensures
        forall|i: int|
            0 <= i < superfluous_findings_upto(step, loc, u, true, n).len() ==> exists|k: int|
                0 <= k < superfluous_actions_spec().len() && superfluous_actions_spec()[k].skip
                    == SkipCriteria::Never && #[trigger] superfluous_findings_upto(
                    step,
                    loc,
                    u,
                    true,
                    n,
                )[i] == superfluous_finding(step, loc, u, superfluous_actions_spec()[k]),
    decreases n,
{
    if n > 0 && n <= superfluous_actions_spec().len() {
        lemma_self_hosted_skips(step, loc, u, n - 1);
        let prev = superfluous_findings_upto(step, loc, u, true, n - 1);
        let a = superfluous_actions_spec()[n - 1];
        if a.skip != SkipCriteria::SelfHostedRunnerDetected && pattern_matches(a.owner, a.repo, u) {
            assert(a.skip == SkipCriteria::Never);
            let all = superfluous_findings_upto(step, loc, u, true, n);
            assert forall|i: int| 0 <= i < all.len() implies exists|k: int|
                0 <= k < superfluous_actions_spec().len() && superfluous_actions_spec()[k].skip
                    == SkipCriteria::Never && #[trigger] all[i] == superfluous_finding(
                    step,
                    loc,
                    u,
                    superfluous_actions_spec()[k],
                ) by {
                if i == prev.len() {
                    assert(all[i] == superfluous_finding(step, loc, u, superfluous_actions_spec()[n - 1]));
                } else {
                    assert(all[i] == prev[i]);
                }
            }
        }
    }
}

/// A finding names the repository exactly: each finding for a clause comes
/// from an entry whose owner and repository both equal the clause's, up to
/// ASCII case, and the clause has no subpath. A clause with an entry's owner
/// but another repository gets no finding from that entry.
pub proof fn lemma_findings_name_the_repository(step: Step, loc: LocationView, u: RepositoryUsesView, self_hosted: bool, n: int)
    ensures
        forall|i: int|
            0 <= i < superfluous_findings_upto(step, loc, u, self_hosted, n).len() ==> exists|k: int|
                0 <= k < superfluous_actions_spec().len()
                    && eq_ignore_ascii_case(u.owner, superfluous_actions_spec()[k].owner)
                    && eq_ignore_ascii_case(u.repo, superfluous_actions_spec()[k].repo)
                    && u.subpath is None
                    && #[trigger] superfluous_findings_upto(step, loc, u, self_hosted, n)[i]
                    == superfluous_finding(step, loc, u, superfluous_actions_spec()[k]),
    decreases n,
{
    if n > 0 && n <= superfluous_actions_spec().len() {
        lemma_findings_name_the_repository(step, loc, u, self_hosted, n - 1);
        let prev = superfluous_findings_upto(step, loc, u, self_hosted, n - 1);
        let all = superfluous_findings_upto(step, loc, u, self_hosted, n);
        let a = superfluous_actions_spec()[n - 1];
        if all != prev {
            assert forall|i: int| 0 <= i < all.len() implies exists|k: int|
                0 <= k < superfluous_actions_spec().len()
                    && eq_ignore_ascii_case(u.owner, superfluous_actions_spec()[k].owner)
                    && eq_ignore_ascii_case(u.repo, superfluous_actions_spec()[k].repo)
                    && u.subpath is None
                    && #[trigger] all[i] == superfluous_finding(step, loc, u, superfluous_actions_spec()[k]) by {
                if i == prev.len() {
                    assert(all[i] == superfluous_finding(step, loc, u, superfluous_actions_spec()[n - 1]));
                } else {
                    assert(all[i] == prev[i]);
                }
            }
        }
    }
}

/// Every entry that names the clause's repository exactly, and is not
/// skipped on this runner, gives a finding.
pub proof fn lemma_named_repository_is_found(step: Step, loc: LocationView, u: RepositoryUsesView, self_hosted: bool, k: int)
    requires
        0 <= k < superfluous_actions_spec().len(),
        eq_ignore_ascii_case(u.owner, superfluous_actions_spec()[k].owner),
        eq_ignore_ascii_case(u.repo, superfluous_actions_spec()[k].repo),
        u.subpath is None,
        !(self_hosted && superfluous_actions_spec()[k].skip == SkipCriteria::SelfHostedRunnerDetected),
    ensures
        superfluous_findings_upto(step, loc, u, self_hosted, superfluous_actions_spec().len() as int).contains(
            superfluous_finding(step, loc, u, superfluous_actions_spec()[k]),
        ),
{
    lemma_upto_keeps_prefix(step, loc, u, self_hosted, k + 1, superfluous_actions_spec().len() as int);
    let at = superfluous_findings_upto(step, loc, u, self_hosted, k + 1);
    let x = superfluous_finding(step, loc, u, superfluous_actions_spec()[k]);
    assert(at.last() == x);
    let all = superfluous_findings_upto(step, loc, u, self_hosted, superfluous_actions_spec().len() as int);
    assert(all[at.len() - 1] == x);
}

proof fn lemma_upto_keeps_prefix(step: Step, loc: LocationView, u: RepositoryUsesView, self_hosted: bool, m: int, n: int)
    requires
        0 <= m <= n <= superfluous_actions_spec().len(),
    ensures
        prefix_of(
            superfluous_findings_upto(step, loc, u, self_hosted, m),
            superfluous_findings_upto(step, loc, u, self_hosted, n),
        ),
    decreases n - m,
{
    if m < n {
        lemma_upto_keeps_prefix(step, loc, u, self_hosted, m, n - 1);
        let a = superfluous_findings_upto(step, loc, u, self_hosted, m);
        let b = superfluous_findings_upto(step, loc, u, self_hosted, n - 1);
        let c = superfluous_findings_upto(step, loc, u, self_hosted, n);
        assert(b.take(a.len() as int) == a);
        assert(c.take(a.len() as int) =~= a) by {
            assert forall|i: int| 0 <= i < a.len() implies c[i] == a[i] by {
                assert(b[i] == b.take(a.len() as int)[i]);
                assert(c[i] == b[i]);
            }
        }
    } else {
        let a = superfluous_findings_upto(step, loc, u, self_hosted, m);
        assert(a.take(a.len() as int) =~= a);
    }
}

/// Of the superfluous actions, only `dtolnay/rust-toolchain` is skipped on
/// self-hosted runners.
proof fn lemma_one_entry_skipped()
    ensures
        superfluous_actions_spec().len() == 14,
        superfluous_actions_spec()[11].skip == SkipCriteria::SelfHostedRunnerDetected,
        forall|k: int|
            0 <= k < superfluous_actions_spec().len() && k != 11 ==> (#[trigger] superfluous_actions_spec()[k]).skip
                == SkipCriteria::Never,
{
}

proof fn lemma_upto_self_hosted_removes(step: Step, loc: LocationView, u: RepositoryUsesView, n: int)
    ensures
        ({
            let a = superfluous_findings_upto(step, loc, u, false, n);
            let b = superfluous_findings_upto(step, loc, u, true, n);
            &&& n <= 11 ==> b == a
            &&& b == a || exists|j: int| 0 <= j < a.len() && b == a.remove(j)
        }),
    decreases n,
{
    lemma_one_entry_skipped();
    if n > 0 && n <= superfluous_actions_spec().len() {
        lemma_upto_self_hosted_removes(step, loc, u, n - 1);
        let pa = superfluous_findings_upto(step, loc, u, false, n - 1);
        let pb = superfluous_findings_upto(step, loc, u, true, n - 1);
        let a = superfluous_findings_upto(step, loc, u, false, n);
        let b = superfluous_findings_upto(step, loc, u, true, n);
        let e = superfluous_actions_spec()[n - 1];
        if n - 1 == 11 {
            assert(pb == pa);
            if pattern_matches(e.owner, e.repo, u) {
                assert(b == a.remove(a.len() - 1));
            }
        } else {
            assert(e.skip == SkipCriteria::Never);
            if pattern_matches(e.owner, e.repo, u) {
                if pb != pa {
                    let j = choose|j: int| 0 <= j < pa.len() && pb == pa.remove(j);
                    assert(b == a.remove(j));
                }
            }
        }
    }
}

/// A self-hosted runner only takes findings away, and at most one: a step's
/// findings there are its findings elsewhere, or those with one left out.
pub proof fn lemma_self_hosted_only_removes(step: Step, loc: LocationView)
    ensures
        ({
            let a = step_superfluous_findings(step, loc, false);
            let b = step_superfluous_findings(step, loc, true);
            b == a || exists|j: int| 0 <= j < a.len() && b == a.remove(j)
        }),
{
    if let StepBody::Uses { uses, .. } = step.body {
        if let Some(u) = parsed_repository_uses(uses@) {
            lemma_upto_self_hosted_removes(step, loc, u, superfluous_actions_spec().len() as int);
        }
    }
}

/// The superfluous-actions audit.
pub struct SuperfluousActions;

impl SuperfluousActions {
    /// The audit's identifier.
    pub fn ident() -> (r: &'static str)
        ensures
            r@ == "superfluous-actions"@,
    {
        "superfluous-actions"
    }

    /// A new instance of the audit.
    pub fn new() -> SuperfluousActions {
        SuperfluousActions
    }

    fn grip(step: &Step, loc: &SymbolicLocation) -> (r: SymbolicLocation)
        ensures
            r@ == location_with_grip(*step, loc@),
    {
        if step.name.is_some() {
            loc.with_key(RouteKey::key("name"))
        } else if step.id.is_some() {
            loc.with_key(RouteKey::key("id"))
        } else {
            loc.duplicate()
        }
    }

    /// Checks a step located at `location` against the superfluous actions.
    pub fn process_step(&self, step: &Step, location: &SymbolicLocation, self_hosted_runner: bool) -> (r:
        Vec<Finding>)
        ensures
            findings_view(r@) == step_superfluous_findings(*step, location@, self_hosted_runner),
    {
        let raw = match &step.body {
            StepBody::Uses { uses, .. } => uses,
            StepBody::Run => {
                let findings: Vec<Finding> = Vec::new();
                assert(findings_view(findings@) =~= Seq::<FindingView>::empty());
                return findings;
            },
        };
        match parse_repository_clause(raw.as_str()) {
            Some(uses) => self.process_repository_step(step, location, &uses, self_hosted_runner),
            None => {
                let findings: Vec<Finding> = Vec::new();
                assert(findings_view(findings@) =~= Seq::<FindingView>::empty());
                findings
            },
        }
    }

    /// Checks a step located at `location`, whose `uses:` is the repository
    /// clause `uses`, against the superfluous actions, in their order.
    pub fn process_repository_step(
        &self,
        step: &Step,
        location: &SymbolicLocation,
        uses: &RepositoryUses,
        self_hosted_runner: bool,
    ) -> (r: Vec<Finding>)
        ensures
            findings_view(r@) == superfluous_findings_upto(
                *step,
                location@,
                uses@,
                self_hosted_runner,
                superfluous_actions_spec().len() as int,
            ),
    {
        let mut findings: Vec<Finding> = Vec::new();
        let actions = superfluous_actions();
        let n = actions.len();
        let mut i: usize = 0;
        while i < n
            invariant
                n == actions@.len(),
                actions_view(actions@) == superfluous_actions_spec(),
                i <= n,
                findings_view(findings@) =~= superfluous_findings_upto(
                    *step,
                    location@,
                    uses@,
                    self_hosted_runner,
                    i as int,
                ),
            decreases n - i,
        {
            let a = &actions[i];
            assert(a@ == superfluous_actions_spec()[i as int]);
            // Some checks are dropped on self-hosted runners.
            let skipped = self_hosted_runner && a.skip == SkipCriteria::SelfHostedRunnerDetected;
            if !skipped && a.pattern.matches(uses) {
                let primary = location.with_key(RouteKey::key("uses")).subfeature(
                    Subfeature { after: 0, fragment: uses.raw.clone() },
                ).annotated(a.recommendation.as_str()).primary();
                let locations = vec![Self::grip(step, location), primary, location.duplicate().hidden()];
                let f = Finding {
                    ident: Self::ident().to_owned(),
                    confidence: a.confidence,
                    severity: Severity::Informational,
                    persona: a.persona,
                    locations,
                };
                assert(f@ == superfluous_finding(*step, location@, uses@, a@)) by {
                    assert(locations_view(f.locations@) =~= superfluous_finding(
                        *step,
                        location@,
                        uses@,
                        a@,
                    ).locations);
                }
                let ghost prev = findings@;
                findings.push(f);
                assert(findings_view(findings@) =~= findings_view(prev).push(f@));
            }
            i = i + 1;
        }
        findings
    }

    /// Audits the steps of a job.
    pub fn audit_normal_job(&self, job: &NormalJob) -> (r: Vec<Finding>)
        ensures
            findings_view(r@) == job_superfluous_findings(*job, job.steps@.len() as int),
    {
        let mut results: Vec<Finding> = Vec::new();
        let n = job.steps.len();
        let mut i: usize = 0;
        while i < n
            invariant
                n == job.steps@.len(),
                i <= n,
                findings_view(results@) =~= job_superfluous_findings(*job, i as int),
            decreases n - i,
        {
            let loc = job.step_location(i);
            let mut found = self.process_step(&job.steps[i], &loc, job.runs_on_self_hosted);
            let ghost prev = results@;
            let ghost add = found@;
            results.append(&mut found);
            assert(findings_view(results@) =~= findings_view(prev) + findings_view(add));
            i = i + 1;
        }
        results
    }

    /// Audits a step of a composite action, located at `location`; such
    /// steps are never skipped for self-hosted runners.
    pub fn audit_composite_step(&self, step: &Step, location: &SymbolicLocation) -> (r: Vec<Finding>)
        ensures
            findings_view(r@) == step_superfluous_findings(*step, location@, false),
    {
        self.process_step(step, location, false)
    }
}

} // verus!
