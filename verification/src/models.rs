//! Plain-value forms of the parts of a workflow that the audits read.

use vstd::prelude::*;
use crate::location::{RouteKey, RouteKeyView, LocationView, SymbolicLocation, root_view, route_view};
use crate::value::{LoE, Row, Value};
use crate::text::str_eq;

verus! {

/// A job's `strategy.matrix` body.
#[derive(Debug)]
pub struct JobMatrix {
    /// The `include:` rows.
    pub inclusions: LoE<Vec<Row>>,
    /// The `exclude:` rows.
    pub exclusions: LoE<Vec<Row>>,
    /// The remaining keys: one dimension per key, each a list of values.
    pub dimensions: LoE<Vec<(String, LoE<Vec<Value>>)>>,
}

/// A job's `strategy:` block.
#[derive(Debug)]
pub struct Strategy {
    pub matrix: Option<LoE<JobMatrix>>,
}

/// An environment or `with:` mapping: keys with the text of their values
/// (numbers and booleans as GitHub Actions stringifies them).
pub type Env = Vec<(String, String)>;

/// The value of the first entry of `env` with key `key`.
pub open spec fn env_lookup(env: Seq<(String, String)>, key: Seq<char>) -> Option<Seq<char>>
    decreases env.len(),
{
    if env.len() == 0 {
        None
    } else if env[0].0@ == key {
        Some(env[0].1@)
    } else {
        env_lookup(env.drop_first(), key)
    }
}

/// The body of a step.
#[derive(Debug)]
pub enum StepBody {
    /// `uses:` with its `with:` inputs.
    Uses { uses: String, with: Env },
    /// `run:`.
    Run,
}

/// A step of a job.
#[derive(Debug)]
pub struct Step {
    pub name: Option<String>,
    pub id: Option<String>,
    pub body: StepBody,
}

/// A normal (non-reusable-workflow) job.
#[derive(Debug)]
pub struct NormalJob {
    /// The job's key under `jobs:`.
    pub id: String,
    pub strategy: Option<Strategy>,
    pub steps: Vec<Step>,
    /// Whether `runs-on:` selects a self-hosted runner.
    pub runs_on_self_hosted: bool,
}

/// A workflow event that can be given by name alone.
#[derive(Debug, Clone, Copy, PartialEq, Eq, Structural)]
pub enum BareEvent {
    BranchProtectionRule,
    CheckRun,
    CheckSuite,
    Create,
    Delete,
    Deployment,
    DeploymentStatus,
    Discussion,
    DiscussionComment,
    Fork,
    Gollum,
    ImageVersion,
    IssueComment,
    Issues,
    Label,
    MergeGroup,
    Milestone,
    PageBuild,
    Project,
    ProjectCard,
    ProjectColumn,
    Public,
    PullRequest,
    PullRequestReview,
    PullRequestReviewComment,
    PullRequestTarget,
    Push,
    RegistryPackage,
    Release,
    RepositoryDispatch,
    Status,
    Watch,
    WorkflowCall,
    WorkflowDispatch,
    WorkflowRun,
}

/// Branch filters of a `push` trigger.
#[derive(Debug)]
pub enum BranchFilters {
    Branches(Vec<String>),
    BranchesIgnore(Vec<String>),
}

/// The body of a `push` trigger, as far as the audits read it.
#[derive(Debug)]
pub struct Push {
    pub branch_filters: Option<BranchFilters>,
    /// Whether `tags:` or `tags-ignore:` is given.
    pub has_tag_filters: bool,
}

/// An event under `on:` that may be absent, present with defaults, or
/// present with a body.
#[derive(Debug)]
pub enum OptionalBody<T> {
    Default,
    Missing,
    Body(T),
}

/// The events of an `on:` mapping, as far as the audits read them.
#[derive(Debug)]
pub struct Events {
    pub push: OptionalBody<Push>,
}

/// A workflow's `on:` trigger, in the form it is written in.
#[derive(Debug)]
pub enum Trigger {
    /// `on: release`
    BareEvent(BareEvent),
    /// `on: [push, release]`
    BareEvents(Vec<BareEvent>),
    /// `on: { push: ... }`
    Events(Events),
}

/// The location of step `index` of the job with the given id.
pub open spec fn step_location(job_id: Seq<char>, index: usize) -> LocationView {
    job_location(job_id).with_keys(
        seq![RouteKeyView::Key("steps"@), RouteKeyView::Index(index)],
    ).annotated("this step"@)
}

/// The location of the job with the given id.
pub open spec fn job_location(id: Seq<char>) -> LocationView {
    root_view().annotated("this job"@).with_keys(
        seq![RouteKeyView::Key("jobs"@), RouteKeyView::Key(id)],
    )
}

impl NormalJob {
    /// This job's location in its workflow.
    pub fn location(&self) -> (r: SymbolicLocation)
        ensures
            r@ == job_location(self.id@),
    {
        let keys = vec![RouteKey::key("jobs"), RouteKey::Key(self.id.clone())];
        let r = SymbolicLocation::root().annotated("this job").with_keys(keys);
        assert(route_view(keys@) =~= seq![RouteKeyView::Key("jobs"@), RouteKeyView::Key(self.id@)]);
        r
    }

    /// The location of step `index` of this job.
    pub fn step_location(&self, index: usize) -> (r: SymbolicLocation)
        ensures
            r@ == step_location(self.id@, index),
    {
        let keys = vec![RouteKey::key("steps"), RouteKey::Index(index)];
        let r = self.location().with_keys(keys).annotated("this step");
        assert(route_view(keys@) =~= seq![RouteKeyView::Key("steps"@), RouteKeyView::Index(index)]);
        r
    }
}

/// Looks a key up in an environment mapping.
pub fn env_get<'a>(env: &'a Env, key: &str) -> (r: Option<&'a String>)
    ensures
        match r {
            Some(v) => env_lookup(env@, key@) == Some(v@),
            None => env_lookup(env@, key@) is None,
        },
{
    let n = env.len();
    let mut i: usize = 0;
    assert(env@.skip(0) =~= env@);
    while i < n
        invariant
            n == env@.len(),
            i <= n,
            env_lookup(env@, key@) == env_lookup(env@.skip(i as int), key@),
        decreases n - i,
    {
        assert(env@.skip(i as int).drop_first() =~= env@.skip(i + 1));
        if str_eq(env[i].0.as_str(), key) {
            return Some(&env[i].1);
        }
        i = i + 1;
    }
    None
}

} // verus!
