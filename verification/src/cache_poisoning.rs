//! The `cache-poisoning` audit: runtime artifacts potentially vulnerable to
//! a cache poisoning attack, i.e. caching actions used in jobs that publish
//! artifacts.

use vstd::prelude::*;
use crate::finding::{Confidence, Finding, FindingView, Persona, Severity, findings_view, locations_view};
use crate::location::{RouteKey, RouteKeyView, SymbolicLocation, root_view};
use crate::models::{
    BareEvent, BranchFilters, Env, NormalJob, OptionalBody, Step, StepBody, Trigger, env_get, env_lookup,
    step_location,
};
use crate::text::{contains_seq, str_contains, to_lowercase, unicode_lowercase, str_eq};
use crate::uses::{RepositoryUsesView, Uses, UsesView, ends_with, parse_step_uses, starts_with, uses_matches};

verus! {

/// How an action's caching is switched by one of its inputs.
#[derive(Debug, Clone, Copy, PartialEq, Eq, Structural)]
pub enum Toggle {
    /// Caching is on when the input enables it.
    OptIn,
    /// Caching is off when the input disables it.
    OptOut,
}

/// The type of the input that controls caching.
#[derive(Debug, Clone, Copy, PartialEq, Eq, Structural)]
pub enum ControlFieldType {
    Boolean,
    String,
}

/// The input of an action that controls its caching.
#[derive(Debug)]
pub struct Control {
    pub toggle: Toggle,
    pub field_name: String,
    pub field_type: ControlFieldType,
}

/// A cache-aware action: configurable through an input, or not at all.
#[derive(Debug)]
pub enum UsesCoordinate {
    Configurable { uses: String, control: Control, enabled_by_default: bool },
    NotConfigurable(String),
}

/// The mathematical form of a [`UsesCoordinate`].
pub enum CoordinateView {
    Configurable {
        uses: Seq<char>,
        toggle: Toggle,
        field_name: Seq<char>,
        field_type: ControlFieldType,
        enabled_by_default: bool,
    },
    NotConfigurable(Seq<char>),
}

impl View for UsesCoordinate {
    type V = CoordinateView;

    open spec fn view(&self) -> CoordinateView {
        match self {
            UsesCoordinate::Configurable { uses, control, enabled_by_default } => {
                CoordinateView::Configurable {
                    uses: uses@,
                    toggle: control.toggle,
                    field_name: control.field_name@,
                    field_type: control.field_type,
                    enabled_by_default: *enabled_by_default,
                }
            },
            UsesCoordinate::NotConfigurable(u) => CoordinateView::NotConfigurable(u@),
        }
    }
}

impl CoordinateView {
    pub open spec fn uses(self) -> Seq<char> {
        match self {
            CoordinateView::Configurable { uses, .. } => uses,
            CoordinateView::NotConfigurable(u) => u,
        }
    }
}

/// How a step uses caching.
#[derive(Debug, Clone, Copy, PartialEq, Eq, Structural)]
pub enum Usage {
    /// The action always restores its cache.
    Always,
    /// The action caches unless told otherwise.
    DefaultActionBehaviour,
    /// The step enables caching explicitly.
    DirectOptIn,
    /// The step enables caching through an expression.
    ConditionalOptIn,
}

pub open spec fn configurable_view(
    uses: Seq<char>,
    toggle: Toggle,
    field_name: Seq<char>,
    field_type: ControlFieldType,
    enabled_by_default: bool,
) -> CoordinateView {
    CoordinateView::Configurable { uses, toggle, field_name, field_type, enabled_by_default }
}

/// The known cache-aware actions, in the order they are looked up.
pub open spec fn known_cache_aware_actions_spec() -> Seq<CoordinateView> {
    seq![
        configurable_view("actions/cache"@, Toggle::OptOut, "lookup-only"@, ControlFieldType::Boolean, true),
        configurable_view("actions/setup-java"@, Toggle::OptIn, "cache"@, ControlFieldType::String, false),
        configurable_view("actions/setup-go"@, Toggle::OptIn, "cache"@, ControlFieldType::Boolean, true),
        configurable_view("actions/setup-node"@, Toggle::OptIn, "cache"@, ControlFieldType::String, false),
        configurable_view("actions/setup-python"@, Toggle::OptIn, "cache"@, ControlFieldType::String, false),
        configurable_view("actions/setup-dotnet"@, Toggle::OptIn, "cache"@, ControlFieldType::Boolean, false),
        configurable_view("astral-sh/setup-uv"@, Toggle::OptOut, "enable-cache"@, ControlFieldType::String, true),
        configurable_view("Swatinem/rust-cache"@, Toggle::OptOut, "lookup-only"@, ControlFieldType::Boolean, true),
        configurable_view("ruby/setup-ruby"@, Toggle::OptIn, "bundler-cache"@, ControlFieldType::Boolean, false),
        configurable_view("PyO3/maturin-action"@, Toggle::OptIn, "sccache"@, ControlFieldType::Boolean, false),
        configurable_view("mlugg/setup-zig"@, Toggle::OptIn, "use-cache"@, ControlFieldType::Boolean, true),
        configurable_view("oven-sh/setup-bun"@, Toggle::OptOut, "no-cache"@, ControlFieldType::Boolean, true),
        configurable_view(
            "DeterminateSystems/magic-nix-cache-action"@,
            Toggle::OptIn,
            "use-gha-cache"@,
            ControlFieldType::Boolean,
            true,
        ),
        configurable_view("graalvm/setup-graalvm"@, Toggle::OptIn, "cache"@, ControlFieldType::String, false),
        configurable_view(
            "gradle/actions/setup-gradle"@,
            Toggle::OptOut,
            "cache-disabled"@,
            ControlFieldType::Boolean,
            true,
        ),
        configurable_view(
            "docker/setup-buildx-action"@,
            Toggle::OptIn,
            "cache-binary"@,
            ControlFieldType::Boolean,
            true,
        ),
        configurable_view(
            "actions-rust-lang/setup-rust-toolchain"@,
            Toggle::OptIn,
            "cache"@,
            ControlFieldType::Boolean,
            true,
        ),
        CoordinateView::NotConfigurable("Mozilla-Actions/sccache-action"@),
        CoordinateView::NotConfigurable("nix-community/cache-nix-action"@),
    ]
}

/// The known publisher actions.
pub open spec fn known_publisher_actions_spec() -> Seq<Seq<char>> {
    seq![
        "pypa/gh-action-pypi-publish"@,
        "rubygems/release-gem"@,
        "jreleaser/release-action"@,
        "goreleaser/goreleaser-action"@,
        "softprops/action-gh-release"@,
        "release-drafter/release-drafter"@,
        "googleapis/release-please-action"@,
        "docker/build-push-action"@,
        "redhat-actions/push-to-registry"@,
        "aws-actions/amazon-ecs-deploy-task-definition"@,
        "aws-actions/aws-cloudformation-github-deploy"@,
        "Azure/aci-deploy"@,
        "Azure/container-apps-deploy-action"@,
        "Azure/functions-action"@,
        "Azure/sql-action"@,
        "cloudflare/wrangler-action"@,
        "google-github-actions/deploy-appengine"@,
        "google-github-actions/deploy-cloudrun"@,
        "google-github-actions/deploy-cloud-functions"@,
    ]
}

fn configurable(
    uses: &str,
    toggle: Toggle,
    field_name: &str,
    field_type: ControlFieldType,
    enabled_by_default: bool,
) -> (r: UsesCoordinate)
    ensures
        r@ == configurable_view(uses@, toggle, field_name@, field_type, enabled_by_default),
{
    UsesCoordinate::Configurable {
        uses: uses.to_owned(),
        control: Control { toggle, field_name: field_name.to_owned(), field_type },
        enabled_by_default,
    }
}

fn not_configurable(uses: &str) -> (r: UsesCoordinate)
    ensures
        r@ == CoordinateView::NotConfigurable(uses@),
{
    UsesCoordinate::NotConfigurable(uses.to_owned())
}

/// The views of a sequence of coordinates.
pub open spec fn coordinates_view(s: Seq<UsesCoordinate>) -> Seq<CoordinateView> {
    s.map_values(|c: UsesCoordinate| c@)
}

/// The known cache-aware actions.
pub fn known_cache_aware_actions() -> (r: Vec<UsesCoordinate>)
    ensures
        coordinates_view(r@) == known_cache_aware_actions_spec(),
{
    let r = vec![
        // https://github.com/actions/cache/blob/main/action.yml
        configurable("actions/cache", Toggle::OptOut, "lookup-only", ControlFieldType::Boolean, true),
        // https://github.com/actions/setup-java/blob/main/action.yml
        configurable("actions/setup-java", Toggle::OptIn, "cache", ControlFieldType::String, false),
        // https://github.com/actions/setup-go/blob/main/action.yml
        configurable("actions/setup-go", Toggle::OptIn, "cache", ControlFieldType::Boolean, true),
        // https://github.com/actions/setup-node/blob/main/action.yml
        configurable("actions/setup-node", Toggle::OptIn, "cache", ControlFieldType::String, false),
        // https://github.com/actions/setup-python/blob/main/action.yml
        configurable("actions/setup-python", Toggle::OptIn, "cache", ControlFieldType::String, false),
        // https://github.com/actions/setup-dotnet/blob/main/action.yml
        configurable("actions/setup-dotnet", Toggle::OptIn, "cache", ControlFieldType::Boolean, false),
        // https://github.com/astral-sh/setup-uv/blob/main/action.yml
        configurable("astral-sh/setup-uv", Toggle::OptOut, "enable-cache", ControlFieldType::String, true),
        // https://github.com/Swatinem/rust-cache/blob/master/action.yml
        configurable("Swatinem/rust-cache", Toggle::OptOut, "lookup-only", ControlFieldType::Boolean, true),
        // https://github.com/ruby/setup-ruby/blob/master/action.yml
        configurable("ruby/setup-ruby", Toggle::OptIn, "bundler-cache", ControlFieldType::Boolean, false),
        // https://github.com/PyO3/maturin-action/blob/main/action.yml
        configurable("PyO3/maturin-action", Toggle::OptIn, "sccache", ControlFieldType::Boolean, false),
        // https://github.com/mlugg/setup-zig/blob/main/action.yml
        configurable("mlugg/setup-zig", Toggle::OptIn, "use-cache", ControlFieldType::Boolean, true),
        // https://github.com/oven-sh/setup-bun/blob/main/action.yml
        configurable("oven-sh/setup-bun", Toggle::OptOut, "no-cache", ControlFieldType::Boolean, true),
        // https://github.com/DeterminateSystems/magic-nix-cache-action/blob/main/action.yml
        configurable(
            "DeterminateSystems/magic-nix-cache-action",
            Toggle::OptIn,
            "use-gha-cache",
            ControlFieldType::Boolean,
            true,
        ),
        // https://github.com/graalvm/setup-graalvm/blob/main/action.yml
        configurable("graalvm/setup-graalvm", Toggle::OptIn, "cache", ControlFieldType::String, false),
        // https://github.com/gradle/actions/blob/main/setup-gradle/action.yml
        configurable(
            "gradle/actions/setup-gradle",
            Toggle::OptOut,
            "cache-disabled",
            ControlFieldType::Boolean,
            true,
        ),
        // https://github.com/docker/setup-buildx-action/blob/master/action.yml
        configurable(
            "docker/setup-buildx-action",
            Toggle::OptIn,
            "cache-binary",
            ControlFieldType::Boolean,
            true,
        ),
        // https://github.com/actions-rust-lang/setup-rust-toolchain/blob/main/action.yml
        configurable(
            "actions-rust-lang/setup-rust-toolchain",
            Toggle::OptIn,
            "cache",
            ControlFieldType::Boolean,
            true,
        ),
        // https://github.com/Mozilla-Actions/sccache-action/blob/main/action.yml
        not_configurable("Mozilla-Actions/sccache-action"),
        // https://github.com/nix-community/cache-nix-action/blob/main/action.yml
        not_configurable("nix-community/cache-nix-action"),
    ];
    assert(coordinates_view(r@) =~= known_cache_aware_actions_spec());
    r
}

/// The known publisher actions: public packages and binary distribution
/// channels, GitHub releases, container registries, cloud and edge
/// providers.
pub fn known_publisher_actions() -> (r: Vec<&'static str>)
    ensures
        r@.map_values(|s: &str| s@) == known_publisher_actions_spec(),
{
    let r = vec![
        "pypa/gh-action-pypi-publish",
        "rubygems/release-gem",
        "jreleaser/release-action",
        "goreleaser/goreleaser-action",
        "softprops/action-gh-release",
        "release-drafter/release-drafter",
        "googleapis/release-please-action",
        "docker/build-push-action",
        "redhat-actions/push-to-registry",
        "aws-actions/amazon-ecs-deploy-task-definition",
        "aws-actions/aws-cloudformation-github-deploy",
        "Azure/aci-deploy",
        "Azure/container-apps-deploy-action",
        "Azure/functions-action",
        "Azure/sql-action",
        "cloudflare/wrangler-action",
        "google-github-actions/deploy-appengine",
        "google-github-actions/deploy-cloudrun",
        "google-github-actions/deploy-cloud-functions",
    ];
    assert(r@.map_values(|s: &str| s@) =~= known_publisher_actions_spec());
    r
}

/// The repository clause that `uses:` text parses to, if any.
pub open spec fn repository_of(text: Seq<char>) -> Option<RepositoryUsesView> {
    match parse_step_uses(text) {
        Some(UsesView::Repository(r)) => Some(r),
        _ => None,
    }
}

/// The repository clause of a step's `uses:`, if it has one.
pub open spec fn step_repository(step: Step) -> Option<RepositoryUsesView> {
    match step.body {
        StepBody::Uses { uses, .. } => repository_of(uses@),
        StepBody::Run => None,
    }
}

/// `u` matches one of the known publisher actions.
pub open spec fn matches_publisher(u: RepositoryUsesView) -> bool {
    exists|k: int|
        0 <= k < known_publisher_actions_spec().len() && (repository_of(
            #[trigger] known_publisher_actions_spec()[k],
        ) matches Some(w) && uses_matches(u, w))
}

/// The step uses a well-known publisher action.
pub open spec fn is_publisher_step(step: Step) -> bool {
    step_repository(step) matches Some(u) && matches_publisher(u)
}

/// The index of the first step at or after `i` that uses a well-known
/// publisher action.
pub open spec fn first_publisher_step(steps: Seq<Step>, i: int) -> Option<int>
    decreases steps.len() - i,
{
    if i < 0 || i >= steps.len() {
        None
    } else if is_publisher_step(steps[i]) {
        Some(i)
    } else {
        first_publisher_step(steps, i + 1)
    }
}

/// The trigger is one typically used when publishing artifacts: a release,
/// or a push of tags or to a branch whose name mentions "release".
pub open spec fn publishing_trigger(trigger: Trigger) -> bool {
    match trigger {
        Trigger::BareEvent(e) => e == BareEvent::Release,
        Trigger::BareEvents(es) => es@.contains(BareEvent::Release),
        Trigger::Events(events) => match events.push {
            OptionalBody::Body(body) => body.has_tag_filters || (body.branch_filters matches Some(
                BranchFilters::Branches(branches),
            ) && exists|i: int|
                0 <= i < branches@.len() && contains_seq(
                    unicode_lowercase(#[trigger] branches@[i]@),
                    "release"@,
                )),
            _ => false,
        },
    }
}

/// Why a job is considered to publish artifacts.
#[derive(Debug, Clone, Copy, PartialEq, Eq, Structural)]
pub enum PublishingArtifactsScenario {
    /// Its workflow's trigger is typical of publishing.
    UsingTypicalWorkflowTrigger,
    /// The step at this index uses a well-known publisher action.
    UsingWellKnowPublisherAction(usize),
}

/// Why the job with these steps, in a workflow with this trigger, is
/// considered to publish artifacts, if it is.
pub open spec fn publishing_scenario(trigger: Trigger, steps: Seq<Step>) -> Option<
    PublishingArtifactsScenario,
> {
    if publishing_trigger(trigger) {
        Some(PublishingArtifactsScenario::UsingTypicalWorkflowTrigger)
    } else {
        match first_publisher_step(steps, 0) {
            Some(i) => Some(PublishingArtifactsScenario::UsingWellKnowPublisherAction(i as usize)),
            None => None,
        }
    }
}

/// The text is a curly expression, as `ExplicitExpr::from_curly` decides.
pub open spec fn is_curly(s: Seq<char>) -> bool {
    starts_with(s, "${{"@) && ends_with(s, "}}"@)
}

/// Calls `ExplicitExpr::from_curly`, which accepts exactly the text that
/// starts with `${{` and ends with `}}`.
#[verifier::external_body]
fn from_curly_accepts(s: &str) -> (r: bool)
    ensures
        r == is_curly(s@),
{
    github_actions_models::common::expr::ExplicitExpr::from_curly(s).is_some()
}

/// What the value the step gives to a cache-control input declares:
/// `true` for a boolean input opts in, `false` opts out; an expression may
/// opt in; any other text opts in for a string input and means nothing for
/// a boolean one.
pub open spec fn user_defined_opt_in(
    input: Seq<char>,
    env: Seq<(String, String)>,
    field_type: ControlFieldType,
) -> Option<Usage> {
    match env_lookup(env, input) {
        None => None,
        Some(v) => if v == "true"@ && field_type == ControlFieldType::Boolean {
            Some(Usage::DirectOptIn)
        } else if v == "false"@ && field_type == ControlFieldType::Boolean {
            None
        } else if is_curly(v) {
            Some(Usage::ConditionalOptIn)
        } else if field_type == ControlFieldType::String {
            Some(Usage::DirectOptIn)
        } else {
            None
        },
    }
}

/// How a step uses the caching of a configurable action: by default when
/// it leaves the control input unset, otherwise as the input declares,
/// where an explicit opt-in to an opt-out toggle disables caching.
pub open spec fn controllable_caching(
    env: Seq<(String, String)>,
    toggle: Toggle,
    field_name: Seq<char>,
    field_type: ControlFieldType,
    enabled_by_default: bool,
) -> Option<Usage> {
    if env_lookup(env, field_name) is Some {
        let declared = user_defined_opt_in(field_name, env, field_type);
        if declared == Some(Usage::DirectOptIn) {
            match toggle {
                Toggle::OptIn => declared,
                Toggle::OptOut => None,
            }
        } else {
            declared
        }
    } else if enabled_by_default {
        Some(Usage::DefaultActionBehaviour)
    } else {
        None
    }
}

/// The known action `c` matches the step's `uses:` text.
pub open spec fn coordinate_matches(c: CoordinateView, target: Seq<char>) -> bool {
    &&& repository_of(c.uses()) matches Some(w)
    &&& repository_of(target) matches Some(t)
    &&& uses_matches(t, w)
}

/// The first known action at or after `i` that matches `target`.
pub open spec fn first_coordinate(cs: Seq<CoordinateView>, target: Seq<char>, i: int) -> Option<
    CoordinateView,
>
    decreases cs.len() - i,
{
    if i < 0 || i >= cs.len() {
        None
    } else if coordinate_matches(cs[i], target) {
        Some(cs[i])
    } else {
        first_coordinate(cs, target, i + 1)
    }
}

/// How a step with `uses: target` and inputs `env` uses caching, if at all.
pub open spec fn cache_usage(target: Seq<char>, env: Seq<(String, String)>) -> Option<Usage> {
    match first_coordinate(known_cache_aware_actions_spec(), target, 0) {
        None => None,
        Some(CoordinateView::Configurable { toggle, field_name, field_type, enabled_by_default, .. }) => {
            controllable_caching(env, toggle, field_name, field_type, enabled_by_default)
        },
        Some(CoordinateView::NotConfigurable(_)) => Some(Usage::Always),
    }
}

/// The key of the step a finding about this usage points at.
pub open spec fn usage_key(u: Usage) -> Seq<char> {
    match u {
        Usage::Always => "uses"@,
        Usage::DefaultActionBehaviour => "uses"@,
        Usage::DirectOptIn => "with"@,
        Usage::ConditionalOptIn => "with"@,
    }
}

/// The annotation of a finding about this usage.
pub open spec fn usage_annotation(u: Usage) -> Seq<char> {
    match u {
        Usage::Always => "caching always restored here"@,
        Usage::DefaultActionBehaviour => "cache enabled by default here"@,
        Usage::DirectOptIn => "opt-in for caching here"@,
        Usage::ConditionalOptIn => "opt-in for caching might happen here"@,
    }
}

/// The finding for step `index` of job `job_id`, which uses caching as
/// `usage`, in a job publishing artifacts for the reason `scenario`.
pub open spec fn cache_finding(
    job_id: Seq<char>,
    index: usize,
    usage: Usage,
    scenario: PublishingArtifactsScenario,
) -> FindingView {
    let reason = match scenario {
        PublishingArtifactsScenario::UsingTypicalWorkflowTrigger => root_view().with_key(
            RouteKeyView::Key("on"@),
        ).annotated("generally used when publishing artifacts generated at runtime"@),
        PublishingArtifactsScenario::UsingWellKnowPublisherAction(p) => step_location(
            job_id,
            p,
        ).with_key(RouteKeyView::Key("uses"@)).annotated("runtime artifacts usually published here"@),
    };
    let step = step_location(job_id, index).with_kind(crate::location::LocationKind::Primary).with_key(
        RouteKeyView::Key(usage_key(usage)),
    ).annotated(usage_annotation(usage));
    FindingView {
        ident: "cache-poisoning"@,
        confidence: Confidence::Low,
        severity: Severity::High,
        persona: Persona::Regular,
        locations: seq![reason, step],
    }
}

/// The finding for step `index` of `job`, if it uses a cache-aware action
/// in a way that caches.
pub open spec fn step_finding(job: NormalJob, index: int, scenario: PublishingArtifactsScenario) -> Option<
    FindingView,
> {
    match job.steps@[index].body {
        StepBody::Uses { uses, with } => match cache_usage(uses@, with@) {
            Some(u) => Some(cache_finding(job.id@, index as usize, u, scenario)),
            None => None,
        },
        StepBody::Run => None,
    }
}

/// The findings for the first `n` steps of `job`, in step order.
pub open spec fn step_findings(job: NormalJob, n: int, scenario: PublishingArtifactsScenario) -> Seq<
    FindingView,
>
    decreases n,
{
    if n <= 0 || n > job.steps@.len() {
        Seq::empty()
    } else {
        let prev = step_findings(job, n - 1, scenario);
        match step_finding(job, n - 1, scenario) {
            Some(f) => prev.push(f),
            None => prev,
        }
    }
}

/// All findings of the audit on a job of a workflow with this trigger: none
/// unless the job publishes artifacts; then one per step that caches.
pub open spec fn cache_poisoning_findings(trigger: Trigger, job: NormalJob) -> Seq<FindingView> {
    match publishing_scenario(trigger, job.steps@) {
        None => Seq::empty(),
        Some(s) => step_findings(job, job.steps@.len() as int, s),
    }
}

/// Enabling the input of an opt-out toggle disables caching: an opt-out
/// action never counts as explicitly opted in.
pub proof fn lemma_opt_out_never_direct(
    env: Seq<(String, String)>,
    field_name: Seq<char>,
    field_type: ControlFieldType,
    enabled_by_default: bool,
)
    ensures
        controllable_caching(env, Toggle::OptOut, field_name, field_type, enabled_by_default) != Some(
            Usage::DirectOptIn,
        ),
{
}

/// Leaving the control input unset follows the action's default.
pub proof fn lemma_unset_follows_default(
    env: Seq<(String, String)>,
    toggle: Toggle,
    field_name: Seq<char>,
    field_type: ControlFieldType,
    enabled_by_default: bool,
)
    requires
        env_lookup(env, field_name) is None,
    ensures
        controllable_caching(env, toggle, field_name, field_type, enabled_by_default) == (if enabled_by_default {
            Some(Usage::DefaultActionBehaviour)
        } else {
            None
        }),
{
}

/// An expression given to the control input can't be evaluated: it is a
/// conditional opt-in, whatever the toggle and the input's type.
pub proof fn lemma_expression_is_conditional(
    env: Seq<(String, String)>,
    toggle: Toggle,
    field_name: Seq<char>,
    field_type: ControlFieldType,
    enabled_by_default: bool,
)
    requires
        env_lookup(env, field_name) matches Some(v) && is_curly(v),
    ensures
        controllable_caching(env, toggle, field_name, field_type, enabled_by_default) == Some(
            Usage::ConditionalOptIn,
        ),
{
    reveal_strlit("true");
    reveal_strlit("false");
    reveal_strlit("${{");
    let v = env_lookup(env, field_name).unwrap();
    assert("${{"@.len() == 3);
    assert(v.take(3)[0] == v[0]);
    assert(v[0] == '$');
    assert("true"@[0] == 't');
    assert("false"@[0] == 'f');
}

/// Once the control input is set, the action's default plays no part: the
/// answer is the same whether the action caches by default or not, an input
/// that declares no opt-in means no caching, and a boolean input set to
/// `false` opts out.
pub proof fn lemma_set_input_overrides_default(
    env: Seq<(String, String)>,
    toggle: Toggle,
    field_name: Seq<char>,
    field_type: ControlFieldType,
)
    requires
        env_lookup(env, field_name) is Some,
    ensures
        controllable_caching(env, toggle, field_name, field_type, true) == controllable_caching(
            env,
            toggle,
            field_name,
            field_type,
            false,
        ),
        user_defined_opt_in(field_name, env, field_type) is None ==> controllable_caching(
            env,
            toggle,
            field_name,
            field_type,
            true,
        ) is None,
        env_lookup(env, field_name) == Some("false"@) && field_type == ControlFieldType::Boolean
            ==> controllable_caching(env, toggle, field_name, field_type, true) is None,
{
    reveal_strlit("true");
    reveal_strlit("false");
    assert("true"@[0] != "false"@[0]);
}

/// A list of bare events publishes exactly when one of its events would
/// publish on its own, wherever in the list it stands.
pub proof fn lemma_event_list_publishes_if_any_event_does(events: Vec<BareEvent>)
    ensures
        publishing_trigger(Trigger::BareEvents(events)) <==> exists|i: int|
            0 <= i < events@.len() && publishing_trigger(Trigger::BareEvent(#[trigger] events@[i])),
{
}

/// The order of a list of bare events does not matter: two lists with the
/// same events publish alike.
pub proof fn lemma_event_order_irrelevant(a: Vec<BareEvent>, b: Vec<BareEvent>)
    requires
        a@.to_set() == b@.to_set(),
    ensures
        publishing_trigger(Trigger::BareEvents(a)) == publishing_trigger(Trigger::BareEvents(b)),
{
    assert(a@.to_set().contains(BareEvent::Release) == a@.contains(BareEvent::Release));
    assert(b@.to_set().contains(BareEvent::Release) == b@.contains(BareEvent::Release));
}

/// Every finding of the audit has low confidence and high severity, and
/// points first at why the job publishes and then, as its primary location,
/// at the caching step; a job that doesn't publish gets no finding.
pub proof fn lemma_cache_findings_shape(trigger: Trigger, job: NormalJob)
    ensures
        publishing_scenario(trigger, job.steps@) is None ==> cache_poisoning_findings(trigger, job).len() == 0,
        forall|i: int|
            0 <= i < cache_poisoning_findings(trigger, job).len() ==> {
                let f = #[trigger] cache_poisoning_findings(trigger, job)[i];
                &&& f.confidence == Confidence::Low
                &&& f.severity == Severity::High
                &&& f.locations.len() == 2
                &&& f.locations[1].kind == crate::location::LocationKind::Primary
            },
{
    match publishing_scenario(trigger, job.steps@) {
        None => {},
        Some(s) => lemma_step_findings_shape(job, job.steps@.len() as int, s),
    }
}

proof fn lemma_step_findings_shape(job: NormalJob, n: int, scenario: PublishingArtifactsScenario)
    ensures
        forall|i: int|
            0 <= i < step_findings(job, n, scenario).len() ==> {
                let f = #[trigger] step_findings(job, n, scenario)[i];
                &&& f.confidence == Confidence::Low
                &&& f.severity == Severity::High
                &&& f.locations.len() == 2
                &&& f.locations[1].kind == crate::location::LocationKind::Primary
            },
    decreases n,
{
    if n > 0 && n <= job.steps@.len() {
        lemma_step_findings_shape(job, n - 1, scenario);
    }
}

fn step_uses_repository(step: &Step) -> (r: Option<crate::uses::RepositoryUses>)
    ensures
        match r {
            Some(u) => step_repository(*step) == Some(u@),
            None => step_repository(*step) is None,
        },
{
    match &step.body {
        StepBody::Uses { uses, .. } => match Uses::from_step(uses.as_str()) {
            Some(Uses::Repository(r)) => Some(r),
            _ => None,
        },
        StepBody::Run => None,
    }
}

fn repository_template(text: &str) -> (r: Option<crate::uses::RepositoryUses>)
    ensures
        match r {
            Some(u) => repository_of(text@) == Some(u@),
            None => repository_of(text@) is None,
        },
{
    match Uses::from_step(text) {
        Some(Uses::Repository(r)) => Some(r),
        _ => None,
    }
}

/// The cache-poisoning audit.
pub struct CachePoisoning;

impl CachePoisoning {
    /// The audit's identifier.
    pub fn ident() -> (r: &'static str)
        ensures
            r@ == "cache-poisoning"@,
    {
        "cache-poisoning"
    }

    /// A new instance of the audit.
    pub fn new() -> CachePoisoning {
        CachePoisoning
    }

    /// Whether the trigger is typically used when publishing artifacts.
    pub fn trigger_used_when_publishing_artifacts(&self, trigger: &Trigger) -> (r: bool)
        ensures
            r == publishing_trigger(*trigger),
    {
        match trigger {
            Trigger::BareEvent(event) => match event {
                BareEvent::Release => true,
                _ => false,
            },
            Trigger::BareEvents(events) => Self::contains_release(events),
            Trigger::Events(events) => match &events.push {
                OptionalBody::Body(body) => {
                    let pushing_new_tag = body.has_tag_filters;
                    let pushing_to_release_branch = match &body.branch_filters {
                        Some(BranchFilters::Branches(branches)) => Self::any_release_branch(branches),
                        _ => false,
                    };
                    pushing_new_tag || pushing_to_release_branch
                },
                _ => false,
            },
        }
    }

    fn contains_release(events: &Vec<BareEvent>) -> (r: bool)
        ensures
            r == events@.contains(BareEvent::Release),
    {
        let n = events.len();
        let mut i: usize = 0;
        while i < n
            invariant
                n == events@.len(),
                i <= n,
                forall|k: int| 0 <= k < i ==> events@[k] != BareEvent::Release,
            decreases n - i,
        {
            if let BareEvent::Release = events[i] {
                assert(events@[i as int] == BareEvent::Release);
                return true;
            }
            i = i + 1;
        }
        false
    }

    fn any_release_branch(branches: &Vec<String>) -> (r: bool)
        ensures
            r == exists|i: int|
                0 <= i < branches@.len() && contains_seq(
                    unicode_lowercase(#[trigger] branches@[i]@),
                    "release"@,
                ),
    {
        let n = branches.len();
        let mut i: usize = 0;
        while i < n
            invariant
                n == branches@.len(),
                i <= n,
                forall|k: int|
                    0 <= k < i ==> !contains_seq(unicode_lowercase(#[trigger] branches@[k]@), "release"@),
            decreases n - i,
        {
            let lower = to_lowercase(branches[i].as_str());
            if str_contains(lower.as_str(), "release") {
                return true;
            }
            i = i + 1;
        }
        false
    }

    fn matches_known_publisher(target: &crate::uses::RepositoryUses) -> (r: bool)
        ensures
            r == matches_publisher(target@),
    {
        let publishers = known_publisher_actions();
        let n = publishers.len();
        let mut i: usize = 0;
        while i < n
            invariant
                n == publishers@.len(),
                publishers@.map_values(|s: &str| s@) == known_publisher_actions_spec(),
                i <= n,
                forall|k: int|
                    0 <= k < i ==> !(repository_of(#[trigger] known_publisher_actions_spec()[k]) matches Some(
                        w,
                    ) && uses_matches(target@, w)),
            decreases n - i,
        {
            assert(publishers@[i as int]@ == known_publisher_actions_spec()[i as int]);
            if let Some(well_known) = repository_template(publishers[i]) {
                if target.matches(&well_known) {
                    return true;
                }
            }
            i = i + 1;
        }
        false
    }

    /// The index of the first step that uses a well-known publisher action.
    pub fn detected_well_known_publisher_step(steps: &Vec<Step>) -> (r: Option<usize>)
        ensures
            match r {
                Some(i) => first_publisher_step(steps@, 0) == Some(i as int),
                None => first_publisher_step(steps@, 0) is None,
            },
    {
        let n = steps.len();
        let mut i: usize = 0;
        while i < n
            invariant
                n == steps@.len(),
                i <= n,
                first_publisher_step(steps@, 0) == first_publisher_step(steps@, i as int),
            decreases n - i,
        {
            if let Some(target) = step_uses_repository(&steps[i]) {
                if Self::matches_known_publisher(&target) {
                    return Some(i);
                }
            }
            i = i + 1;
        }
        None
    }

    /// Why the job is considered to publish artifacts, if it is.
    pub fn is_job_publishing_artifacts(&self, trigger: &Trigger, steps: &Vec<Step>) -> (r: Option<
        PublishingArtifactsScenario,
    >)
        ensures
            r == publishing_scenario(*trigger, steps@),
    {
        if self.trigger_used_when_publishing_artifacts(trigger) {
            return Some(PublishingArtifactsScenario::UsingTypicalWorkflowTrigger);
        }
        match Self::detected_well_known_publisher_step(steps) {
            Some(i) => Some(PublishingArtifactsScenario::UsingWellKnowPublisherAction(i)),
            None => None,
        }
    }

    /// What the value given to the cache-control input declares.
    pub fn evaluate_user_defined_opt_in(
        cache_control_input: &str,
        env: &Env,
        field_type: ControlFieldType,
    ) -> (r: Option<Usage>)
        ensures
            r == user_defined_opt_in(cache_control_input@, env@, field_type),
    {
        match env_get(env, cache_control_input) {
            None => None,
            Some(value) => {
                let v = value.as_str();
                if str_eq(v, "true") && field_type == ControlFieldType::Boolean {
                    Some(Usage::DirectOptIn)
                } else if str_eq(v, "false") && field_type == ControlFieldType::Boolean {
                    // Explicitly opts out from caching.
                    None
                } else if from_curly_accepts(v) {
                    Some(Usage::ConditionalOptIn)
                } else if field_type == ControlFieldType::String {
                    Some(Usage::DirectOptIn)
                } else {
                    None
                }
            },
        }
    }

    /// How the step uses the caching of a configurable action.
    pub fn usage_of_controllable_caching(
        &self,
        env: &Env,
        control: &Control,
        enabled_by_default: bool,
    ) -> (r: Option<Usage>)
        ensures
            r == controllable_caching(
                env@,
                control.toggle,
                control.field_name@,
                control.field_type,
                enabled_by_default,
            ),
    {
        match env_get(env, control.field_name.as_str()) {
            // Without the input that controls caching, the action's default
            // decides.
            None => {
                if enabled_by_default {
                    Some(Usage::DefaultActionBehaviour)
                } else {
                    None
                }
            },
            // Otherwise the value given to the input decides.
            Some(_) => {
                let declared = Self::evaluate_user_defined_opt_in(
                    control.field_name.as_str(),
                    env,
                    control.field_type,
                );
                match declared {
                    Some(Usage::DirectOptIn) => match control.toggle {
                        Toggle::OptIn => declared,
                        // Opting in to an opt-out toggle disables caching.
                        Toggle::OptOut => None,
                    },
                    // Expressions can't be evaluated: a conditional opt-in stays.
                    _ => declared,
                }
            },
        }
    }

    /// How a step with `uses: target_step` and inputs `env` uses caching.
    pub fn evaluate_cache_usage(&self, target_step: &str, env: &Env) -> (r: Option<Usage>)
        ensures
            r == cache_usage(target_step@, env@),
    {
        let actions = known_cache_aware_actions();
        let n = actions.len();
        let mut i: usize = 0;
        while i < n
            invariant
                n == actions@.len(),
                coordinates_view(actions@) == known_cache_aware_actions_spec(),
                i <= n,
                first_coordinate(known_cache_aware_actions_spec(), target_step@, 0)
                    == first_coordinate(known_cache_aware_actions_spec(), target_step@, i as int),
            decreases n - i,
        {
            let action = &actions[i];
            assert(action@ == known_cache_aware_actions_spec()[i as int]);
            let action_uses = match action {
                UsesCoordinate::Configurable { uses, .. } => uses,
                UsesCoordinate::NotConfigurable(uses) => uses,
            };
            let hit = match repository_template(action_uses.as_str()) {
                Some(well_known) => match repository_template(target_step) {
                    Some(target) => target.matches(&well_known),
                    None => false,
                },
                None => false,
            };
            if hit {
                return match action {
                    UsesCoordinate::Configurable { uses: _, control, enabled_by_default } => {
                        self.usage_of_controllable_caching(env, control, *enabled_by_default)
                    },
                    UsesCoordinate::NotConfigurable(_) => Some(Usage::Always),
                };
            }
            i = i + 1;
        }
        None
    }

    /// The finding for step `index` of `job`, if it uses caching.
    pub fn uses_cache_aware_step(
        &self,
        job: &NormalJob,
        index: usize,
        scenario: PublishingArtifactsScenario,
    ) -> (r: Option<Finding>)
        requires
            index < job.steps@.len(),
        ensures
            match r {
                Some(f) => step_finding(*job, index as int, scenario) == Some(f@),
                None => step_finding(*job, index as int, scenario) is None,
            },
    {
        let (uses, with) = match &job.steps[index].body {
            StepBody::Uses { uses, with } => (uses, with),
            StepBody::Run => {
                return None;
            },
        };
        let cache_usage = match self.evaluate_cache_usage(uses.as_str(), with) {
            Some(u) => u,
            None => {
                return None;
            },
        };
        let (yaml_key, annotation) = match cache_usage {
            Usage::Always => ("uses", "caching always restored here"),
            Usage::DefaultActionBehaviour => ("uses", "cache enabled by default here"),
            Usage::DirectOptIn => ("with", "opt-in for caching here"),
            Usage::ConditionalOptIn => ("with", "opt-in for caching might happen here"),
        };
        let reason = match scenario {
            PublishingArtifactsScenario::UsingTypicalWorkflowTrigger => SymbolicLocation::root().with_key(
                RouteKey::key("on"),
            ).annotated("generally used when publishing artifacts generated at runtime"),
            PublishingArtifactsScenario::UsingWellKnowPublisherAction(publisher) => job.step_location(
                publisher,
            ).with_key(RouteKey::key("uses")).annotated("runtime artifacts usually published here"),
        };
        let step = job.step_location(index).primary().with_key(RouteKey::key(yaml_key)).annotated(
            annotation,
        );
        let locations = vec![reason, step];
        let f = Finding {
            ident: Self::ident().to_owned(),
            confidence: Confidence::Low,
            severity: Severity::High,
            persona: Persona::Regular,
            locations,
        };
        assert(locations_view(f.locations@) =~= cache_finding(
            job.id@,
            index,
            cache_usage,
            scenario,
        ).locations);
        Some(f)
    }

    /// Audits a job of a workflow with the given trigger.
    pub fn audit_normal_job(&self, trigger: &Trigger, job: &NormalJob) -> (r: Vec<Finding>)
        ensures
            findings_view(r@) == cache_poisoning_findings(*trigger, *job),
    {
        let mut findings: Vec<Finding> = Vec::new();
        let scenario = match self.is_job_publishing_artifacts(trigger, &job.steps) {
            Some(s) => s,
            None => {
                assert(findings_view(findings@) =~= Seq::<FindingView>::empty());
                return findings;
            },
        };
        let n = job.steps.len();
        let mut i: usize = 0;
        while i < n
            invariant
                n == job.steps@.len(),
                i <= n,
                findings_view(findings@) =~= step_findings(*job, i as int, scenario),
            decreases n - i,
        {
            if let Some(finding) = self.uses_cache_aware_step(job, i, scenario) {
                let ghost prev = findings@;
                findings.push(finding);
                assert(findings_view(findings@) =~= findings_view(prev).push(finding@));
            }
            i = i + 1;
        }
        findings
    }
}

} // verus!
