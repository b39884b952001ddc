use zizmor_core::cache_poisoning::{
    CachePoisoning, Control, ControlFieldType, PublishingArtifactsScenario, Toggle, Usage,
};
use zizmor_core::finding::{Confidence, Severity};
use zizmor_core::location::{LocationKind, RouteKey, SymbolicLocation};
use zizmor_core::models::{
    BareEvent, BranchFilters, Env, Events, NormalJob, OptionalBody, Push, Step, StepBody, Trigger,
};

fn s(v: &str) -> String {
    v.to_string()
}

fn env(pairs: &[(&str, &str)]) -> Env {
    pairs.iter().map(|(k, v)| (s(k), s(v))).collect()
}

fn uses_step(uses: &str, with: &[(&str, &str)]) -> Step {
    Step { name: None, id: None, body: StepBody::Uses { uses: s(uses), with: env(with) } }
}

fn run_step() -> Step {
    Step { name: None, id: None, body: StepBody::Run }
}

fn job(steps: Vec<Step>) -> NormalJob {
    NormalJob { id: s("build"), strategy: None, steps, runs_on_self_hosted: false }
}

fn route(loc: &SymbolicLocation) -> Vec<String> {
    loc.route
        .iter()
        .map(|k| match k {
            RouteKey::Key(k) => k.clone(),
            RouteKey::Index(i) => format!("[{i}]"),
        })
        .collect()
}

fn push_with(branches: Option<BranchFilters>, tags: bool) -> Trigger {
    Trigger::Events(Events {
        push: OptionalBody::Body(Push { branch_filters: branches, has_tag_filters: tags }),
    })
}

#[test]
fn publishing_triggers() {
    let audit = CachePoisoning::new();
    assert!(audit.trigger_used_when_publishing_artifacts(&Trigger::BareEvent(BareEvent::Release)));
    assert!(!audit.trigger_used_when_publishing_artifacts(&Trigger::BareEvent(BareEvent::Push)));
    assert!(audit.trigger_used_when_publishing_artifacts(&Trigger::BareEvents(vec![
        BareEvent::Push,
        BareEvent::Release
    ])));
    assert!(!audit.trigger_used_when_publishing_artifacts(&Trigger::BareEvents(vec![BareEvent::Push])));
    assert!(audit.trigger_used_when_publishing_artifacts(&push_with(None, true)));
    assert!(audit.trigger_used_when_publishing_artifacts(&push_with(
        Some(BranchFilters::Branches(vec![s("main"), s("Release/v1")])),
        false
    )));
    assert!(!audit.trigger_used_when_publishing_artifacts(&push_with(
        Some(BranchFilters::BranchesIgnore(vec![s("release")])),
        false
    )));
    assert!(!audit.trigger_used_when_publishing_artifacts(&push_with(None, false)));
    assert!(!audit.trigger_used_when_publishing_artifacts(&Trigger::Events(Events {
        push: OptionalBody::Default
    })));
}

#[test]
fn detects_publisher_steps() {
    let steps = vec![
        run_step(),
        uses_step("actions/checkout@v4", &[]),
        uses_step("PYPA/gh-action-pypi-publish@release/v1", &[]),
        uses_step("docker/build-push-action@v6", &[]),
    ];
    assert_eq!(CachePoisoning::detected_well_known_publisher_step(&steps), Some(2));
    let steps = vec![uses_step("actions/checkout@v4", &[])];
    assert_eq!(CachePoisoning::detected_well_known_publisher_step(&steps), None);
    let steps = vec![run_step(), uses_step("aws-actions/amazon-ecs-deploy-task-definition@v2", &[])];
    assert_eq!(CachePoisoning::detected_well_known_publisher_step(&steps), Some(1));
}

#[test]
fn user_defined_opt_in() {
    let b = ControlFieldType::Boolean;
    let st = ControlFieldType::String;
    let e = env(&[("cache", "true")]);
    assert_eq!(CachePoisoning::evaluate_user_defined_opt_in("cache", &e, b), Some(Usage::DirectOptIn));
    assert_eq!(CachePoisoning::evaluate_user_defined_opt_in("cache", &e, st), Some(Usage::DirectOptIn));
    let e = env(&[("cache", "false")]);
    assert_eq!(CachePoisoning::evaluate_user_defined_opt_in("cache", &e, b), None);
    assert_eq!(CachePoisoning::evaluate_user_defined_opt_in("cache", &e, st), Some(Usage::DirectOptIn));
    let e = env(&[("cache", "${{ inputs.cache }}")]);
    assert_eq!(CachePoisoning::evaluate_user_defined_opt_in("cache", &e, b), Some(Usage::ConditionalOptIn));
    let e = env(&[("cache", "npm")]);
    assert_eq!(CachePoisoning::evaluate_user_defined_opt_in("cache", &e, st), Some(Usage::DirectOptIn));
    assert_eq!(CachePoisoning::evaluate_user_defined_opt_in("cache", &e, b), None);
    assert_eq!(CachePoisoning::evaluate_user_defined_opt_in("other", &e, st), None);
}

#[test]
fn controllable_caching() {
    let audit = CachePoisoning::new();
    let opt_out = Control { toggle: Toggle::OptOut, field_name: s("lookup-only"), field_type: ControlFieldType::Boolean };
    let opt_in = Control { toggle: Toggle::OptIn, field_name: s("cache"), field_type: ControlFieldType::Boolean };
    assert_eq!(audit.usage_of_controllable_caching(&env(&[]), &opt_out, true), Some(Usage::DefaultActionBehaviour));
    assert_eq!(audit.usage_of_controllable_caching(&env(&[]), &opt_in, false), None);
    assert_eq!(audit.usage_of_controllable_caching(&env(&[("lookup-only", "true")]), &opt_out, true), None);
    assert_eq!(audit.usage_of_controllable_caching(&env(&[("cache", "true")]), &opt_in, false), Some(Usage::DirectOptIn));
    assert_eq!(
        audit.usage_of_controllable_caching(&env(&[("lookup-only", "${{ x }}")]), &opt_out, true),
        Some(Usage::ConditionalOptIn)
    );
}

#[test]
fn cache_usage_of_steps() {
    let audit = CachePoisoning::new();
    assert_eq!(audit.evaluate_cache_usage("actions/cache@v4", &env(&[])), Some(Usage::DefaultActionBehaviour));
    assert_eq!(audit.evaluate_cache_usage("actions/setup-node@v4", &env(&[])), None);
    assert_eq!(audit.evaluate_cache_usage("actions/setup-node@v4", &env(&[("cache", "npm")])), Some(Usage::DirectOptIn));
    assert_eq!(audit.evaluate_cache_usage("Mozilla-Actions/sccache-action@v0.0.9", &env(&[])), Some(Usage::Always));
    assert_eq!(audit.evaluate_cache_usage("actions/checkout@v4", &env(&[])), None);
    assert_eq!(audit.evaluate_cache_usage("./local", &env(&[])), None);
}

#[test]
fn audit_with_release_trigger() {
    let audit = CachePoisoning::new();
    let job = job(vec![
        uses_step("actions/checkout@v4", &[]),
        uses_step("actions/setup-go@v5", &[]),
        run_step(),
        uses_step("actions/setup-python@v5", &[("cache", "pip")]),
    ]);
    let findings = audit.audit_normal_job(&Trigger::BareEvent(BareEvent::Release), &job);
    assert_eq!(findings.len(), 2);
    for f in &findings {
        assert_eq!(f.ident, "cache-poisoning");
        assert_eq!(f.confidence, Confidence::Low);
        assert_eq!(f.severity, Severity::High);
        assert_eq!(f.locations.len(), 2);
        assert_eq!(route(&f.locations[0]), vec![s("on")]);
        assert_eq!(f.locations[0].annotation, "generally used when publishing artifacts generated at runtime");
        assert_eq!(f.locations[1].kind, LocationKind::Primary);
    }
    assert_eq!(route(&findings[0].locations[1]), vec![s("jobs"), s("build"), s("steps"), s("[1]"), s("uses")]);
    assert_eq!(findings[0].locations[1].annotation, "cache enabled by default here");
    assert_eq!(route(&findings[1].locations[1]), vec![s("jobs"), s("build"), s("steps"), s("[3]"), s("with")]);
    assert_eq!(findings[1].locations[1].annotation, "opt-in for caching here");
}

#[test]
fn audit_with_publisher_step() {
    let audit = CachePoisoning::new();
    let job = job(vec![
        uses_step("Swatinem/rust-cache@v2", &[]),
        uses_step("softprops/action-gh-release@v2", &[]),
    ]);
    let trigger = Trigger::BareEvent(BareEvent::Push);
    assert_eq!(
        audit.is_job_publishing_artifacts(&trigger, &job.steps),
        Some(PublishingArtifactsScenario::UsingWellKnowPublisherAction(1))
    );
    let findings = audit.audit_normal_job(&trigger, &job);
    assert_eq!(findings.len(), 1);
    assert_eq!(route(&findings[0].locations[0]), vec![s("jobs"), s("build"), s("steps"), s("[1]"), s("uses")]);
    assert_eq!(findings[0].locations[0].annotation, "runtime artifacts usually published here");
    assert_eq!(route(&findings[0].locations[1]), vec![s("jobs"), s("build"), s("steps"), s("[0]"), s("uses")]);
}

#[test]
fn audit_without_publishing_finds_nothing() {
    let audit = CachePoisoning::new();
    let job = job(vec![uses_step("actions/cache@v4", &[])]);
    assert!(audit.audit_normal_job(&Trigger::BareEvent(BareEvent::PullRequest), &job).is_empty());
    assert_eq!(audit.is_job_publishing_artifacts(&Trigger::BareEvent(BareEvent::PullRequest), &job.steps), None);
}
