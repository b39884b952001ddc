use zizmor_core::finding::{Confidence, Persona, Severity};
use zizmor_core::location::{FeatureKind, LocationKind, RouteKey, SymbolicLocation};
use zizmor_core::models::{NormalJob, Step, StepBody};
use zizmor_core::superfluous_actions::SuperfluousActions;
use zizmor_core::uses::RepositoryUses;

fn s(v: &str) -> String {
    v.to_string()
}

fn uses_step(name: Option<&str>, uses: &str) -> Step {
    Step { name: name.map(s), id: None, body: StepBody::Uses { uses: s(uses), with: vec![] } }
}

fn route(loc: &SymbolicLocation) -> Vec<String> {
    loc.route
        .iter()
        .map(|k| match k {
            RouteKey::Key(k) => k.clone(),
            RouteKey::Index(i) => format!("[{i}]"),
        })
        .collect()
}

#[test]
fn flags_superfluous_action() {
    let audit = SuperfluousActions::new();
    let job = NormalJob {
        id: s("release"),
        strategy: None,
        steps: vec![
            uses_step(None, "actions/checkout@v4"),
            uses_step(Some("publish"), "softprops/action-gh-release@v2"),
        ],
        runs_on_self_hosted: false,
    };
    let findings = audit.audit_normal_job(&job);
    assert_eq!(findings.len(), 1);
    let f = &findings[0];
    assert_eq!(f.ident, "superfluous-actions");
    assert_eq!(f.severity, Severity::Informational);
    assert_eq!(f.confidence, Confidence::High);
    assert_eq!(f.persona, Persona::Regular);
    assert_eq!(f.locations.len(), 3);
    assert_eq!(route(&f.locations[0]), vec![s("jobs"), s("release"), s("steps"), s("[1]"), s("name")]);
    assert_eq!(route(&f.locations[1]), vec![s("jobs"), s("release"), s("steps"), s("[1]"), s("uses")]);
    assert_eq!(f.locations[1].kind, LocationKind::Primary);
    assert_eq!(f.locations[1].annotation, "use `gh release` in a script step");
    match &f.locations[1].feature {
        FeatureKind::Subfeature(sf) => {
            assert_eq!(sf.after, 0);
            assert_eq!(sf.fragment, "softprops/action-gh-release@v2");
        }
        FeatureKind::Normal => panic!("expected a subfeature"),
    }
    assert_eq!(f.locations[2].kind, LocationKind::Hidden);
    assert_eq!(route(&f.locations[2]), vec![s("jobs"), s("release"), s("steps"), s("[1]")]);
}

#[test]
fn self_hosted_runner_skips_rust_toolchain() {
    let audit = SuperfluousActions::new();
    let mut job = NormalJob {
        id: s("build"),
        strategy: None,
        steps: vec![uses_step(None, "dtolnay/rust-toolchain@stable")],
        runs_on_self_hosted: false,
    };
    let findings = audit.audit_normal_job(&job);
    assert_eq!(findings.len(), 1);
    assert_eq!(findings[0].persona, Persona::Pedantic);
    assert_eq!(findings[0].confidence, Confidence::Medium);
    assert_eq!(route(&findings[0].locations[0]), vec![s("jobs"), s("build"), s("steps"), s("[0]")]);
    job.runs_on_self_hosted = true;
    assert!(audit.audit_normal_job(&job).is_empty());
}

#[test]
fn ignores_unparseable_subpath_and_run_steps() {
    let audit = SuperfluousActions::new();
    let loc = SymbolicLocation::root();
    // No `@<ref>`: not a repository clause for the parser.
    assert!(audit.audit_composite_step(&uses_step(None, "jq-action/sergeysova"), &loc).is_empty());
    assert!(audit.audit_composite_step(&uses_step(None, "sergeysova/jq-action"), &loc).is_empty());
    // A subpath does not match an exact repository pattern.
    assert!(audit.audit_composite_step(&uses_step(None, "sergeysova/jq-action/sub@v1"), &loc).is_empty());
    assert_eq!(audit.audit_composite_step(&uses_step(None, "SergeySova/JQ-Action@v1"), &loc).len(), 1);
    let run = Step { name: None, id: None, body: StepBody::Run };
    assert!(audit.audit_composite_step(&run, &loc).is_empty());
}

#[test]
fn self_hosted_runner_removes_at_most_one_finding() {
    let audit = SuperfluousActions::new();
    let loc = SymbolicLocation::root();
    for clause in ["dtolnay/rust-toolchain@stable", "sergeysova/jq-action@v1", "actions/checkout@v4"] {
        let step = uses_step(None, clause);
        let elsewhere = audit.process_step(&step, &loc, false);
        let self_hosted = audit.process_step(&step, &loc, true);
        assert!(self_hosted.len() <= elsewhere.len());
        assert!(elsewhere.len() - self_hosted.len() <= 1);
        for f in &self_hosted {
            assert!(elsewhere.iter().any(|g| g.locations[1].annotation == f.locations[1].annotation));
        }
    }
    let step = uses_step(None, "dtolnay/rust-toolchain@stable");
    assert_eq!(audit.process_step(&step, &loc, false).len(), 1);
    assert_eq!(audit.process_step(&step, &loc, true).len(), 0);
}

#[test]
fn repository_step_is_checked_as_given() {
    let audit = SuperfluousActions::new();
    let loc = SymbolicLocation::root();
    let uses = RepositoryUses {
        owner: s("EndBug"),
        repo: s("add-and-commit"),
        subpath: None,
        git_ref: Some(s("v9")),
        raw: s("EndBug/add-and-commit@v9"),
    };
    let step = uses_step(Some("commit"), "EndBug/add-and-commit@v9");
    let findings = audit.process_repository_step(&step, &loc, &uses, true);
    assert_eq!(findings.len(), 1);
    assert_eq!(findings[0].persona, Persona::Pedantic);
    assert_eq!(findings[0].confidence, Confidence::Low);
    assert_eq!(
        findings[0].locations[1].annotation,
        "use `git add`, `git commit`, and `git push` in a script step"
    );
    let with_subpath = RepositoryUses { subpath: Some(s("sub")), ..uses };
    assert!(audit.process_repository_step(&step, &loc, &with_subpath, false).is_empty());
}

#[test]
fn uses_clause_is_trimmed_and_classified() {
    let audit = SuperfluousActions::new();
    let loc = SymbolicLocation::root();
    let findings = audit.audit_composite_step(&uses_step(None, "  sergeysova/jq-action@v1\n"), &loc);
    assert_eq!(findings.len(), 1);
    match &findings[0].locations[1].feature {
        FeatureKind::Subfeature(sf) => assert_eq!(sf.fragment, "sergeysova/jq-action@v1"),
        FeatureKind::Normal => panic!("expected a subfeature"),
    }
    assert!(audit.audit_composite_step(&uses_step(None, "./sergeysova/jq-action@v1"), &loc).is_empty());
    assert!(audit.audit_composite_step(&uses_step(None, "$/sergeysova/jq-action@v1"), &loc).is_empty());
    assert!(audit.audit_composite_step(&uses_step(None, "docker://sergeysova/jq-action@v1"), &loc).is_empty());
}
