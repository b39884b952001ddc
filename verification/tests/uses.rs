use zizmor_core::uses::{RepositoryUses, Uses};

fn repo(text: &str) -> RepositoryUses {
    match Uses::from_step(text) {
        Some(Uses::Repository(r)) => r,
        _ => panic!("not a repository clause: {text}"),
    }
}

#[test]
fn parses_step_uses() {
    let r = repo("actions/checkout@v4");
    assert_eq!(r.owner, "actions");
    assert_eq!(r.repo, "checkout");
    assert_eq!(r.subpath, None);
    assert_eq!(r.git_ref.as_deref(), Some("v4"));

    let r = repo("gradle/actions/setup-gradle");
    assert_eq!(r.owner, "gradle");
    assert_eq!(r.repo, "actions");
    assert_eq!(r.subpath.as_deref(), Some("setup-gradle"));
    assert_eq!(r.git_ref, None);

    let r = repo("octo/repo/a/b@main");
    assert_eq!(r.subpath.as_deref(), Some("a/b"));
    assert_eq!(r.git_ref.as_deref(), Some("main"));

    assert!(matches!(Uses::from_step("./local/action"), Some(Uses::Local(p)) if p == "./local/action"));
    assert!(matches!(Uses::from_step("docker://alpine:3.8"), Some(Uses::Docker(d)) if d == "alpine:3.8"));
    assert!(Uses::from_step("checkout@v4").is_none());
}

#[test]
fn matches_template_asymmetrically() {
    let pinned = repo("actions/checkout@v3");
    let template = repo("actions/checkout");
    assert!(pinned.matches(&template));
    assert!(!template.matches(&pinned));
    assert!(repo("Actions/CHECKOUT@v3").matches(&template));
    assert!(!repo("actions/checkout/sub@v3").matches(&template));
    assert!(repo("actions/checkout@v3").matches(&repo("actions/checkout@v3")));
    assert!(!repo("actions/checkout@v4").matches(&repo("actions/checkout@v3")));
    assert!(repo("gradle/actions/Setup-Gradle@v4").matches(&repo("gradle/actions/setup-gradle")));
}
