use github_actions_expressions::context::Context;
use zizmor_core::location::{LocationKind, RouteKey, SymbolicLocation};
use zizmor_core::matrix::{walk_path, Expansion, Matrix};
use zizmor_core::models::{JobMatrix, NormalJob, Strategy};
use zizmor_core::value::{LoE, Row, Value};

fn s(v: &str) -> String {
    v.to_string()
}

fn string(v: &str) -> Value {
    Value::String(s(v))
}

fn number(v: &str) -> Value {
    Value::Number(s(v))
}

fn object(entries: Vec<(&str, Value)>) -> Value {
    Value::Object(entries.into_iter().map(|(k, v)| (s(k), v)).collect())
}

fn row(entries: Vec<(&str, Value)>) -> Row {
    entries.into_iter().map(|(k, v)| (s(k), v)).collect()
}

fn dims(entries: Vec<(&str, LoE<Vec<Value>>)>) -> LoE<Vec<(String, LoE<Vec<Value>>)>> {
    LoE::Literal(entries.into_iter().map(|(k, v)| (s(k), v)).collect())
}

fn job(id: &str, matrix: LoE<JobMatrix>) -> NormalJob {
    NormalJob {
        id: s(id),
        strategy: Some(Strategy { matrix: Some(matrix) }),
        steps: vec![],
        runs_on_self_hosted: false,
    }
}

fn route(loc: &SymbolicLocation) -> Vec<String> {
    loc.route
        .iter()
        .map(|k| match k {
            RouteKey::Key(k) => k.clone(),
            RouteKey::Index(i) => format!("[{i}]"),
        })
        .collect()
}

fn summary(e: &Expansion) -> (String, String, Vec<String>) {
    (e.path.clone(), e.value.clone(), route(&e.location))
}

fn r(parts: &[&str]) -> Vec<String> {
    parts.iter().map(|p| p.to_string()).collect()
}

#[test]
fn test_matrix_expanded_values() {
    let matrix = LoE::Literal(JobMatrix {
        inclusions: LoE::Literal(vec![row(vec![
            ("os", string("ubuntu-latest")),
            ("node", number("18")),
            ("nested", object(vec![("a", number("5")), ("b", number("6"))])),
        ])]),
        exclusions: LoE::Literal(vec![]),
        dimensions: dims(vec![
            (
                "os",
                LoE::Literal(vec![string("ubuntu-latest"), string("windows-latest"), string("macos-latest")]),
            ),
            ("node", LoE::Literal(vec![number("12"), number("14"), number("16")])),
            (
                "nested",
                LoE::Literal(vec![
                    object(vec![("a", number("1")), ("b", number("2"))]),
                    object(vec![("a", number("3")), ("b", number("4"))]),
                ]),
            ),
        ]),
    });
    let job = job("test", matrix);
    let matrix = Matrix::new(&job).unwrap();
    let expansions = matrix.expansions();
    let got: Vec<_> = expansions.iter().iter().map(summary).collect();
    let base = ["jobs", "test", "strategy", "matrix"];
    let at = |rest: &[&str]| {
        let mut v = r(&base);
        v.extend(r(rest));
        v
    };
    let expected = vec![
        (s("matrix.os"), s("ubuntu-latest"), at(&["os", "[0]"])),
        (s("matrix.os"), s("windows-latest"), at(&["os", "[1]"])),
        (s("matrix.os"), s("macos-latest"), at(&["os", "[2]"])),
        (s("matrix.node"), s("12"), at(&["node", "[0]"])),
        (s("matrix.node"), s("14"), at(&["node", "[1]"])),
        (s("matrix.node"), s("16"), at(&["node", "[2]"])),
        (s("matrix.nested.a"), s("1"), at(&["nested", "[0]", "a"])),
        (s("matrix.nested.b"), s("2"), at(&["nested", "[0]", "b"])),
        (s("matrix.nested.a"), s("3"), at(&["nested", "[1]", "a"])),
        (s("matrix.nested.b"), s("4"), at(&["nested", "[1]", "b"])),
        (s("matrix.os"), s("ubuntu-latest"), at(&["include", "[0]", "os"])),
        (s("matrix.node"), s("18"), at(&["include", "[0]", "node"])),
        (s("matrix.nested.a"), s("5"), at(&["include", "[0]", "nested", "a"])),
        (s("matrix.nested.b"), s("6"), at(&["include", "[0]", "nested", "b"])),
    ];
    assert_eq!(got, expected);
    for e in expansions.iter() {
        assert_eq!(e.location.annotation, "this expansion");
        assert_eq!(e.location.kind, LocationKind::Related);
    }
}

fn static_dynamic_job() -> NormalJob {
    let pair = |a: Value, b: Value| object(vec![("a", a), ("b", b)]);
    job(
        "test",
        LoE::Literal(JobMatrix {
            inclusions: LoE::Literal(vec![]),
            exclusions: LoE::Literal(vec![]),
            dimensions: dims(vec![
                (
                    "trivially-static",
                    LoE::Literal(vec![string("a"), string("b"), string("c"), string("d")]),
                ),
                (
                    "trivially-dynamic",
                    LoE::Literal(vec![string("a"), string("${{ github.ref }}"), string("c"), string("d")]),
                ),
                (
                    "nested-static",
                    LoE::Literal(vec![pair(number("1"), number("2")), pair(number("3"), number("4"))]),
                ),
                (
                    "nested-dynamic",
                    LoE::Literal(vec![
                        pair(number("1"), string("${{ github.ref }}")),
                        pair(number("3"), number("4")),
                    ]),
                ),
            ]),
        }),
    )
}

#[test]
fn test_direct_matrix_expands_to_static_values() {
    let job = static_dynamic_job();
    let matrix = Matrix::new(&job).unwrap();

    assert!(matrix.expands_to_static_values(&Context::parse("matrix.trivially-static").unwrap()));
    assert!(!matrix.expands_to_static_values(&Context::parse("matrix.trivially-dynamic").unwrap()));
    assert!(matrix.expands_to_static_values(&Context::parse("matrix.nested-static.a").unwrap()));
    assert!(!matrix.expands_to_static_values(&Context::parse("matrix.nested-dynamic.b").unwrap()));

    // A nonexistent path expands to static values: the matrix is direct,
    // not a dynamic expression.
    assert!(matrix.expands_to_static_values(&Context::parse("matrix.nonexistent").unwrap()));
}

#[test]
fn test_indirect_matrix_expands_to_static_values() {
    let job = job("test", LoE::Expr(s("${{ dynamic }}")));
    let matrix = Matrix::new(&job).unwrap();
    let expansions = matrix.expansions();
    assert!(expansions.iter().is_empty());
    assert!(expansions.indeterminate_expansions().is_some());
    assert!(expansions.indeterminate_exclusions().is_none());

    assert!(!matrix.expands_to_static_values(&Context::parse("matrix.nonexistent").unwrap()));
}

#[test]
fn test_matrix_expands_indirect_exclusions_inclusions() {
    let job = job(
        "indirect-matrix",
        LoE::Literal(JobMatrix {
            inclusions: LoE::Expr(s("${{ fromJSON(vars.EXTRA_TARGETS) }}")),
            exclusions: LoE::Expr(s("${{ fromJSON(vars.KNOWN_BROKEN_COMBOS) }}")),
            dimensions: dims(vec![
                ("arch", LoE::Literal(vec![string("x86_64"), string("aarch64")])),
                ("image", LoE::Literal(vec![string("ubuntu@latest")])),
            ]),
        }),
    );
    let matrix = Matrix::new(&job).unwrap();
    let expansions = matrix.expansions();
    assert_eq!(expansions.iter().iter().count(), 3);
    assert!(expansions.indeterminate_expansions().is_some());
    assert!(expansions.indeterminate_exclusions().is_some());
    let incl = expansions.indeterminate_expansions().as_ref().unwrap();
    assert_eq!(route(incl), r(&["jobs", "indirect-matrix", "strategy", "matrix", "include"]));
    let excl = expansions.indeterminate_exclusions().as_ref().unwrap();
    assert_eq!(route(excl), r(&["jobs", "indirect-matrix", "strategy", "matrix", "exclude"]));
}

#[test]
fn exclusions_apply_before_inclusions() {
    let job = job(
        "t",
        LoE::Literal(JobMatrix {
            inclusions: LoE::Literal(vec![row(vec![("os", string("windows"))])]),
            exclusions: LoE::Literal(vec![row(vec![("os", string("windows"))])]),
            dimensions: dims(vec![("os", LoE::Literal(vec![string("linux"), string("windows")]))]),
        }),
    );
    let matrix = Matrix::new(&job).unwrap();
    let expansions = matrix.expansions();
    let got: Vec<_> = expansions.iter().iter().map(summary).collect();
    assert_eq!(
        got,
        vec![
            (s("matrix.os"), s("linux"), r(&["jobs", "t", "strategy", "matrix", "os", "[0]"])),
            (s("matrix.os"), s("windows"), r(&["jobs", "t", "strategy", "matrix", "include", "[0]", "os"])),
        ]
    );
    assert!(expansions.indeterminate_expansions().is_none());
    assert!(expansions.indeterminate_exclusions().is_none());
}

#[test]
fn dimensions_given_by_expression_are_indeterminate() {
    let job = job(
        "t",
        LoE::Literal(JobMatrix {
            inclusions: LoE::Literal(vec![row(vec![("os", string("windows"))])]),
            exclusions: LoE::Literal(vec![]),
            dimensions: LoE::Expr(s("${{ fromJSON(x) }}")),
        }),
    );
    let matrix = Matrix::new(&job).unwrap();
    let expansions = matrix.expansions();
    assert!(expansions.iter().is_empty());
    let loc = expansions.indeterminate_expansions().as_ref().unwrap();
    assert_eq!(route(loc), r(&["jobs", "t", "strategy", "matrix"]));
    assert_eq!(loc.annotation, "this matrix");
}

#[test]
fn dimension_expression_expands_to_its_text() {
    let job = job(
        "t",
        LoE::Literal(JobMatrix {
            inclusions: LoE::Literal(vec![]),
            exclusions: LoE::Literal(vec![]),
            dimensions: dims(vec![("os", LoE::Expr(s("${{ fromJSON(x) }}")))]),
        }),
    );
    let matrix = Matrix::new(&job).unwrap();
    let got: Vec<_> = matrix.expansions().iter().iter().map(summary).collect();
    assert_eq!(
        got,
        vec![(s("matrix.os"), s("${{ fromJSON(x) }}"), r(&["jobs", "t", "strategy", "matrix", "os"]))]
    );
    assert!(!matrix.expands_to_static_values(&Context::parse("matrix.os").unwrap()));
}

#[test]
fn walk_skips_null_and_renders_booleans() {
    let tree = Value::Array(vec![Value::Null, Value::Bool(true), Value::Bool(false)]);
    let base = SymbolicLocation::root();
    let got: Vec<_> = walk_path(&tree, &s("matrix.x"), &base).iter().map(summary).collect();
    assert_eq!(
        got,
        vec![(s("matrix.x"), s("true"), r(&["[1]"])), (s("matrix.x"), s("false"), r(&["[2]"]))]
    );
}

#[test]
fn job_without_matrix_has_none() {
    let job = NormalJob { id: s("t"), strategy: None, steps: vec![], runs_on_self_hosted: false };
    assert!(Matrix::new(&job).is_none());
    let job = NormalJob {
        id: s("t"),
        strategy: Some(Strategy { matrix: None }),
        steps: vec![],
        runs_on_self_hosted: false,
    };
    assert!(Matrix::new(&job).is_none());
}

#[test]
fn expansion_equality_ignores_location() {
    let a = Expansion::new(s("matrix.os"), s("linux"), SymbolicLocation::root());
    let b = Expansion::new(
        s("matrix.os"),
        s("linux"),
        SymbolicLocation::root().with_key(RouteKey::key("elsewhere")),
    );
    let c = Expansion::new(s("matrix.os"), s("windows"), SymbolicLocation::root());
    assert!(a == b);
    assert!(a != c);
    assert!(a.is_static());
    let d = Expansion::new(s("matrix.os"), s("x ${{ y }}"), SymbolicLocation::root());
    assert!(!d.is_static());
}

#[test]
fn matrix_location_is_strategy_matrix() {
    let job = static_dynamic_job();
    let matrix = Matrix::new(&job).unwrap();
    let loc = matrix.location();
    assert_eq!(route(&loc), r(&["jobs", "test", "strategy", "matrix"]));
    assert_eq!(loc.annotation, "this matrix");
}

#[test]
fn static_inclusion_keeps_answer() {
    let contexts = [
        "matrix.trivially-static",
        "matrix.trivially-dynamic",
        "matrix.nested-static.a",
        "matrix.nested-dynamic.b",
        "matrix.extra",
    ];
    let before = static_dynamic_job();
    let matrix = Matrix::new(&before).unwrap();
    let answers: Vec<bool> = contexts
        .iter()
        .map(|c| matrix.expands_to_static_values(&Context::parse(c).unwrap()))
        .collect();
    assert_eq!(answers, vec![true, false, true, false, true]);

    let mut after = static_dynamic_job();
    if let Some(Strategy { matrix: Some(LoE::Literal(inner)) }) = &mut after.strategy {
        inner.inclusions = LoE::Literal(vec![row(vec![
            ("trivially-static", string("e")),
            ("trivially-dynamic", string("f")),
            ("extra", object(vec![("a", number("7"))])),
        ])]);
    }
    let matrix = Matrix::new(&after).unwrap();
    assert_eq!(matrix.expansions().iter().len(), 16 + 3);
    let answers_after: Vec<bool> = contexts
        .iter()
        .map(|c| matrix.expands_to_static_values(&Context::parse(c).unwrap()))
        .collect();
    assert_eq!(answers_after, answers);
}
