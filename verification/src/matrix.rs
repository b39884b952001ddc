//! Strategy matrix modeling and expansion.

use vstd::prelude::*;
use crate::location::{LocationView, RouteKey, RouteKeyView, SymbolicLocation, route_view};
use crate::models::{JobMatrix, NormalJob, job_location};
use crate::value::{LoE, Row, Value};
use crate::context::{context_matches, context_matches_pattern};
use crate::text::{extract_fenced_expression, has_fenced_expression};
use github_actions_expressions::context::Context;
use vstd::std_specs::cmp::PartialEqSpecImpl;

verus! {

/// A concrete expansion of a matrix: the path `matrix.os` with the value
/// `ubuntu-latest`, say, and where in the document it comes from.
#[derive(Debug)]
pub struct Expansion {
    /// The expanded path within the matrix.
    pub path: String,
    /// The expanded value at the given path.
    pub value: String,
    /// The expansion's origin location in the document.
    pub location: SymbolicLocation,
}

/// The mathematical form of an [`Expansion`].
pub struct ExpansionView {
    pub path: Seq<char>,
    pub value: Seq<char>,
    pub location: LocationView,
}

impl View for Expansion {
    type V = ExpansionView;

    open spec fn view(&self) -> ExpansionView {
        ExpansionView { path: self.path@, value: self.value@, location: self.location@ }
    }
}

/// The views of a sequence of expansions.
pub open spec fn expansions_view(s: Seq<Expansion>) -> Seq<ExpansionView> {
    s.map_values(|e: Expansion| e@)
}

/// The text a boolean scalar expands to.
pub open spec fn bool_text(b: bool) -> Seq<char> {
    if b {
        "true"@
    } else {
        "false"@
    }
}

/// The expansions of a JSON tree at `path`: scalars give one expansion each,
/// `null` none; array items keep the path and extend the location by their
/// index; object entries extend both path (`path.key`) and location (`key`).
pub open spec fn walk(tree: Value, path: Seq<char>, loc: LocationView) -> Seq<ExpansionView>
    decreases tree, 0int,
{
    match tree {
        Value::Null => Seq::empty(),
        Value::Bool(b) => seq![ExpansionView { path, value: bool_text(b), location: loc }],
        Value::Number(n) => seq![ExpansionView { path, value: n@, location: loc }],
        Value::String(s) => seq![ExpansionView { path, value: s@, location: loc }],
        Value::Array(items) => walk_items(items@, items@.len() as int, path, loc),
        Value::Object(entries) => walk_entries(entries@, entries@.len() as int, path, loc),
    }
}

/// The expansions of the first `n` array items, in order.
pub open spec fn walk_items(items: Seq<Value>, n: int, path: Seq<char>, loc: LocationView) -> Seq<
    ExpansionView,
>
    decreases items, n,
{
    if n <= 0 || n > items.len() {
        Seq::empty()
    } else {
        walk_items(items, n - 1, path, loc) + walk(
            items[n - 1],
            path,
            loc.with_key(RouteKeyView::Index((n - 1) as usize)),
        )
    }
}

/// The path of an object entry with key `key` under `path`.
pub open spec fn child_path(path: Seq<char>, key: Seq<char>) -> Seq<char> {
    path + seq!['.'] + key
}

/// The expansions of the first `n` object entries, in order.
pub open spec fn walk_entries(
    entries: Seq<(String, Value)>,
    n: int,
    path: Seq<char>,
    loc: LocationView,
) -> Seq<ExpansionView>
    decreases entries, n,
{
    if n <= 0 || n > entries.len() {
        Seq::empty()
    } else {
        walk_entries(entries, n - 1, path, loc) + walk(
            entries[n - 1].1,
            child_path(path, entries[n - 1].0@),
            loc.with_key(RouteKeyView::Key(entries[n - 1].0@)),
        )
    }
}

/// Two expansions are the same when path and value agree; where they come
/// from does not matter.
pub open spec fn same_expansion(a: ExpansionView, b: ExpansionView) -> bool {
    a.path == b.path && a.value == b.value
}

impl PartialEq for Expansion {
    fn eq(&self, other: &Self) -> (r: bool) {
        self.path == other.path && self.value == other.value
    }
}

impl PartialEqSpecImpl for Expansion {
    open spec fn obeys_eq_spec() -> bool {
        true
    }

    open spec fn eq_spec(&self, other: &Expansion) -> bool {
        same_expansion(self@, other@)
    }
}

impl Expansion {
    /// A copy of this expansion.
    pub fn duplicate(&self) -> (r: Expansion)
        ensures
            r@ == self@,
    {
        Expansion {
            path: self.path.clone(),
            value: self.value.clone(),
            location: self.location.duplicate(),
        }
    }

    /// This expansion's origin location.
    pub fn location(&self) -> (r: SymbolicLocation)
        ensures
            r@ == self.location@,
    {
        self.location.duplicate()
    }

    /// Whether this expansion's value is static, i.e. holds no fenced
    /// `${{ ... }}` expression.
    pub fn is_static(&self) -> (r: bool)
        ensures
            r == !has_fenced_expression(self.value@),
    {
        extract_fenced_expression(self.value.as_str()).is_none()
    }

    /// An expansion of `path` to `value`, originating at `location`.
    pub fn new(path: String, value: String, location: SymbolicLocation) -> (r: Expansion)
        ensures
            r@ == (ExpansionView { path: path@, value: value@, location: location@ }),
    {
        Expansion { path, value, location }
    }
}

fn bool_string(b: bool) -> (r: String)
    ensures
        r@ == bool_text(b),
{
    if b {
        "true".to_owned()
    } else {
        "false".to_owned()
    }
}

/// Walks a JSON tree, expanding it into one expansion per scalar leaf.
pub fn walk_path(tree: &Value, current_path: &String, base: &SymbolicLocation) -> (r: Vec<Expansion>)
    ensures
        expansions_view(r@) == walk(*tree, current_path@, base@),
    decreases tree, 0int,
{
    match tree {
        Value::Null => {
            let r: Vec<Expansion> = Vec::new();
            assert(expansions_view(r@) =~= Seq::<ExpansionView>::empty());
            r
        },
        Value::Bool(b) => {
            let r = vec![Expansion::new(current_path.clone(), bool_string(*b), base.duplicate())];
            assert(expansions_view(r@) =~= walk(*tree, current_path@, base@));
            r
        },
        Value::Number(n) => {
            let r = vec![Expansion::new(current_path.clone(), n.clone(), base.duplicate())];
            assert(expansions_view(r@) =~= walk(*tree, current_path@, base@));
            r
        },
        Value::String(s) => {
            let r = vec![Expansion::new(current_path.clone(), s.clone(), base.duplicate())];
            assert(expansions_view(r@) =~= walk(*tree, current_path@, base@));
            r
        },
        Value::Array(items) => walk_array(items, current_path, base),
        Value::Object(entries) => walk_object(entries, current_path, base),
    }
}

/// Expands each array item at the same path, locating it by its index.
pub fn walk_array(items: &Vec<Value>, current_path: &String, base: &SymbolicLocation) -> (r: Vec<
    Expansion,
>)
    ensures
        expansions_view(r@) == walk_items(items@, items@.len() as int, current_path@, base@),
    decreases items, items@.len() + 1,
{
    let mut out: Vec<Expansion> = Vec::new();
    let n = items.len();
    let mut i: usize = 0;
    while i < n
        invariant
            n == items@.len(),
            i <= n,
            expansions_view(out@) =~= walk_items(items@, i as int, current_path@, base@),
        decreases n - i,
    {
        let mut sub = walk_path(&items[i], current_path, &base.with_key(RouteKey::Index(i)));
        let ghost prev = out@;
        let ghost subv = sub@;
        out.append(&mut sub);
        assert(expansions_view(out@) =~= expansions_view(prev) + expansions_view(subv));
        i = i + 1;
    }
    out
}

/// Expands each object entry at `path.key`, locating it by its key.
pub fn walk_object(entries: &Vec<(String, Value)>, current_path: &String, base: &SymbolicLocation) -> (r:
    Vec<Expansion>)
    ensures
        expansions_view(r@) == walk_entries(
            entries@,
            entries@.len() as int,
            current_path@,
            base@,
        ),
    decreases entries, entries@.len() + 1,
{
    let mut out: Vec<Expansion> = Vec::new();
    let n = entries.len();
    let mut i: usize = 0;
    while i < n
        invariant
            n == entries@.len(),
            i <= n,
            expansions_view(out@) =~= walk_entries(entries@, i as int, current_path@, base@),
        decreases n - i,
    {
        let (key, value) = &entries[i];
        let mut new_path = current_path.clone();
        new_path.append(".");
        new_path.append(key.as_str());
        proof {
            reveal_strlit(".");
        }
        assert(new_path@ =~= child_path(current_path@, key@));
        let mut sub = walk_path(value, &new_path, &base.with_key(RouteKey::Key(key.clone())));
        let ghost prev = out@;
        let ghost subv = sub@;
        out.append(&mut sub);
        assert(expansions_view(out@) =~= expansions_view(prev) + expansions_view(subv));
        i = i + 1;
    }
    out
}


/// The path under which a top-level matrix key expands.
pub open spec fn key_path(key: Seq<char>) -> Seq<char> {
    "matrix."@ + key
}

/// Where the expansions of top-level key `key` come from.
pub open spec fn key_location(base: LocationView, key: Seq<char>) -> LocationView {
    base.with_key(RouteKeyView::Key(key)).annotated("this expansion"@)
}

/// The expansions of the first `n` top-level entries of a normalized row.
pub open spec fn expand_spec(values: Seq<(String, Value)>, n: int, base: LocationView) -> Seq<
    ExpansionView,
>
    decreases n,
{
    if n <= 0 || n > values.len() {
        Seq::empty()
    } else {
        expand_spec(values, n - 1, base) + walk(
            values[n - 1].1,
            key_path(values[n - 1].0@),
            key_location(base, values[n - 1].0@),
        )
    }
}

/// All expansions of a normalized row.
pub open spec fn expand_row(values: Seq<(String, Value)>, base: LocationView) -> Seq<ExpansionView> {
    expand_spec(values, values.len() as int, base)
}

/// A matrix dimension as the JSON value it normalizes to: the list of its
/// values, or the raw text of the expression standing in for them.
pub open spec fn dimension_value(d: LoE<Vec<Value>>) -> Value {
    match d {
        LoE::Expr(e) => Value::String(e),
        LoE::Literal(v) => Value::Array(v),
    }
}

/// The expansions of the first `n` dimensions.
pub open spec fn expand_dimensions_spec(
    dims: Seq<(String, LoE<Vec<Value>>)>,
    n: int,
    base: LocationView,
) -> Seq<ExpansionView>
    decreases n,
{
    if n <= 0 || n > dims.len() {
        Seq::empty()
    } else {
        expand_dimensions_spec(dims, n - 1, base) + walk(
            dimension_value(dims[n - 1].1),
            key_path(dims[n - 1].0@),
            key_location(base, dims[n - 1].0@),
        )
    }
}

/// The expansions of the first `n` `exclude:` rows; all are located at
/// `exclude`.
pub open spec fn exclusions_spec(rows: Seq<Row>, n: int, base: LocationView) -> Seq<ExpansionView>
    decreases n,
{
    if n <= 0 || n > rows.len() {
        Seq::empty()
    } else {
        exclusions_spec(rows, n - 1, base) + expand_row(
            rows[n - 1]@,
            base.with_key(RouteKeyView::Key("exclude"@)),
        )
    }
}

/// Where the expansions of `include:` row `i` are located.
pub open spec fn inclusion_location(loc: LocationView, i: int) -> LocationView {
    loc.with_keys(seq![RouteKeyView::Key("include"@), RouteKeyView::Index(i as usize)])
}

/// The expansions of the first `n` `include:` rows; row `i` is located at
/// `include[i]`.
pub open spec fn inclusions_spec(rows: Seq<Row>, n: int, base: LocationView) -> Seq<ExpansionView>
    decreases n,
{
    if n <= 0 || n > rows.len() {
        Seq::empty()
    } else {
        inclusions_spec(rows, n - 1, base) + expand_row(rows[n - 1]@, inclusion_location(base, n - 1))
    }
}

/// `e` is the same as some expansion in `excluded`.
pub open spec fn is_excluded(e: ExpansionView, excluded: Seq<ExpansionView>) -> bool {
    exists|i: int| 0 <= i < excluded.len() && same_expansion(excluded[i], e)
}

/// The expansions of `expanded` that are not excluded.
pub open spec fn without_excluded(expanded: Seq<ExpansionView>, excluded: Seq<ExpansionView>) -> Seq<
    ExpansionView,
> {
    expanded.filter(|e: ExpansionView| !is_excluded(e, excluded))
}

/// The mathematical form of [`Expansions`].
pub struct ExpansionsView {
    pub expanded: Seq<ExpansionView>,
    pub indeterminate_expansions: Option<LocationView>,
    pub indeterminate_exclusions: Option<LocationView>,
}

/// The expansions of a matrix located at `loc`.
///
/// An expression in place of the whole matrix, or of its dimensions, leaves
/// nothing expanded and the expansions indeterminate. Otherwise the
/// dimensions are expanded, the `exclude:` rows removed from them (before the
/// `include:` rows are added, as GitHub does), and the `include:` rows'
/// expansions appended; an expression in place of `include:` (`exclude:`)
/// makes the expansions (exclusions) indeterminate.
pub open spec fn expand_matrix(m: LoE<JobMatrix>, loc: LocationView) -> ExpansionsView {
    match m {
        LoE::Expr(_) => ExpansionsView {
            expanded: Seq::empty(),
            indeterminate_expansions: Some(loc),
            indeterminate_exclusions: None,
        },
        LoE::Literal(inner) => match inner.dimensions {
            LoE::Expr(_) => ExpansionsView {
                expanded: Seq::empty(),
                indeterminate_expansions: Some(loc),
                indeterminate_exclusions: None,
            },
            LoE::Literal(dims) => {
                let dim_expansions = expand_dimensions_spec(dims@, dims@.len() as int, loc);
                let kept = match inner.exclusions {
                    LoE::Literal(rows) => without_excluded(
                        dim_expansions,
                        exclusions_spec(rows@, rows@.len() as int, loc),
                    ),
                    LoE::Expr(_) => dim_expansions,
                };
                let expanded = match inner.inclusions {
                    LoE::Literal(rows) => kept + inclusions_spec(rows@, rows@.len() as int, loc),
                    LoE::Expr(_) => kept,
                };
                ExpansionsView {
                    expanded,
                    indeterminate_expansions: match inner.inclusions {
                        LoE::Expr(_) => Some(loc.with_key(RouteKeyView::Key("include"@))),
                        LoE::Literal(_) => None,
                    },
                    indeterminate_exclusions: match inner.exclusions {
                        LoE::Expr(_) => Some(loc.with_key(RouteKeyView::Key("exclude"@))),
                        LoE::Literal(_) => None,
                    },
                }
            },
        },
    }
}

/// Expands a normalized row: each top-level key `k` expands under
/// `matrix.k`, located at `k` and annotated as "this expansion".
pub fn expand(values: &Vec<(String, Value)>, base: &SymbolicLocation) -> (r: Vec<Expansion>)
    ensures
        expansions_view(r@) == expand_row(values@, base@),
{
    let mut out: Vec<Expansion> = Vec::new();
    let n = values.len();
    let mut i: usize = 0;
    while i < n
        invariant
            n == values@.len(),
            i <= n,
            expansions_view(out@) =~= expand_spec(values@, i as int, base@),
        decreases n - i,
    {
        let (key, value) = &values[i];
        let path = "matrix.".to_owned().concat(key.as_str());
        let loc = base.with_key(RouteKey::Key(key.clone())).annotated("this expansion");
        let mut sub = walk_path(value, &path, &loc);
        let ghost prev = out@;
        let ghost subv = sub@;
        out.append(&mut sub);
        assert(expansions_view(out@) =~= expansions_view(prev) + expansions_view(subv));
        i = i + 1;
    }
    out
}

/// Expands explicit `include:` or `exclude:` rows.
pub fn expand_explicit_rows(row: &Row, base: &SymbolicLocation) -> (r: Vec<Expansion>)
    ensures
        expansions_view(r@) == expand_row(row@, base@),
{
    expand(row, base)
}

/// Expands the matrix dimensions.
pub fn expand_dimensions(dims: &Vec<(String, LoE<Vec<Value>>)>, base: &SymbolicLocation) -> (r: Vec<
    Expansion,
>)
    ensures
        expansions_view(r@) == expand_dimensions_spec(dims@, dims@.len() as int, base@),
{
    let mut out: Vec<Expansion> = Vec::new();
    let n = dims.len();
    let mut i: usize = 0;
    while i < n
        invariant
            n == dims@.len(),
            i <= n,
            expansions_view(out@) =~= expand_dimensions_spec(dims@, i as int, base@),
        decreases n - i,
    {
        let (key, dim) = &dims[i];
        let path = "matrix.".to_owned().concat(key.as_str());
        let loc = base.with_key(RouteKey::Key(key.clone())).annotated("this expansion");
        let mut sub = match dim {
            LoE::Expr(e) => {
                let r = vec![Expansion::new(path, e.clone(), loc)];
                assert(expansions_view(r@) =~= walk(dimension_value(*dim), key_path(key@), key_location(base@, key@)));
                r
            },
            LoE::Literal(items) => walk_array(items, &path, &loc),
        };
        let ghost prev = out@;
        let ghost subv = sub@;
        out.append(&mut sub);
        assert(expansions_view(out@) =~= expansions_view(prev) + expansions_view(subv));
        i = i + 1;
    }
    out
}

/// Whether `e` is the same as some expansion in `excluded`.
fn contains_expansion(excluded: &Vec<Expansion>, e: &Expansion) -> (r: bool)
    ensures
        r == is_excluded(e@, expansions_view(excluded@)),
{
    let n = excluded.len();
    let mut i: usize = 0;
    while i < n
        invariant
            n == excluded@.len(),
            i <= n,
            forall|k: int| 0 <= k < i ==> !same_expansion(#[trigger] excluded@[k]@, e@),
        decreases n - i,
    {
        if excluded[i] == *e {
            assert(same_expansion(expansions_view(excluded@)[i as int], e@));
            return true;
        }
        i = i + 1;
    }
    proof {
        assert forall|k: int| 0 <= k < n implies !same_expansion(
            #[trigger] expansions_view(excluded@)[k],
            e@,
        ) by {
            assert(!same_expansion(excluded@[k]@, e@));
        }
    }
    false
}

/// Keeps the expansions that are not the same as any excluded one, in order.
fn retain_not_excluded(expanded: &Vec<Expansion>, excluded: &Vec<Expansion>) -> (r: Vec<Expansion>)
    ensures
        expansions_view(r@) == without_excluded(
            expansions_view(expanded@),
            expansions_view(excluded@),
        ),
{
    let ghost ex = expansions_view(excluded@);
    let ghost pred = |e: ExpansionView| !is_excluded(e, ex);
    let ghost all = expansions_view(expanded@);
    let mut out: Vec<Expansion> = Vec::new();
    let n = expanded.len();
    let mut i: usize = 0;
    while i < n
        invariant
            n == expanded@.len(),
            all == expansions_view(expanded@),
            ex == expansions_view(excluded@),
            pred == (|e: ExpansionView| !is_excluded(e, ex)),
            i <= n,
            expansions_view(out@) =~= all.take(i as int).filter(pred),
        decreases n - i,
    {
        proof {
            reveal_with_fuel(Seq::<_>::filter, 1);
            assert(all.take(i + 1).drop_last() =~= all.take(i as int));
        }
        if !contains_expansion(excluded, &expanded[i]) {
            let d = expanded[i].duplicate();
            let ghost prev = out@;
            out.push(d);
            assert(expansions_view(out@) =~= expansions_view(prev).push(d@));
        }
        i = i + 1;
    }
    assert(all.take(n as int) =~= all);
    out
}

/// The container for a matrix's expansions.
pub struct Expansions {
    /// Consolidated expansions of dimensions and explicit rows, after
    /// exclusions and inclusions.
    expanded: Vec<Expansion>,
    /// Set when some inclusions are given by an expression that can't be
    /// statically resolved, or the matrix itself is fully indirect.
    indeterminate_expansions: Option<SymbolicLocation>,
    /// Set when the exclusions are given by an expression that can't be
    /// statically resolved.
    indeterminate_exclusions: Option<SymbolicLocation>,
}

/// The view of an optional location.
pub open spec fn opt_location_view(l: Option<SymbolicLocation>) -> Option<LocationView> {
    match l {
        Some(l) => Some(l@),
        None => None,
    }
}

impl View for Expansions {
    type V = ExpansionsView;

    closed spec fn view(&self) -> ExpansionsView {
        ExpansionsView {
            expanded: expansions_view(self.expanded@),
            indeterminate_expansions: opt_location_view(self.indeterminate_expansions),
            indeterminate_exclusions: opt_location_view(self.indeterminate_exclusions),
        }
    }
}

impl Expansions {
    /// The expansions of the given matrix.
    pub fn new(matrix: &Matrix) -> (r: Expansions)
        ensures
            r@ == expand_matrix(*matrix.inner, matrix@),
    {
        Self::expand_values(matrix)
    }

    /// The expanded values, in order.
    pub fn iter(&self) -> (r: &[Expansion])
        ensures
            expansions_view(r@) == self@.expanded,
    {
        self.expanded.as_slice()
    }

    /// Where the expansions become indeterminate, if they do.
    pub fn indeterminate_expansions(&self) -> (r: &Option<SymbolicLocation>)
        ensures
            opt_location_view(*r) == self@.indeterminate_expansions,
    {
        &self.indeterminate_expansions
    }

    /// Where the exclusions become indeterminate, if they do.
    pub fn indeterminate_exclusions(&self) -> (r: &Option<SymbolicLocation>)
        ensures
            opt_location_view(*r) == self@.indeterminate_exclusions,
    {
        &self.indeterminate_exclusions
    }

    /// Expands the matrix into all its values: each expansion pairs an
    /// expanded path (`matrix.os`) with the text of its value
    /// (`ubuntu-latest`).
    pub fn expand_values(matrix: &Matrix) -> (r: Expansions)
        ensures
            r@ == expand_matrix(*matrix.inner, matrix@),
    {
        let loc = matrix.location();
        match matrix.inner {
            LoE::Expr(_) => Self::indirect(loc),
            LoE::Literal(inner) => {
                let dims = match &inner.dimensions {
                    LoE::Literal(dims) => dims,
                    LoE::Expr(_) => {
                        return Self::indirect(loc);
                    },
                };
                let mut expanded = expand_dimensions(dims, &loc);
                // Exclusions go before inclusions, as GitHub does.
                if let LoE::Literal(excludes) = &inner.exclusions {
                    let to_exclude = Self::expand_rows(excludes, &loc, false);
                    expanded = retain_not_excluded(&expanded, &to_exclude);
                }
                if let LoE::Literal(includes) = &inner.inclusions {
                    let mut additional = Self::expand_rows(includes, &loc, true);
                    let ghost prev = expanded@;
                    let ghost add = additional@;
                    expanded.append(&mut additional);
                    assert(expansions_view(expanded@) =~= expansions_view(prev) + expansions_view(add));
                }
                // Don't miss indirect matrices: inclusions and exclusions
                // given by expressions.
                let maybe_misses_inclusions = match &inner.inclusions {
                    LoE::Expr(_) => Some(loc.with_key(RouteKey::key("include"))),
                    LoE::Literal(_) => None,
                };
                let maybe_misses_exclusions = match &inner.exclusions {
                    LoE::Expr(_) => Some(loc.with_key(RouteKey::key("exclude"))),
                    LoE::Literal(_) => None,
                };
                Expansions {
                    expanded,
                    indeterminate_expansions: maybe_misses_inclusions,
                    indeterminate_exclusions: maybe_misses_exclusions,
                }
            },
        }
    }

    /// Nothing expanded; indeterminate at `loc`.
    fn indirect(loc: SymbolicLocation) -> (r: Expansions)
        ensures
            r@ == (ExpansionsView {
                expanded: Seq::empty(),
                indeterminate_expansions: Some(loc@),
                indeterminate_exclusions: None,
            }),
    {
        let r = Expansions {
            expanded: Vec::new(),
            indeterminate_expansions: Some(loc),
            indeterminate_exclusions: None,
        };
        assert(expansions_view(r.expanded@) =~= Seq::<ExpansionView>::empty());
        r
    }

    /// Expands explicit rows: `include:` rows located at `include[i]`
    /// (`indexed`), `exclude:` rows all at `exclude`.
    fn expand_rows(rows: &Vec<Row>, loc: &SymbolicLocation, indexed: bool) -> (r: Vec<Expansion>)
        ensures
            indexed ==> expansions_view(r@) == inclusions_spec(rows@, rows@.len() as int, loc@),
            !indexed ==> expansions_view(r@) == exclusions_spec(rows@, rows@.len() as int, loc@),
    {
        let mut out: Vec<Expansion> = Vec::new();
        let n = rows.len();
        let mut i: usize = 0;
        while i < n
            invariant
                n == rows@.len(),
                i <= n,
                indexed ==> expansions_view(out@) =~= inclusions_spec(rows@, i as int, loc@),
                !indexed ==> expansions_view(out@) =~= exclusions_spec(rows@, i as int, loc@),
            decreases n - i,
        {
            let base = if indexed {
                let keys = vec![RouteKey::key("include"), RouteKey::Index(i)];
                let b = loc.with_keys(keys);
                assert(route_view(keys@) =~= seq![
                    RouteKeyView::Key("include"@),
                    RouteKeyView::Index(i),
                ]);
                b
            } else {
                loc.with_key(RouteKey::key("exclude"))
            };
            let mut sub = expand_explicit_rows(&rows[i], &base);
            let ghost prev = out@;
            let ghost subv = sub@;
            out.append(&mut sub);
            assert(expansions_view(out@) =~= expansions_view(prev) + expansions_view(subv));
            i = i + 1;
        }
        out
    }
}

/// An execution matrix within a job.
pub struct Matrix<'doc> {
    /// The job's `strategy.matrix`.
    pub inner: &'doc LoE<JobMatrix>,
    /// The job the matrix belongs to.
    pub parent: &'doc NormalJob,
}

/// The location of the matrix of the job with the given id.
pub open spec fn matrix_location(job_id: Seq<char>) -> LocationView {
    job_location(job_id).with_keys(
        seq![RouteKeyView::Key("strategy"@), RouteKeyView::Key("matrix"@)],
    ).annotated("this matrix"@)
}

impl<'doc> View for Matrix<'doc> {
    type V = LocationView;

    /// A matrix is viewed as its location; its contents are `inner()`.
    open spec fn view(&self) -> LocationView {
        matrix_location(self.parent.id@)
    }
}

impl<'doc> Matrix<'doc> {
    /// The job's matrix, if the job has a strategy with a matrix.
    pub fn new(parent: &'doc NormalJob) -> (r: Option<Matrix<'doc>>)
        ensures
            match r {
                Some(m) => {
                    &&& parent.strategy matches Some(s)
                    &&& s.matrix matches Some(inner)
                    &&& *m.inner == inner
                    &&& m@ == matrix_location(parent.id@)
                },
                None => !(parent.strategy matches Some(s) && s.matrix is Some),
            },
    {
        let strategy = match &parent.strategy {
            Some(s) => s,
            None => {
                return None;
            },
        };
        let matrix = match &strategy.matrix {
            Some(m) => m,
            None => {
                return None;
            },
        };
        Some(Matrix { inner: matrix, parent })
    }

    /// The underlying `strategy.matrix` model.
    pub fn deref(&self) -> (r: &'doc LoE<JobMatrix>)
        ensures
            r == self.inner,
    {
        self.inner
    }

    /// This matrix's expansions.
    pub fn expansions(&self) -> (r: Expansions)
        ensures
            r@ == expand_matrix(*self.inner, self@),
    {
        Expansions::new(self)
    }

    /// This matrix's location: `strategy.matrix` under its job.
    pub fn location(&self) -> (r: SymbolicLocation)
        ensures
            r@ == self@,
    {
        let keys = vec![RouteKey::key("strategy"), RouteKey::key("matrix")];
        let r = self.parent.location().with_keys(keys).annotated("this matrix");
        assert(route_view(keys@) =~= seq![RouteKeyView::Key("strategy"@), RouteKeyView::Key("matrix"@)]);
        r
    }
}

/// Whether a matrix with the given expansions expands to static values
/// wherever `context` refers to it: the expansions are determinate, and no
/// expansion whose path the context matches has a fenced expression as its
/// value.
pub open spec fn static_for_context(e: ExpansionsView, context: Context<'_>) -> bool {
    &&& e.indeterminate_expansions is None
    &&& forall|i: int|
        0 <= i < e.expanded.len() ==> !(context_matches_pattern(context, #[trigger] e.expanded[i].path)
            && has_fenced_expression(e.expanded[i].value))
}

impl<'doc> Matrix<'doc> {
    /// Checks that no expanded path that `context` refers to leads to an
    /// expression. An indirect matrix can't be decided, so it never
    /// expands to static values.
    pub fn expands_to_static_values(&self, context: &Context) -> (r: bool)
        ensures
            r == static_for_context(expand_matrix(*self.inner, self@), *context),
    {
        let expansions = self.expansions();
        if expansions.indeterminate_expansions().is_some() {
            return false;
        }
        let items = expansions.iter();
        let n = items.len();
        let mut i: usize = 0;
        while i < n
            invariant
                n == items@.len(),
                expansions_view(items@) == expansions@.expanded,
                expansions@ == expand_matrix(*self.inner, self@),
                expansions@.indeterminate_expansions is None,
                i <= n,
                forall|k: int|
                    0 <= k < i ==> !(context_matches_pattern(*context, #[trigger] items@[k].path@)
                        && has_fenced_expression(items@[k].value@)),
            decreases n - i,
        {
            let e = &items[i];
            if context_matches(context, e.path.as_str()) && !e.is_static() {
                assert(expansions@.expanded[i as int] == e@);
                assert(context_matches_pattern(*context, expansions@.expanded[i as int].path)
                    && has_fenced_expression(expansions@.expanded[i as int].value));
                return false;
            }
            i = i + 1;
        }
        proof {
            assert forall|k: int| 0 <= k < expansions@.expanded.len() implies !(context_matches_pattern(
                *context,
                #[trigger] expansions@.expanded[k].path,
            ) && has_fenced_expression(expansions@.expanded[k].value)) by {
                assert(expansions@.expanded[k] == items@[k]@);
            }
        }
        true
    }
}

/// `a` is a prefix of `b`.
pub open spec fn prefix_of<A>(a: Seq<A>, b: Seq<A>) -> bool {
    a.len() <= b.len() && b.take(a.len() as int) == a
}

proof fn lemma_prefix_trans<A>(a: Seq<A>, b: Seq<A>, c: Seq<A>)
    requires
        prefix_of(a, b),
        prefix_of(b, c),
    ensures
        prefix_of(a, c),
{
    assert(c.take(a.len() as int) =~= b.take(a.len() as int));
}

/// An expansion lies under `path` and `loc`: its path extends `path`, its
/// route extends `loc`'s route, and it keeps `loc`'s annotation and role.
pub open spec fn lies_under(e: ExpansionView, path: Seq<char>, loc: LocationView) -> bool {
    &&& prefix_of(path, e.path)
    &&& prefix_of(loc.route, e.location.route)
    &&& e.location.annotation == loc.annotation
    &&& e.location.kind == loc.kind
}

/// Every expansion of a tree at `path`, located at `loc`, lies under them:
/// walking a tree only ever extends the path and the route.
pub proof fn lemma_walk_lies_under(tree: Value, path: Seq<char>, loc: LocationView)
    ensures
        forall|i: int|
            0 <= i < walk(tree, path, loc).len() ==> lies_under(
                #[trigger] walk(tree, path, loc)[i],
                path,
                loc,
            ),
    decreases tree, 0int,
{
    match tree {
        Value::Null => {
            assert(walk(tree, path, loc).len() == 0);
        },
        Value::Bool(_) | Value::Number(_) | Value::String(_) => {
            assert(path.take(path.len() as int) =~= path);
            assert(loc.route.take(loc.route.len() as int) =~= loc.route);
            assert(walk(tree, path, loc).len() == 1);
            assert(lies_under(walk(tree, path, loc)[0], path, loc));
        },
        Value::Array(items) => {
            lemma_walk_items_lies_under(items@, items@.len() as int, path, loc);
            assert(walk(tree, path, loc) == walk_items(items@, items@.len() as int, path, loc));
        },
        Value::Object(entries) => {
            lemma_walk_entries_lies_under(entries@, entries@.len() as int, path, loc);
            assert(walk(tree, path, loc) == walk_entries(entries@, entries@.len() as int, path, loc));
        },
    }
}

proof fn lemma_walk_items_lies_under(items: Seq<Value>, n: int, path: Seq<char>, loc: LocationView)
    ensures
        forall|i: int|
            0 <= i < walk_items(items, n, path, loc).len() ==> lies_under(
                #[trigger] walk_items(items, n, path, loc)[i],
                path,
                loc,
            ),
    decreases items, n,
{
    if n <= 0 || n > items.len() {
    } else {
        let prev = walk_items(items, n - 1, path, loc);
        let l2 = loc.with_key(RouteKeyView::Index((n - 1) as usize));
        let last = walk(items[n - 1], path, l2);
        lemma_walk_items_lies_under(items, n - 1, path, loc);
        lemma_walk_lies_under(items[n - 1], path, l2);
        assert(prefix_of(loc.route, l2.route)) by {
            assert(l2.route.take(loc.route.len() as int) =~= loc.route);
        }
        assert forall|i: int| 0 <= i < (prev + last).len() implies lies_under(
            #[trigger] (prev + last)[i],
            path,
            loc,
        ) by {
            if i >= prev.len() {
                let e = last[i - prev.len()];
                assert(lies_under(e, path, l2));
                lemma_prefix_trans(loc.route, l2.route, e.location.route);
            } else {
                assert(lies_under(prev[i], path, loc));
            }
        }
    }
}

proof fn lemma_walk_entries_lies_under(
    entries: Seq<(String, Value)>,
    n: int,
    path: Seq<char>,
    loc: LocationView,
)
    ensures
        forall|i: int|
            0 <= i < walk_entries(entries, n, path, loc).len() ==> lies_under(
                #[trigger] walk_entries(entries, n, path, loc)[i],
                path,
                loc,
            ),
    decreases entries, n,
{
    if n <= 0 || n > entries.len() {
    } else {
        let prev = walk_entries(entries, n - 1, path, loc);
        let p2 = child_path(path, entries[n - 1].0@);
        let l2 = loc.with_key(RouteKeyView::Key(entries[n - 1].0@));
        let last = walk(entries[n - 1].1, p2, l2);
        lemma_walk_entries_lies_under(entries, n - 1, path, loc);
        lemma_walk_lies_under(entries[n - 1].1, p2, l2);
        assert(prefix_of(loc.route, l2.route)) by {
            assert(l2.route.take(loc.route.len() as int) =~= loc.route);
        }
        assert(prefix_of(path, p2)) by {
            assert(p2.take(path.len() as int) =~= path);
        }
        assert forall|i: int| 0 <= i < (prev + last).len() implies lies_under(
            #[trigger] (prev + last)[i],
            path,
            loc,
        ) by {
            if i >= prev.len() {
                let e = last[i - prev.len()];
                assert(lies_under(e, p2, l2));
                lemma_prefix_trans(loc.route, l2.route, e.location.route);
                lemma_prefix_trans(path, p2, e.path);
            } else {
                assert(lies_under(prev[i], path, loc));
            }
        }
    }
}

/// A matrix given as an expression, or with its dimensions given as one,
/// expands to nothing and never counts as expanding to static values,
/// whatever the context.
pub proof fn lemma_indirect_never_static(m: LoE<JobMatrix>, loc: LocationView, context: Context<'_>)
    requires
        m matches LoE::Literal(inner) ==> inner.dimensions is Expr,
    ensures
        expand_matrix(m, loc).expanded.len() == 0,
        expand_matrix(m, loc).indeterminate_expansions == Some(loc),
        expand_matrix(m, loc).indeterminate_exclusions is None,
        !static_for_context(expand_matrix(m, loc), context),
{
}

/// Expansions that are determinate and whose values are all static expand
/// to static values for every context: a path no expansion has, in
/// particular, always does.
pub proof fn lemma_static_values_static_for_any_context(e: ExpansionsView, context: Context<'_>)
    requires
        e.indeterminate_expansions is None,
        forall|i: int| 0 <= i < e.expanded.len() ==> !has_fenced_expression(#[trigger] e.expanded[i].value),
    ensures
        static_for_context(e, context),
{
}

/// Only determinate expansions with no matched dynamic value are static:
/// if the context matches the path of an expansion whose value holds an
/// expression, the matrix does not expand to static values there.
pub proof fn lemma_matched_expression_not_static(e: ExpansionsView, context: Context<'_>, i: int)
    requires
        0 <= i < e.expanded.len(),
        context_matches_pattern(context, e.expanded[i].path),
        has_fenced_expression(e.expanded[i].value),
    ensures
        !static_for_context(e, context),
{
}

/// Exclusions are applied before inclusions, as GitHub does: the expansions
/// of a literal matrix are its dimensions' expansions minus every one the
/// same as an excluded expansion, in order, followed by all expansions of
/// the `include:` rows, none of which is dropped.
pub proof fn lemma_exclusions_then_inclusions(
    inner: JobMatrix,
    dims: Vec<(String, LoE<Vec<Value>>)>,
    excludes: Vec<Row>,
    includes: Vec<Row>,
    loc: LocationView,
)
    requires
        inner.dimensions == LoE::Literal(dims),
        inner.exclusions == LoE::Literal(excludes),
        inner.inclusions == LoE::Literal(includes),
    ensures
        ({
            let e = expand_matrix(LoE::Literal(inner), loc).expanded;
            let d = expand_dimensions_spec(dims@, dims@.len() as int, loc);
            let x = exclusions_spec(excludes@, excludes@.len() as int, loc);
            let a = inclusions_spec(includes@, includes@.len() as int, loc);
            let k = e.len() - a.len();
            &&& 0 <= k <= d.len()
            &&& forall|i: int| 0 <= i < k ==> !is_excluded(#[trigger] e[i], x)
            &&& forall|i: int| 0 <= i < k ==> d.contains(#[trigger] e[i])
            &&& forall|i: int| 0 <= i < d.len() && !is_excluded(d[i], x) ==> e.take(k).contains(#[trigger] d[i])
            &&& e.skip(k) == a
        }),
{
    let e = expand_matrix(LoE::Literal(inner), loc).expanded;
    let d = expand_dimensions_spec(dims@, dims@.len() as int, loc);
    let x = exclusions_spec(excludes@, excludes@.len() as int, loc);
    let a = inclusions_spec(includes@, includes@.len() as int, loc);
    let pred = |v: ExpansionView| !is_excluded(v, x);
    let kept = d.filter(pred);
    assert(e == kept + a);
    broadcast use vstd::seq_lib::group_filter_ensures;
    let k = e.len() - a.len();
    assert(k == kept.len());
    assert(e.take(k) =~= kept);
    assert(e.skip(k) =~= a);
    assert forall|i: int| 0 <= i < k implies !is_excluded(#[trigger] e[i], x) by {
        assert(e[i] == kept[i]);
        assert(pred(kept[i]));
    }
    assert forall|i: int| 0 <= i < k implies d.contains(#[trigger] e[i]) by {
        assert(e[i] == kept[i]);
        lemma_filtered_from(d, pred, i);
    }
}

proof fn lemma_inclusions_prefix(rows: Seq<Row>, r: Row, n: int, loc: LocationView)
    requires
        0 <= n <= rows.len(),
    ensures
        inclusions_spec(rows.push(r), n, loc) == inclusions_spec(rows, n, loc),
    decreases n,
{
    if n > 0 {
        lemma_inclusions_prefix(rows, r, n - 1, loc);
        assert(rows.push(r)[n - 1] == rows[n - 1]);
    }
}

/// Adding a literal `include:` row whose expansions hold no expression
/// leaves the answer unchanged: a matrix that expands to static values for a
/// context still does, and one that does not still does not.
pub proof fn lemma_static_inclusion_keeps_answer(
    inner: JobMatrix,
    more: JobMatrix,
    rows: Vec<Row>,
    extended: Vec<Row>,
    r: Row,
    loc: LocationView,
    context: Context<'_>,
)
    requires
        inner.inclusions == LoE::Literal(rows),
        more.inclusions == LoE::Literal(extended),
        more.dimensions == inner.dimensions,
        more.exclusions == inner.exclusions,
        extended@ == rows@.push(r),
        forall|i: int|
            0 <= i < expand_row(r@, inclusion_location(loc, rows@.len() as int)).len()
                ==> !has_fenced_expression(
                #[trigger] expand_row(r@, inclusion_location(loc, rows@.len() as int))[i].value,
            ),
    ensures
        static_for_context(expand_matrix(LoE::Literal(more), loc), context) == static_for_context(
            expand_matrix(LoE::Literal(inner), loc),
            context,
        ),
{
    let n = rows@.len() as int;
    let added = expand_row(r@, inclusion_location(loc, n));
    lemma_inclusions_prefix(rows@, r, n, loc);
    assert(inclusions_spec(extended@, n + 1, loc) == inclusions_spec(rows@, n, loc) + added) by {
        assert(extended@[n] == r);
    }
    if let LoE::Literal(dims) = inner.dimensions {
        let e = expand_matrix(LoE::Literal(inner), loc).expanded;
        let e2 = expand_matrix(LoE::Literal(more), loc).expanded;
        assert(e2 == e + added);
        if static_for_context(expand_matrix(LoE::Literal(inner), loc), context) {
            assert forall|i: int| 0 <= i < e2.len() implies !(context_matches_pattern(
                context,
                #[trigger] e2[i].path,
            ) && has_fenced_expression(e2[i].value)) by {
                if i < e.len() {
                    assert(e2[i] == e[i]);
                } else {
                    assert(e2[i] == added[i - e.len()]);
                }
            }
        } else if expand_matrix(LoE::Literal(inner), loc).indeterminate_expansions is None {
            let i = choose|i: int|
                0 <= i < e.len() && (context_matches_pattern(context, #[trigger] e[i].path)
                    && has_fenced_expression(e[i].value));
            assert(e2[i] == e[i]);
        }
    }
}

proof fn lemma_exclusion_row_in_exclusions(rows: Seq<Row>, n: int, j: int, loc: LocationView, x: ExpansionView)
    requires
        0 <= j < n <= rows.len(),
        expand_row(rows[j]@, loc.with_key(RouteKeyView::Key("exclude"@))).contains(x),
    ensures
        exclusions_spec(rows, n, loc).contains(x),
    decreases n,
{
    let prev = exclusions_spec(rows, n - 1, loc);
    let last = expand_row(rows[n - 1]@, loc.with_key(RouteKeyView::Key("exclude"@)));
    assert(exclusions_spec(rows, n, loc) == prev + last);
    if j < n - 1 {
        lemma_exclusion_row_in_exclusions(rows, n - 1, j, loc, x);
        let m = choose|m: int| 0 <= m < prev.len() && prev[m] == x;
        assert((prev + last)[m] == x);
    } else {
        let m = choose|m: int| 0 <= m < last.len() && last[m] == x;
        assert((prev + last)[prev.len() + m] == x);
    }
}

/// Every `exclude:` row takes effect, not only one of them: no expansion
/// kept from the dimensions has the path and value of any expansion of any
/// `exclude:` row.
pub proof fn lemma_every_exclusion_applies(
    inner: JobMatrix,
    dims: Vec<(String, LoE<Vec<Value>>)>,
    excludes: Vec<Row>,
    includes: Vec<Row>,
    loc: LocationView,
    j: int,
    x: ExpansionView,
)
    requires
        inner.dimensions == LoE::Literal(dims),
        inner.exclusions == LoE::Literal(excludes),
        inner.inclusions == LoE::Literal(includes),
        0 <= j < excludes@.len(),
        expand_row(excludes@[j]@, loc.with_key(RouteKeyView::Key("exclude"@))).contains(x),
    ensures
        ({
            let e = expand_matrix(LoE::Literal(inner), loc).expanded;
            let k = e.len() - inclusions_spec(includes@, includes@.len() as int, loc).len();
            forall|i: int| 0 <= i < k ==> !(#[trigger] e[i].path == x.path && e[i].value == x.value)
        }),
{
    lemma_exclusions_then_inclusions(inner, dims, excludes, includes, loc);
    let xs = exclusions_spec(excludes@, excludes@.len() as int, loc);
    lemma_exclusion_row_in_exclusions(excludes@, excludes@.len() as int, j, loc, x);
    let m = choose|m: int| 0 <= m < xs.len() && xs[m] == x;
    let e = expand_matrix(LoE::Literal(inner), loc).expanded;
    let k = e.len() - inclusions_spec(includes@, includes@.len() as int, loc).len();
    assert forall|i: int| 0 <= i < k implies !(#[trigger] e[i].path == x.path && e[i].value == x.value) by {
        assert(!is_excluded(e[i], xs));
        if e[i].path == x.path && e[i].value == x.value {
            assert(same_expansion(xs[m], e[i]));
        }
    }
}

/// Indeterminate expansions are never static, for any context and however
/// much else was expanded.
pub proof fn lemma_indeterminate_never_static(e: ExpansionsView, context: Context<'_>)
    requires
        e.indeterminate_expansions is Some,
    ensures
        !static_for_context(e, context),
{
}

/// A literal matrix whose `include:` is given by an expression never
/// expands to static values, whatever its dimensions expand to.
pub proof fn lemma_expression_inclusions_never_static(inner: JobMatrix, loc: LocationView, context: Context<'_>)
    requires
        inner.inclusions is Expr,
    ensures
        expand_matrix(LoE::Literal(inner), loc).indeterminate_expansions is Some,
        !static_for_context(expand_matrix(LoE::Literal(inner), loc), context),
{
}

proof fn lemma_filtered_from<A>(s: Seq<A>, pred: spec_fn(A) -> bool, i: int)
    requires
        0 <= i < s.filter(pred).len(),
    ensures
        s.contains(s.filter(pred)[i]),
    decreases s.len(),
{
    reveal(Seq::filter);
    if s.len() > 0 {
        let sub = s.drop_last().filter(pred);
        if pred(s.last()) && i == sub.len() {
            assert(s.filter(pred)[i] == s[s.len() - 1]);
        } else {
            assert(s.filter(pred)[i] == sub[i]);
            lemma_filtered_from(s.drop_last(), pred, i);
            let j = choose|j: int| 0 <= j < s.drop_last().len() && s.drop_last()[j] == sub[i];
            assert(s[j] == sub[i]);
        }
    }
}

} // verus!
