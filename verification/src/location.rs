//! Symbolic locations: a route of keys and indices into a workflow
//! document, with the annotation and role a finding gives it.

use vstd::prelude::*;

verus! {

/// One step of a route into a YAML document.
#[derive(Debug)]
pub enum RouteKey {
    Key(String),
    Index(usize),
}

/// The mathematical form of a [`RouteKey`].
pub enum RouteKeyView {
    Key(Seq<char>),
    Index(usize),
}

impl View for RouteKey {
    type V = RouteKeyView;

    open spec fn view(&self) -> RouteKeyView {
        match self {
            RouteKey::Key(k) => RouteKeyView::Key(k@),
            RouteKey::Index(i) => RouteKeyView::Index(*i),
        }
    }
}

impl RouteKey {
    /// A route step naming a mapping key.
    pub fn key(k: &str) -> (r: RouteKey)
        ensures
            r@ == RouteKeyView::Key(k@),
    {
        RouteKey::Key(k.to_owned())
    }

    /// A copy of this route step.
    pub fn duplicate(&self) -> (r: RouteKey)
        ensures
            r@ == self@,
    {
        match self {
            RouteKey::Key(k) => RouteKey::Key(k.clone()),
            RouteKey::Index(i) => RouteKey::Index(*i),
        }
    }
}

/// The role of a location within a finding.
#[derive(Debug, Clone, Copy, PartialEq, Eq, Structural)]
pub enum LocationKind {
    Related,
    Primary,
    Hidden,
}

/// A span inside the scalar a route leads to: `fragment`, searched for
/// from character offset `after`.
#[derive(Debug)]
pub struct Subfeature {
    pub after: usize,
    pub fragment: String,
}

/// What part of the routed node a location covers.
#[derive(Debug)]
pub enum FeatureKind {
    /// The whole node.
    Normal,
    /// A span within the node.
    Subfeature(Subfeature),
}

pub enum FeatureView {
    Normal,
    Subfeature { after: usize, fragment: Seq<char> },
}

impl View for FeatureKind {
    type V = FeatureView;

    open spec fn view(&self) -> FeatureView {
        match self {
            FeatureKind::Normal => FeatureView::Normal,
            FeatureKind::Subfeature(s) => FeatureView::Subfeature {
                after: s.after,
                fragment: s.fragment@,
            },
        }
    }
}

/// A location in a workflow, not yet resolved against the document text.
#[derive(Debug)]
pub struct SymbolicLocation {
    pub route: Vec<RouteKey>,
    pub annotation: String,
    pub feature: FeatureKind,
    pub kind: LocationKind,
}

/// The mathematical form of a [`SymbolicLocation`].
pub struct LocationView {
    pub route: Seq<RouteKeyView>,
    pub annotation: Seq<char>,
    pub feature: FeatureView,
    pub kind: LocationKind,
}

/// The views of a sequence of route steps.
pub open spec fn route_view(keys: Seq<RouteKey>) -> Seq<RouteKeyView> {
    keys.map_values(|k: RouteKey| k@)
}

impl View for SymbolicLocation {
    type V = LocationView;

    open spec fn view(&self) -> LocationView {
        LocationView {
            route: route_view(self.route@),
            annotation: self.annotation@,
            feature: self.feature@,
            kind: self.kind,
        }
    }
}

impl LocationView {
    /// This location, extended by the given route steps.
    pub open spec fn with_keys(self, keys: Seq<RouteKeyView>) -> LocationView {
        LocationView { route: self.route + keys, ..self }
    }

    /// This location, extended by one route step.
    pub open spec fn with_key(self, key: RouteKeyView) -> LocationView {
        LocationView { route: self.route.push(key), ..self }
    }

    pub open spec fn annotated(self, annotation: Seq<char>) -> LocationView {
        LocationView { annotation, ..self }
    }

    pub open spec fn with_kind(self, kind: LocationKind) -> LocationView {
        LocationView { kind, ..self }
    }

    pub open spec fn with_feature(self, feature: FeatureView) -> LocationView {
        LocationView { feature, ..self }
    }
}

/// The location of a whole workflow document.
pub open spec fn root_view() -> LocationView {
    LocationView {
        route: Seq::empty(),
        annotation: "this workflow"@,
        feature: FeatureView::Normal,
        kind: LocationKind::Related,
    }
}

impl SymbolicLocation {
    /// The location of a whole workflow document.
    pub fn root() -> (r: SymbolicLocation)
        ensures
            r@ == root_view(),
    {
        let r = SymbolicLocation {
            route: Vec::new(),
            annotation: "this workflow".to_owned(),
            feature: FeatureKind::Normal,
            kind: LocationKind::Related,
        };
        assert(r@.route =~= Seq::<RouteKeyView>::empty());
        r
    }

    fn duplicate_route(&self) -> (r: Vec<RouteKey>)
        ensures
            route_view(r@) == route_view(self.route@),
    {
        let mut out: Vec<RouteKey> = Vec::new();
        let n = self.route.len();
        let mut i: usize = 0;
        while i < n
            invariant
                n == self.route@.len(),
                i <= n,
                route_view(out@) =~= route_view(self.route@.take(i as int)),
            decreases n - i,
        {
            let d = self.route[i].duplicate();
            let ghost prev = out@;
            out.push(d);
            assert(route_view(out@) =~= route_view(prev).push(d@));
            assert(self.route@.take(i + 1) =~= self.route@.take(i as int).push(self.route@[i as int]));
            assert(route_view(self.route@.take(i + 1)) =~= route_view(self.route@.take(i as int)).push(
                self.route@[i as int]@,
            ));
            i = i + 1;
        }
        assert(self.route@.take(n as int) =~= self.route@);
        out
    }

    fn duplicate_feature(&self) -> (r: FeatureKind)
        ensures
            r@ == self.feature@,
    {
        match &self.feature {
            FeatureKind::Normal => FeatureKind::Normal,
            FeatureKind::Subfeature(s) => FeatureKind::Subfeature(
                Subfeature { after: s.after, fragment: s.fragment.clone() },
            ),
        }
    }

    /// A copy of this location.
    pub fn duplicate(&self) -> (r: SymbolicLocation)
        ensures
            r@ == self@,
    {
        SymbolicLocation {
            route: self.duplicate_route(),
            annotation: self.annotation.clone(),
            feature: self.duplicate_feature(),
            kind: self.kind,
        }
    }

    /// This location, extended by the given route steps.
    pub fn with_keys(&self, keys: Vec<RouteKey>) -> (r: SymbolicLocation)
        ensures
            r@ == self@.with_keys(route_view(keys@)),
    {
        let mut route = self.duplicate_route();
        let ghost old_route = route@;
        let mut keys = keys;
        let ghost old_keys = keys@;
        route.append(&mut keys);
        assert(route_view(route@) =~= route_view(old_route) + route_view(old_keys));
        SymbolicLocation {
            route,
            annotation: self.annotation.clone(),
            feature: self.duplicate_feature(),
            kind: self.kind,
        }
    }

    /// This location, extended by one route step.
    pub fn with_key(&self, key: RouteKey) -> (r: SymbolicLocation)
        ensures
            r@ == self@.with_key(key@),
    {
        let mut route = self.duplicate_route();
        let ghost old_route = route@;
        route.push(key);
        assert(route_view(route@) =~= route_view(old_route).push(key@));
        SymbolicLocation {
            route,
            annotation: self.annotation.clone(),
            feature: self.duplicate_feature(),
            kind: self.kind,
        }
    }

    /// This location with the given annotation.
    pub fn annotated(self, annotation: &str) -> (r: SymbolicLocation)
        ensures
            r@ == self@.annotated(annotation@),
    {
        SymbolicLocation { annotation: annotation.to_owned(), ..self }
    }

    /// This location, marked as the primary location of a finding.
    pub fn primary(self) -> (r: SymbolicLocation)
        ensures
            r@ == self@.with_kind(LocationKind::Primary),
    {
        SymbolicLocation { kind: LocationKind::Primary, ..self }
    }

    /// This location, marked as hidden from rendered output.
    pub fn hidden(self) -> (r: SymbolicLocation)
        ensures
            r@ == self@.with_kind(LocationKind::Hidden),
    {
        SymbolicLocation { kind: LocationKind::Hidden, ..self }
    }

    /// This location, narrowed to a span of the node it leads to.
    pub fn subfeature(self, subfeature: Subfeature) -> (r: SymbolicLocation)
        ensures
            r@ == self@.with_feature(
                FeatureView::Subfeature { after: subfeature.after, fragment: subfeature.fragment@ },
            ),
    {
        SymbolicLocation { feature: FeatureKind::Subfeature(subfeature), ..self }
    }
}

} // verus!
