//! `uses:` clauses: parsing a step's `uses:` text, and matching a
//! repository `uses:` against a well-known one.

use vstd::prelude::*;
use vstd::string::*;
use crate::text::{ascii_fold, eq_ignore_ascii_case, str_eq_ignore_ascii_case, to_lowercase, unicode_lowercase};

verus! {

/// A repository `uses:` clause, e.g. `actions/checkout@v4`.
#[derive(Debug)]
pub struct RepositoryUses {
    /// The repository's owner (user or org).
    pub owner: String,
    /// The repository's name.
    pub repo: String,
    /// The path to the action within the repository, if any.
    pub subpath: Option<String>,
    /// The `@<ref>` the clause is pinned to, if any.
    pub git_ref: Option<String>,
    /// The clause as written.
    pub raw: String,
}

/// The mathematical form of a [`RepositoryUses`].
pub struct RepositoryUsesView {
    pub owner: Seq<char>,
    pub repo: Seq<char>,
    pub subpath: Option<Seq<char>>,
    pub git_ref: Option<Seq<char>>,
    pub raw: Seq<char>,
}

pub open spec fn opt_str_view(o: Option<String>) -> Option<Seq<char>> {
    match o {
        Some(s) => Some(s@),
        None => None,
    }
}

impl View for RepositoryUses {
    type V = RepositoryUsesView;

    open spec fn view(&self) -> RepositoryUsesView {
        RepositoryUsesView {
            owner: self.owner@,
            repo: self.repo@,
            subpath: opt_str_view(self.subpath),
            git_ref: opt_str_view(self.git_ref),
            raw: self.raw@,
        }
    }
}

/// A step's `uses:` clause.
#[derive(Debug)]
pub enum Uses {
    /// `uses: ./some/path`, holding the path.
    Local(String),
    /// `uses: owner/repo[/subpath][@ref]`.
    Repository(RepositoryUses),
    /// `uses: docker://image`, holding the text after `docker://`.
    Docker(String),
}

pub enum UsesView {
    Local(Seq<char>),
    Repository(RepositoryUsesView),
    Docker(Seq<char>),
}

impl View for Uses {
    type V = UsesView;

    open spec fn view(&self) -> UsesView {
        match self {
            Uses::Local(p) => UsesView::Local(p@),
            Uses::Repository(r) => UsesView::Repository(r@),
            Uses::Docker(d) => UsesView::Docker(d@),
        }
    }
}

/// The last index below `n` at which `c` occurs in `s`.
pub open spec fn rfind(s: Seq<char>, c: char, n: int) -> Option<int>
    decreases n,
{
    if n <= 0 || n > s.len() {
        None
    } else if s[n - 1] == c {
        Some(n - 1)
    } else {
        rfind(s, c, n - 1)
    }
}

/// The first index at or after `i` at which `c` occurs in `s`.
pub open spec fn find_from(s: Seq<char>, c: char, i: int) -> Option<int>
    decreases s.len() - i,
{
    if i < 0 || i >= s.len() {
        None
    } else if s[i] == c {
        Some(i)
    } else {
        find_from(s, c, i + 1)
    }
}

/// `s` starts with `p`.
pub open spec fn starts_with(s: Seq<char>, p: Seq<char>) -> bool {
    p.len() <= s.len() && s.take(p.len() as int) == p
}

/// `s` ends with `p`.
pub open spec fn ends_with(s: Seq<char>, p: Seq<char>) -> bool {
    p.len() <= s.len() && s.skip(s.len() - p.len()) == p
}

/// Parses `owner/repo[/subpath][@ref]`: the ref follows the last `@`, the
/// part before it is split at its first two `/`; fewer than two components
/// is no repository clause.
pub open spec fn parse_repository_uses(s: Seq<char>) -> Option<RepositoryUsesView> {
    let (path, git_ref) = match rfind(s, '@', s.len() as int) {
        Some(a) => (s.take(a), Some(s.skip(a + 1))),
        None => (s, None),
    };
    match find_from(path, '/', 0) {
        None => None,
        Some(p1) => match find_from(path, '/', p1 + 1) {
            None => Some(
                RepositoryUsesView {
                    owner: path.take(p1),
                    repo: path.skip(p1 + 1),
                    subpath: None,
                    git_ref,
                    raw: s,
                },
            ),
            Some(p2) => Some(
                RepositoryUsesView {
                    owner: path.take(p1),
                    repo: path.subrange(p1 + 1, p2),
                    subpath: Some(path.skip(p2 + 1)),
                    git_ref,
                    raw: s,
                },
            ),
        },
    }
}

/// Parses a step's `uses:` text: `./...` is local, `docker://...` a Docker
/// image, anything else a repository clause (or nothing, when malformed).
pub open spec fn parse_step_uses(s: Seq<char>) -> Option<UsesView> {
    if starts_with(s, "./"@) {
        Some(UsesView::Local(s))
    } else if starts_with(s, "docker://"@) {
        Some(UsesView::Docker(s.skip(9)))
    } else {
        match parse_repository_uses(s) {
            Some(r) => Some(UsesView::Repository(r)),
            None => None,
        }
    }
}

fn str_rfind(s: &str, c: char) -> (r: Option<usize>)
    ensures
        match r {
            Some(i) => rfind(s@, c, s@.len() as int) == Some(i as int) && i < s@.len(),
            None => rfind(s@, c, s@.len() as int) is None,
        },
{
    let n = s.unicode_len();
    let mut k: usize = n;
    while k > 0
        invariant
            n == s@.len(),
            k <= n,
            rfind(s@, c, n as int) == rfind(s@, c, k as int),
        decreases k,
    {
        if s.get_char(k - 1) == c {
            return Some(k - 1);
        }
        k = k - 1;
    }
    None
}

fn str_find_from(s: &str, c: char, i: usize) -> (r: Option<usize>)
    ensures
        match r {
            Some(j) => find_from(s@, c, i as int) == Some(j as int) && i <= j < s@.len(),
            None => find_from(s@, c, i as int) is None,
        },
{
    let n = s.unicode_len();
    let mut k: usize = i;
    while k < n
        invariant
            n == s@.len(),
            i <= k,
            find_from(s@, c, i as int) == find_from(s@, c, k as int),
        decreases n - k,
    {
        if s.get_char(k) == c {
            return Some(k);
        }
        k = k + 1;
    }
    None
}

/// Whether `s` starts with `p`.
pub fn str_starts_with(s: &str, p: &str) -> (r: bool)
    ensures
        r == starts_with(s@, p@),
{
    let n = s.unicode_len();
    let m = p.unicode_len();
    if m > n {
        return false;
    }
    let mut i: usize = 0;
    while i < m
        invariant
            n == s@.len(),
            m == p@.len(),
            m <= n,
            i <= m,
            forall|k: int| 0 <= k < i ==> s@[k] == p@[k],
        decreases m - i,
    {
        if s.get_char(i) != p.get_char(i) {
            assert(s@.take(m as int)[i as int] != p@[i as int]);
            return false;
        }
        i = i + 1;
    }
    assert(s@.take(m as int) =~= p@);
    true
}

impl RepositoryUses {
    /// Parses a repository `uses:` clause `owner/repo[/subpath][@ref]`.
    pub fn from_step(uses: &str) -> (r: Option<RepositoryUses>)
        ensures
            match r {
                Some(u) => parse_repository_uses(uses@) == Some(u@),
                None => parse_repository_uses(uses@) is None,
            },
    {
        let n = uses.unicode_len();
        let at = str_rfind(uses, '@');
        let (path, git_ref) = match at {
            Some(a) => {
                let p = uses.substring_char(0, a);
                let g = uses.substring_char(a + 1, n).to_owned();
                assert(p@ =~= uses@.take(a as int));
                assert(g@ =~= uses@.skip(a + 1));
                (p, Some(g))
            },
            None => (uses, None),
        };
        assert(path@ == match rfind(uses@, '@', uses@.len() as int) {
            Some(a) => uses@.take(a),
            None => uses@,
        });
        assert(opt_str_view(git_ref) == match rfind(uses@, '@', uses@.len() as int) {
            Some(a) => Some(uses@.skip(a + 1)),
            None => None::<Seq<char>>,
        });
        let pn = path.unicode_len();
        let p1 = match str_find_from(path, '/', 0) {
            Some(p1) => p1,
            None => {
                return None;
            },
        };
        let owner = path.substring_char(0, p1).to_owned();
        match str_find_from(path, '/', p1 + 1) {
            None => {
                let repo = path.substring_char(p1 + 1, pn).to_owned();
                assert(owner@ =~= path@.take(p1 as int));
                assert(repo@ =~= path@.skip(p1 + 1));
                let r = RepositoryUses { owner, repo, subpath: None, git_ref, raw: uses.to_owned() };
                assert(r@ == parse_repository_uses(uses@).unwrap());
                Some(r)
            },
            Some(p2) => {
                let repo = path.substring_char(p1 + 1, p2).to_owned();
                let subpath = path.substring_char(p2 + 1, pn).to_owned();
                assert(owner@ =~= path@.take(p1 as int));
                assert(subpath@ =~= path@.skip(p2 + 1));
                let r = RepositoryUses {
                    owner,
                    repo,
                    subpath: Some(subpath),
                    git_ref,
                    raw: uses.to_owned(),
                };
                assert(r@ == parse_repository_uses(uses@).unwrap());
                Some(r)
            },
        }
    }
}

impl Uses {
    /// Parses a step's `uses:` text.
    pub fn from_step(uses: &str) -> (r: Option<Uses>)
        ensures
            match r {
                Some(u) => parse_step_uses(uses@) == Some(u@),
                None => parse_step_uses(uses@) is None,
            },
    {
        proof {
            reveal_strlit("./");
            reveal_strlit("docker://");
        }
        if str_starts_with(uses, "./") {
            Some(Uses::Local(uses.to_owned()))
        } else if str_starts_with(uses, "docker://") {
            let n = uses.unicode_len();
            Some(Uses::Docker(uses.substring_char(9, n).to_owned()))
        } else {
            match RepositoryUses::from_step(uses) {
                Some(r) => Some(Uses::Repository(r)),
                None => None,
            }
        }
    }
}

/// Optional text, lower-cased.
pub open spec fn opt_lowercase(o: Option<Seq<char>>) -> Option<Seq<char>> {
    match o {
        Some(s) => Some(unicode_lowercase(s)),
        None => None,
    }
}

/// `u` matches the template `t`: owner and repo agree up to ASCII case,
/// subpaths agree after lower-casing, and if the template pins a ref, `u`
/// pins the same one. The match is asymmetric: `actions/checkout@v3`
/// matches the template `actions/checkout`, but not the other way round.
pub open spec fn uses_matches(u: RepositoryUsesView, t: RepositoryUsesView) -> bool {
    &&& eq_ignore_ascii_case(u.owner, t.owner)
    &&& eq_ignore_ascii_case(u.repo, t.repo)
    &&& opt_lowercase(u.subpath) == opt_lowercase(t.subpath)
    &&& (t.git_ref matches Some(g) ==> u.git_ref == Some(g))
}

/// Every repository clause matches itself.
pub proof fn lemma_matches_reflexive(u: RepositoryUsesView)
    ensures
        uses_matches(u, u),
{
}

/// The match is asymmetric: a pinned clause matches the same clause
/// unpinned, but the unpinned clause does not match the pinned one.
pub proof fn lemma_matches_asymmetric(u: RepositoryUsesView)
    requires
        u.git_ref is Some,
    ensures
        uses_matches(u, RepositoryUsesView { git_ref: None, ..u }),
        !uses_matches(RepositoryUsesView { git_ref: None, ..u }, u),
{
}

/// Owners and repositories are compared up to ASCII case: clauses that
/// differ only there match the same templates.
pub proof fn lemma_matches_ignores_ascii_case(u: RepositoryUsesView, v: RepositoryUsesView, t: RepositoryUsesView)
    requires
        eq_ignore_ascii_case(u.owner, v.owner),
        eq_ignore_ascii_case(u.repo, v.repo),
        u.subpath == v.subpath,
        u.git_ref == v.git_ref,
        uses_matches(u, t),
    ensures
        uses_matches(v, t),
{
    assert forall|i: int| 0 <= i < v.owner.len() implies ascii_fold(#[trigger] v.owner[i]) == ascii_fold(
        t.owner[i],
    ) by {
        assert(ascii_fold(u.owner[i]) == ascii_fold(v.owner[i]));
        assert(ascii_fold(u.owner[i]) == ascii_fold(t.owner[i]));
    }
    assert forall|i: int| 0 <= i < v.repo.len() implies ascii_fold(#[trigger] v.repo[i]) == ascii_fold(
        t.repo[i],
    ) by {
        assert(ascii_fold(u.repo[i]) == ascii_fold(v.repo[i]));
        assert(ascii_fold(u.repo[i]) == ascii_fold(t.repo[i]));
    }
}

fn opt_to_lowercase(o: &Option<String>) -> (r: Option<String>)
    ensures
        opt_str_view(r) == opt_lowercase(opt_str_view(*o)),
{
    match o {
        Some(s) => Some(to_lowercase(s.as_str())),
        None => None,
    }
}

fn opt_str_eq(a: &Option<String>, b: &Option<String>) -> (r: bool)
    ensures
        r == (opt_str_view(*a) == opt_str_view(*b)),
{
    match (a, b) {
        (Some(x), Some(y)) => *x == *y,
        (None, None) => true,
        _ => false,
    }
}

impl RepositoryUses {
    /// Whether this clause matches the template clause (see `uses_matches`).
    pub fn matches(&self, template: &RepositoryUses) -> (r: bool)
        ensures
            r == uses_matches(self@, template@),
    {
        if !str_eq_ignore_ascii_case(self.owner.as_str(), template.owner.as_str()) {
            return false;
        }
        if !str_eq_ignore_ascii_case(self.repo.as_str(), template.repo.as_str()) {
            return false;
        }
        let mine = opt_to_lowercase(&self.subpath);
        let theirs = opt_to_lowercase(&template.subpath);
        if !opt_str_eq(&mine, &theirs) {
            return false;
        }
        match &template.git_ref {
            None => true,
            Some(_) => opt_str_eq(&template.git_ref, &self.git_ref),
        }
    }
}

/// A Unicode `White_Space` character: what `str::trim` strips.
pub open spec fn is_unicode_whitespace(c: char) -> bool {
    let v = c as u32;
    ||| 0x9 <= v <= 0xD
    ||| v == 0x20
    ||| v == 0x85
    ||| v == 0xA0
    ||| v == 0x1680
    ||| 0x2000 <= v <= 0x200A
    ||| v == 0x2028
    ||| v == 0x2029
    ||| v == 0x202F
    ||| v == 0x205F
    ||| v == 0x3000
}

/// `s` without its leading whitespace.
pub open spec fn trim_start(s: Seq<char>) -> Seq<char>
    decreases s.len(),
{
    if s.len() > 0 && is_unicode_whitespace(s[0]) {
        trim_start(s.skip(1))
    } else {
        s
    }
}

/// `s` without its trailing whitespace.
pub open spec fn trim_end(s: Seq<char>) -> Seq<char>
    decreases s.len(),
{
    if s.len() > 0 && is_unicode_whitespace(s.last()) {
        trim_end(s.drop_last())
    } else {
        s
    }
}

/// `s` without its leading and trailing whitespace.
pub open spec fn trim(s: Seq<char>) -> Seq<char> {
    trim_end(trim_start(s))
}

/// A step's `uses:` text read as a repository clause the way the workflow
/// models read it: the text is trimmed; `./...` and `$/...` are local and
/// `docker://...` is a Docker image, so no repository clause; otherwise an
/// `@<ref>` is required, and the part before the last `@` is split at its
/// first two `/`. The clause keeps the trimmed text as written.
pub open spec fn parsed_repository_uses(raw: Seq<char>) -> Option<RepositoryUsesView> {
    let u = trim(raw);
    if starts_with(u, "./"@) || starts_with(u, "$/"@) || starts_with(u, "docker://"@) {
        None
    } else if rfind(u, '@', u.len() as int) is None {
        None
    } else {
        parse_repository_uses(u)
    }
}

/// Calls `github_actions_models::common::Uses::parse` and keeps a repository
/// result as plain values. That parser trims the text, reads `./` and `$/`
/// as local and `docker://` as Docker, and otherwise splits at the last `@`
/// (which it requires) and at the first two `/` of the part before it, as
/// `parsed_repository_uses` states.
#[verifier::external_body]
pub(crate) fn parse_repository_clause(raw: &str) -> (r: Option<RepositoryUses>)
    ensures
        match r {
            Some(u) => parsed_repository_uses(raw@) == Some(u@),
            None => parsed_repository_uses(raw@) is None,
        },
{
    match github_actions_models::common::Uses::parse(raw) {
        Ok(github_actions_models::common::Uses::Repository(r)) => Some(RepositoryUses {
            owner: r.owner().to_owned(),
            repo: r.repo().to_owned(),
            subpath: match r.subpath() {
                Some(p) => Some(p.to_owned()),
                None => None,
            },
            git_ref: Some(r.git_ref().to_owned()),
            raw: r.raw().to_owned(),
        }),
        Ok(github_actions_models::common::Uses::Local(_)) => None,
        Ok(github_actions_models::common::Uses::Docker(_)) => None,
        Err(_) => None,
    }
}

} // verus!
