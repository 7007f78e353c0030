//! The routing table: an ordered list of (method, pattern) entries whose
//! patterns mix literal segments and named parameters, with scopes
//! flattened into their prefix at registration, and first-match lookup
//! that tells a missing path apart from a missing method.

use vstd::prelude::*;
use crate::bytesx::{split_spec, split_from, views_of, pair_views, eq_bytes};
use crate::handlers::HandlerId;

verus! {

#[derive(PartialEq, Eq, Structural, Clone, Copy, Debug)]
pub enum Method {
    Get,
    Post,
    Head,
    Put,
    Delete,
}

/// One piece of a registered pattern.
pub enum Segment {
    /// Matches exactly this text.
    Literal(Vec<u8>),
    /// Matches any non-empty segment, capturing it under this name.
    Param(Vec<u8>),
}

/// Mathematical model of a `Segment`.
pub enum SegModel {
    Literal(Seq<u8>),
    Param(Seq<u8>),
}

impl Segment {
    pub open spec fn model(&self) -> SegModel {
        match self {
            Segment::Literal(v) => SegModel::Literal(v@),
            Segment::Param(v) => SegModel::Param(v@),
        }
    }
}

pub open spec fn seg_models(p: Seq<Segment>) -> Seq<SegModel> {
    Seq::new(p.len(), |i: int| p[i].model())
}

pub struct Route {
    pub method: Method,
    pub pattern: Vec<Segment>,
    pub handler: HandlerId,
}

/// Mathematical model of a `Route`.
pub struct RouteModel {
    pub method: Method,
    pub pattern: Seq<SegModel>,
    pub handler: HandlerId,
}

impl Route {
    pub open spec fn model(&self) -> RouteModel {
        RouteModel {
            method: self.method,
            pattern: seg_models(self.pattern@),
            handler: self.handler,
        }
    }
}

pub open spec fn route_models(rs: Seq<Route>) -> Seq<RouteModel> {
    Seq::new(rs.len(), |i: int| rs[i].model())
}

// ---------------------------------------------------------------------------
// Pattern text
// ---------------------------------------------------------------------------

/// How one piece of a pattern's text reads: `{name}` is a parameter,
/// anything else a literal.
pub open spec fn seg_of_text(s: Seq<u8>) -> SegModel {
    if s.len() >= 2 && s[0] == 123 && s.last() == 125 {
        SegModel::Param(s.subrange(1, s.len() - 1))
    } else {
        SegModel::Literal(s)
    }
}

/// The segments a pattern's text declares, after its leading slash.
pub open spec fn pattern_model(p: Seq<u8>) -> Seq<SegModel> {
    split_spec(p.subrange(1, p.len() as int), 47).map_values(|s: Seq<u8>| seg_of_text(s))
}

fn parse_segment(text: Vec<u8>) -> (r: Segment)
    ensures
        r.model() == seg_of_text(text@),
{
    if text.len() >= 2 && text[0] == 123 && text[text.len() - 1] == 125 {
        let mut name: Vec<u8> = Vec::new();
        let mut i: usize = 1;
        while i < text.len() - 1
            invariant
                text@.len() >= 2,
                1 <= i <= text@.len() - 1,
                name@ =~= text@.subrange(1, i as int),
            decreases text@.len() - i,
        {
            name.push(text[i]);
            proof {
                assert(name@ =~= text@.subrange(1, i as int + 1));
            }
            i = i + 1;
        }
        Segment::Param(name)
    } else {
        Segment::Literal(text)
    }
}

/// Parse a pattern's text, e.g. `/extractor/{user_id}/{name}`.
fn parse_pattern(pattern: &[u8]) -> (r: Vec<Segment>)
    requires
        pattern@.len() >= 1,
        pattern@[0] == 47,
    ensures
        seg_models(r@) =~= pattern_model(pattern@),
{
    let texts = split_from(pattern, 1, 47);
    let mut segs: Vec<Segment> = Vec::new();
    let mut i: usize = 0;
    while i < texts.len()
        invariant
            i <= texts@.len(),
            segs@.len() == i,
            forall|j: int| 0 <= j < i
                ==> (#[trigger] segs@[j]).model() == seg_of_text(texts@[j]@),
        decreases texts@.len() - i,
    {
        let t = texts[i].clone();
        segs.push(parse_segment(t));
        proof {
            assert(segs@[i as int].model() == seg_of_text(texts@[i as int]@));
        }
        i = i + 1;
    }
    proof {
        assert(seg_models(segs@) =~= views_of(texts@).map_values(|s: Seq<u8>| seg_of_text(s)));
    }
    segs
}

fn clone_seg(s: &Segment) -> (r: Segment)
    ensures
        r.model() == s.model(),
{
    match s {
        Segment::Literal(v) => Segment::Literal(v.clone()),
        Segment::Param(v) => Segment::Param(v.clone()),
    }
}

// ---------------------------------------------------------------------------
// Matching
// ---------------------------------------------------------------------------

pub open spec fn seg_matches(p: SegModel, s: Seq<u8>) -> bool {
    match p {
        SegModel::Literal(l) => l == s,
        SegModel::Param(_) => s.len() > 0,
    }
}

/// A pattern matches a split path when the counts agree, every literal
/// matches verbatim and every parameter faces a non-empty segment.
pub open spec fn pattern_matches(pat: Seq<SegModel>, segs: Seq<Seq<u8>>) -> bool {
    pat.len() == segs.len() && forall|i: int|
        0 <= i < pat.len() ==> seg_matches(#[trigger] pat[i], segs[i])
}

/// The (name, value) pairs the parameters of `pat` capture, in order.
pub open spec fn captures(pat: Seq<SegModel>, segs: Seq<Seq<u8>>) -> Seq<(Seq<u8>, Seq<u8>)>
    recommends
        pat.len() == segs.len(),
    decreases pat.len(),
{
    if pat.len() == 0 {
        Seq::empty()
    } else {
        let rest = captures(pat.drop_last(), segs.drop_last());
        match pat.last() {
            SegModel::Param(n) => rest.push((n, segs.last())),
            SegModel::Literal(_) => rest,
        }
    }
}

/// Match one pattern against a split path, returning its captures.
fn match_pattern(pat: &Vec<Segment>, segs: &Vec<Vec<u8>>) -> (r: Option<Vec<(Vec<u8>, Vec<u8>)>>)
    ensures
        match r {
            Option::Some(c) => pattern_matches(seg_models(pat@), views_of(segs@))
                && pair_views(c@) == captures(seg_models(pat@), views_of(segs@)),
            Option::None => !pattern_matches(seg_models(pat@), views_of(segs@)),
        },
{
    if pat.len() != segs.len() {
        return Option::None;
    }
    let mut caps: Vec<(Vec<u8>, Vec<u8>)> = Vec::new();
    let mut i: usize = 0;
    while i < pat.len()
        invariant
            i <= pat@.len(),
            pat@.len() == segs@.len(),
            forall|j: int| 0 <= j < i
                ==> seg_matches(#[trigger] seg_models(pat@)[j], views_of(segs@)[j]),
            pair_views(caps@) =~= captures(
                seg_models(pat@).subrange(0, i as int),
                views_of(segs@).subrange(0, i as int),
            ),
        decreases pat@.len() - i,
    {
        let ghost pm = seg_models(pat@);
        let ghost sm = views_of(segs@);
        proof {
            assert(pm.subrange(0, i as int + 1).drop_last() =~= pm.subrange(0, i as int));
            assert(sm.subrange(0, i as int + 1).drop_last() =~= sm.subrange(0, i as int));
            assert(pm.subrange(0, i as int + 1).last() == pm[i as int]);
            assert(sm.subrange(0, i as int + 1).last() == sm[i as int]);
        }
        match &pat[i] {
            Segment::Literal(l) => {
                if !eq_bytes(l.as_slice(), segs[i].as_slice()) {
                    assert(!seg_matches(pm[i as int], sm[i as int]));
                    return Option::None;
                }
            },
            Segment::Param(n) => {
                if segs[i].len() == 0 {
                    assert(!seg_matches(pm[i as int], sm[i as int]));
                    return Option::None;
                }
                caps.push((n.clone(), segs[i].clone()));
            },
        }
        proof {
            assert(pair_views(caps@) =~= captures(
                pm.subrange(0, i as int + 1),
                sm.subrange(0, i as int + 1),
            ));
        }
        i = i + 1;
    }
    proof {
        assert(seg_models(pat@).subrange(0, pat@.len() as int) =~= seg_models(pat@));
        assert(views_of(segs@).subrange(0, segs@.len() as int) =~= views_of(segs@));
    }
    Option::Some(caps)
}

// ---------------------------------------------------------------------------
// The table
// ---------------------------------------------------------------------------

/// What matching a request against the table yields.
pub enum MatchModel {
    Matched(HandlerId, Seq<(Seq<u8>, Seq<u8>)>),
    NotFound,
    MethodNotAllowed,
}

pub enum MatchOutcome {
    Matched(HandlerId, Vec<(Vec<u8>, Vec<u8>)>),
    NotFound,
    MethodNotAllowed,
}

impl MatchOutcome {
    pub open spec fn model(&self) -> MatchModel {
        match self {
            MatchOutcome::Matched(h, c) => MatchModel::Matched(*h, pair_views(c@)),
            MatchOutcome::NotFound => MatchModel::NotFound,
            MatchOutcome::MethodNotAllowed => MatchModel::MethodNotAllowed,
        }
    }
}

/// First-match routing: the earliest route whose pattern and method both
/// match wins; if only a pattern matches, the method is not allowed.
pub open spec fn match_route_spec(rs: Seq<RouteModel>, m: Method, segs: Seq<Seq<u8>>) -> MatchModel
    decreases rs.len(),
{
    if rs.len() == 0 {
        MatchModel::NotFound
    } else if pattern_matches(rs[0].pattern, segs) && rs[0].method == m {
        MatchModel::Matched(rs[0].handler, captures(rs[0].pattern, segs))
    } else {
        let rest = match_route_spec(rs.drop_first(), m, segs);
        if pattern_matches(rs[0].pattern, segs) {
            match rest {
                MatchModel::Matched(h, c) => MatchModel::Matched(h, c),
                _ => MatchModel::MethodNotAllowed,
            }
        } else {
            rest
        }
    }
}

spec fn after_prefix(path_matched: bool, rest: MatchModel) -> MatchModel {
    match rest {
        MatchModel::Matched(h, c) => MatchModel::Matched(h, c),
        MatchModel::NotFound => if path_matched {
            MatchModel::MethodNotAllowed
        } else {
            MatchModel::NotFound
        },
        MatchModel::MethodNotAllowed => MatchModel::MethodNotAllowed,
    }
}

/// The immutable (after construction) routing table.
pub struct Router {
    pub routes: Vec<Route>,
}

impl Router {
    pub open spec fn model(&self) -> Seq<RouteModel> {
        route_models(self.routes@)
    }

    pub fn new() -> (r: Router)
        ensures
            r.model() =~= Seq::<RouteModel>::empty(),
    {
        Router { routes: Vec::new() }
    }

    /// Register `pattern` (its text, e.g. `/extractor/{user_id}/{name}`)
    /// under `method`, appending one route to the table.
    pub fn register(&mut self, method: Method, pattern: &[u8], handler: HandlerId)
        requires
            pattern@.len() >= 1,
            pattern@[0] == 47,
        ensures
            final(self).model() =~= old(self).model().push(
                RouteModel { method, pattern: pattern_model(pattern@), handler },
            ),
    {
        let segs = parse_pattern(pattern);
        self.routes.push(Route { method, pattern: segs, handler });
        proof {
            assert(self.routes@.drop_last() =~= old(self).routes@);
            assert(self.model() =~= old(self).model().push(
                RouteModel { method, pattern: pattern_model(pattern@), handler },
            ));
        }
    }

    /// Mount every route of `sub` under the literal prefix `prefix`
    /// (e.g. `/api`): the prefix's segments are prepended to each pattern.
    pub fn register_scope(&mut self, prefix: &[u8], sub: &Router)
        requires
            prefix@.len() >= 1,
            prefix@[0] == 47,
        ensures
            final(self).model() =~= old(self).model() + scoped_models(pattern_model(prefix@), sub.model()),
    {
        let prefix_segs = parse_pattern(prefix);
        let ghost pre = pattern_model(prefix@);
        let ghost base = self.model();
        let mut k: usize = 0;
        proof {
            assert(self.model() =~= base + scoped_models(pre, sub.model().subrange(0, 0)));
        }
        while k < sub.routes.len()
            invariant
                k <= sub.routes@.len(),
                base == old(self).model(),
                seg_models(prefix_segs@) =~= pre,
                self.model() =~= base + scoped_models(pre, sub.model().subrange(0, k as int)),
            decreases sub.routes@.len() - k,
        {
            let mut pat: Vec<Segment> = Vec::new();
            let mut j: usize = 0;
            while j < prefix_segs.len()
                invariant
                    j <= prefix_segs@.len(),
                    pat@.len() == j,
                    forall|t: int| 0 <= t < j
                        ==> seg_models(pat@)[t] == seg_models(prefix_segs@)[t],
                decreases prefix_segs@.len() - j,
            {
                pat.push(clone_seg(&prefix_segs[j]));
                j = j + 1;
            }
            let inner = &sub.routes[k].pattern;
            let mut t: usize = 0;
            while t < inner.len()
                invariant
                    t <= inner@.len(),
                    pat@.len() == prefix_segs@.len() + t,
                    forall|u: int| 0 <= u < prefix_segs@.len()
                        ==> seg_models(pat@)[u] == seg_models(prefix_segs@)[u],
                    forall|u: int| 0 <= u < t
                        ==> seg_models(pat@)[prefix_segs@.len() + u] == seg_models(inner@)[u],
                decreases inner@.len() - t,
            {
                pat.push(clone_seg(&inner[t]));
                t = t + 1;
            }
            proof {
                assert(seg_models(pat@) =~= pre + seg_models(inner@));
            }
            let r = Route {
                method: sub.routes[k].method,
                pattern: pat,
                handler: sub.routes[k].handler,
            };
            let ghost rm = r.model();
            let ghost before = self.routes@;
            self.routes.push(r);
            proof {
                assert(rm.pattern =~= pre + sub.model()[k as int].pattern);
                assert(rm == RouteModel {
                    method: sub.model()[k as int].method,
                    pattern: pre + sub.model()[k as int].pattern,
                    handler: sub.model()[k as int].handler,
                });
                assert(self.model() =~= route_models(before).push(rm));
                assert(scoped_models(pre, sub.model().subrange(0, k as int + 1))
                    =~= scoped_models(pre, sub.model().subrange(0, k as int)).push(rm));
                assert(self.model() =~= base
                    + scoped_models(pre, sub.model().subrange(0, k as int + 1)));
            }
            k = k + 1;
        }
        proof {
            assert(sub.model().subrange(0, sub.routes@.len() as int) =~= sub.model());
        }
    }

    /// Match a split request path against the table.
    pub fn match_route(&self, method: Method, segs: &Vec<Vec<u8>>) -> (r: MatchOutcome)
        ensures
            r.model() == match_route_spec(self.model(), method, views_of(segs@)),
    {
        let ghost whole = self.model();
        let ghost sm = views_of(segs@);
        let mut path_matched = false;
        let mut i: usize = 0;
        proof {
            assert(whole.skip(0) =~= whole);
        }
        while i < self.routes.len()
            invariant
                i <= self.routes@.len(),
                whole == self.model(),
                sm == views_of(segs@),
                match_route_spec(whole, method, sm)
                    == after_prefix(path_matched, match_route_spec(whole.skip(i as int), method, sm)),
            decreases self.routes@.len() - i,
        {
            let ghost rest = whole.skip(i as int);
            proof {
                assert(rest.len() > 0);
                assert(rest[0] == whole[i as int]);
                assert(rest.drop_first() =~= whole.skip(i as int + 1));
            }
            let matched = match_pattern(&self.routes[i].pattern, segs);
            match matched {
                Option::Some(caps) => {
                    if self.routes[i].method == method {
                        return MatchOutcome::Matched(self.routes[i].handler, caps);
                    }
                    path_matched = true;
                },
                Option::None => {},
            }
            i = i + 1;
        }
        proof {
            assert(whole.skip(self.routes@.len() as int).len() == 0);
        }
        if path_matched {
            MatchOutcome::MethodNotAllowed
        } else {
            MatchOutcome::NotFound
        }
    }
}

/// Each route of a scope, with the prefix's segments prepended.
pub open spec fn scoped_models(pre: Seq<SegModel>, rs: Seq<RouteModel>) -> Seq<RouteModel> {
    rs.map_values(|r: RouteModel| RouteModel {
        method: r.method,
        pattern: pre + r.pattern,
        handler: r.handler,
    })
}

/// Scope composition: mounting routes under a prefix prepends the
/// prefix's segments to every nested pattern, so a nested route is
/// reachable only on paths whose first segments match the prefix —
/// never on the inner path alone.
pub proof fn lemma_scope_composition(pre: Seq<SegModel>, rs: Seq<RouteModel>, i: int)
    requires
        0 <= i < rs.len(),
    ensures
        scoped_models(pre, rs).len() == rs.len(),
        scoped_models(pre, rs)[i].pattern == pre + rs[i].pattern,
        forall|segs: Seq<Seq<u8>>|
            #[trigger] pattern_matches(scoped_models(pre, rs)[i].pattern, segs)
                ==> segs.len() == pre.len() + rs[i].pattern.len()
                    && (forall|j: int| 0 <= j < pre.len()
                        ==> seg_matches(#[trigger] pre[j], segs[j])),
{
    let pat = scoped_models(pre, rs)[i].pattern;
    assert forall|segs: Seq<Seq<u8>>| #[trigger] pattern_matches(pat, segs)
        implies segs.len() == pre.len() + rs[i].pattern.len()
            && (forall|j: int| 0 <= j < pre.len() ==> seg_matches(#[trigger] pre[j], segs[j]))
    by {
        assert forall|j: int| 0 <= j < pre.len()
            implies seg_matches(#[trigger] pre[j], segs[j])
        by {
            assert(pat[j] == pre[j]);
            assert(seg_matches(pat[j], segs[j]));
        }
    }
}

} // verus!
