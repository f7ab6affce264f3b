//! The result model and the merge policy: results from every provider that
//! answered are concatenated, ranked by seeders (most first, equal counts in
//! arrival order) and cut to a fixed maximum.

use vstd::prelude::*;

verus! {

/// One discovered item.
#[derive(Debug, Clone)]
pub struct TorrentSearchResult {
    pub name: String,
    pub size: String,
    pub seeders: u32,
    pub leechers: u32,
    pub magnet_link: String,
    pub source: String,
}

/// The most results a search returns.
pub const MAX_RESULTS: usize = 50;

/// What one provider call came to. A failure and a timeout contribute
/// nothing; they are kept apart only for the caller's information.
pub enum ProviderOutcome {
    Completed(Vec<TorrentSearchResult>),
    Failed,
    TimedOut,
}

/// The results that an outcome contributes to the merge.
pub open spec fn contribution(o: ProviderOutcome) -> Seq<TorrentSearchResult> {
    match o {
        ProviderOutcome::Completed(v) => v@,
        _ => Seq::empty(),
    }
}

impl ProviderOutcome {
    /// The results this outcome contributes: those of a completed call, and
    /// none otherwise.
    pub fn into_results(self) -> (r: Vec<TorrentSearchResult>)
        ensures
            r@ == contribution(self),
    {
        match self {
            ProviderOutcome::Completed(v) => v,
            _ => Vec::new(),
        }
    }
}

/// Whether the results run from most seeders to fewest.
pub open spec fn seeders_desc(s: Seq<TorrentSearchResult>) -> bool {
    forall|i: int, j: int| 0 <= i < j < s.len() ==> s[i].seeders >= s[j].seeders
}

/// The results of `s` with exactly `v` seeders, in their order in `s`.
pub open spec fn with_seeders(s: Seq<TorrentSearchResult>, v: u32) -> Seq<TorrentSearchResult>
    decreases s.len(),
{
    if s.len() == 0 {
        s
    } else {
        let rest = with_seeders(s.drop_first(), v);
        if s[0].seeders == v {
            seq![s[0]] + rest
        } else {
            rest
        }
    }
}

/// `x` placed into `s` after the leading results that have more seeders.
pub open spec fn place(s: Seq<TorrentSearchResult>, x: TorrentSearchResult) -> Seq<
    TorrentSearchResult,
>
    decreases s.len(),
{
    if s.len() == 0 {
        seq![x]
    } else if s[0].seeders > x.seeders {
        seq![s[0]] + place(s.drop_first(), x)
    } else {
        seq![x] + s
    }
}

/// `s` ranked by seeders, most first; results with equal seeders keep their
/// order in `s`.
pub open spec fn ranked(s: Seq<TorrentSearchResult>) -> Seq<TorrentSearchResult>
    decreases s.len(),
{
    if s.len() == 0 {
        s
    } else {
        place(ranked(s.drop_first()), s[0])
    }
}

/// The first `m` elements of `s`, or all of them where there are fewer.
pub open spec fn truncated(s: Seq<TorrentSearchResult>, m: nat) -> Seq<TorrentSearchResult> {
    if s.len() <= m {
        s
    } else {
        s.take(m as int)
    }
}

/// The merge of three provider outcomes.
pub open spec fn merged(a: ProviderOutcome, b: ProviderOutcome, c: ProviderOutcome) -> Seq<
    TorrentSearchResult,
> {
    truncated(ranked(contribution(a) + contribution(b) + contribution(c)), MAX_RESULTS as nat)
}

proof fn lemma_place_bound(s: Seq<TorrentSearchResult>, x: TorrentSearchResult, m: u32)
    requires
        forall|i: int| 0 <= i < s.len() ==> s[i].seeders <= m,
        x.seeders <= m,
    ensures
        place(s, x).len() == s.len() + 1,
        forall|i: int| 0 <= i < place(s, x).len() ==> place(s, x)[i].seeders <= m,
    decreases s.len(),
{
    if s.len() > 0 && s[0].seeders > x.seeders {
        lemma_place_bound(s.drop_first(), x, m);
    }
}

proof fn lemma_place_sorted(s: Seq<TorrentSearchResult>, x: TorrentSearchResult)
    requires
        seeders_desc(s),
    ensures
        seeders_desc(place(s, x)),
        place(s, x).len() == s.len() + 1,
    decreases s.len(),
{
    if s.len() > 0 && s[0].seeders > x.seeders {
        let rest = s.drop_first();
        lemma_place_sorted(rest, x);
        lemma_place_bound(rest, x, s[0].seeders);
        let t = place(rest, x);
        let p = place(s, x);
        assert(p == seq![s[0]] + t);
        assert forall|i: int, j: int| 0 <= i < j < p.len() implies p[i].seeders >= p[j].seeders by {
            if i > 0 {
                assert(p[i] == t[i - 1] && p[j] == t[j - 1]);
            } else {
                assert(p[j] == t[j - 1]);
            }
        }
    } else if s.len() > 0 {
        let p = place(s, x);
        assert forall|i: int, j: int| 0 <= i < j < p.len() implies p[i].seeders >= p[j].seeders by {
            if i > 0 {
                assert(p[i] == s[i - 1] && p[j] == s[j - 1]);
            } else {
                assert(p[j] == s[j - 1]);
            }
        }
    }
}

proof fn lemma_place_with_seeders(s: Seq<TorrentSearchResult>, x: TorrentSearchResult, v: u32)
    ensures
        with_seeders(place(s, x), v) == (if x.seeders == v {
            seq![x] + with_seeders(s, v)
        } else {
            with_seeders(s, v)
        }),
    decreases s.len(),
{
    let p = place(s, x);
    if s.len() == 0 {
        assert(p.drop_first() =~= s);
    } else if s[0].seeders > x.seeders {
        let rest = s.drop_first();
        lemma_place_with_seeders(rest, x, v);
        assert(p.drop_first() =~= place(rest, x));
    } else {
        assert(p.drop_first() =~= s);
    }
}

proof fn lemma_place_lower(s: Seq<TorrentSearchResult>, x: TorrentSearchResult, m: u32)
    requires
        forall|i: int| 0 <= i < s.len() ==> s[i].seeders >= m,
        x.seeders >= m,
    ensures
        forall|i: int| 0 <= i < place(s, x).len() ==> place(s, x)[i].seeders >= m,
    decreases s.len(),
{
    if s.len() > 0 && s[0].seeders > x.seeders {
        lemma_place_lower(s.drop_first(), x, m);
        let t = place(s.drop_first(), x);
        assert forall|i: int| 0 <= i < place(s, x).len() implies place(s, x)[i].seeders >= m by {
            if i > 0 {
                assert(place(s, x)[i] == t[i - 1]);
            }
        }
    }
}

/// A lower bound on the seeders of every result survives ranking.
pub proof fn lemma_ranked_lower(s: Seq<TorrentSearchResult>, m: u32)
    requires
        forall|i: int| 0 <= i < s.len() ==> s[i].seeders >= m,
    ensures
        forall|i: int| 0 <= i < ranked(s).len() ==> ranked(s)[i].seeders >= m,
    decreases s.len(),
{
    if s.len() > 0 {
        let rest = s.drop_first();
        lemma_ranked_lower(rest, m);
        lemma_place_lower(ranked(rest), s[0], m);
    }
}

/// Ranking keeps every result, orders by seeders, and keeps the order of
/// results with equal seeders: for every seeder count, the results with that
/// count come out in the order they went in.
pub proof fn lemma_ranked_is_stable_sort(s: Seq<TorrentSearchResult>)
    ensures
        ranked(s).len() == s.len(),
        seeders_desc(ranked(s)),
        forall|v: u32| #[trigger] with_seeders(ranked(s), v) == with_seeders(s, v),
    decreases s.len(),
{
    if s.len() > 0 {
        let rest = s.drop_first();
        lemma_ranked_is_stable_sort(rest);
        lemma_place_sorted(ranked(rest), s[0]);
        assert forall|v: u32| #[trigger] with_seeders(ranked(s), v) == with_seeders(s, v) by {
            lemma_place_with_seeders(ranked(rest), s[0], v);
        }
    }
}

/// `x` placed at `p`, where the results before `p` have more seeders and the
/// one at `p` (if any) has no more, is `x` inserted at `p`.
proof fn lemma_place_at(s: Seq<TorrentSearchResult>, x: TorrentSearchResult, p: int)
    requires
        0 <= p <= s.len(),
        forall|i: int| 0 <= i < p ==> s[i].seeders > x.seeders,
        p == s.len() || s[p].seeders <= x.seeders,
    ensures
        place(s, x) == s.insert(p, x),
    decreases p,
{
    if p == 0 {
        if s.len() == 0 {
            assert(place(s, x) =~= s.insert(p, x));
        } else {
            assert(place(s, x) =~= s.insert(p, x));
        }
    } else {
        let rest = s.drop_first();
        lemma_place_at(rest, x, p - 1);
        assert(place(s, x) =~= s.insert(p, x));
    }
}

/// Ranks results by seeders, most first; results with equal seeders keep
/// their relative order.
pub fn rank_by_seeders(items: Vec<TorrentSearchResult>) -> (r: Vec<TorrentSearchResult>)
    ensures
        r@ == ranked(items@),
{
    let ghost orig = items@;
    let mut items = items;
    let mut out: Vec<TorrentSearchResult> = Vec::new();
    proof {
        assert(orig.subrange(orig.len() as int, orig.len() as int) =~= Seq::<
            TorrentSearchResult,
        >::empty());
    }
    while items.len() > 0
        invariant
            items@.len() <= orig.len(),
            items@ == orig.subrange(0, items@.len() as int),
            out@ == ranked(orig.subrange(items@.len() as int, orig.len() as int)),
            seeders_desc(out@),
        decreases items@.len(),
    {
        let ghost k = items@.len() - 1;
        let x = items.pop().unwrap();
        let mut p: usize = 0;
        while p < out.len() && out[p].seeders > x.seeders
            invariant
                p <= out@.len(),
                forall|i: int| 0 <= i < p ==> out@[i].seeders > x.seeders,
            decreases out@.len() - p,
        {
            p = p + 1;
        }
        proof {
            let tail = orig.subrange(k, orig.len() as int);
            assert(tail.drop_first() =~= orig.subrange(k + 1, orig.len() as int));
            assert(tail[0] == x);
            lemma_place_at(out@, x, p as int);
            lemma_place_sorted(out@, x);
        }
        out.insert(p, x);
    }
    assert(orig.subrange(0, orig.len() as int) =~= orig);
    out
}

/// Merges the outcomes of the three providers: the results of those that
/// completed, concatenated, ranked by seeders and cut to `MAX_RESULTS`.
pub fn merge_results(
    movies: ProviderOutcome,
    api: ProviderOutcome,
    scraped: ProviderOutcome,
) -> (r: Vec<TorrentSearchResult>)
    ensures
        r@ == merged(movies, api, scraped),
{
    let ghost (a, b, c) = (movies, api, scraped);
    let mut all = movies.into_results();
    let mut more = api.into_results();
    all.append(&mut more);
    let mut rest = scraped.into_results();
    all.append(&mut rest);
    let mut ranked_all = rank_by_seeders(all);
    ranked_all.truncate(MAX_RESULTS);
    proof {
        lemma_ranked_is_stable_sort(contribution(a) + contribution(b) + contribution(c));
    }
    ranked_all
}

/// Whether `p` is a prefix of `s`.
pub open spec fn is_prefix(p: Seq<TorrentSearchResult>, s: Seq<TorrentSearchResult>) -> bool {
    p.len() <= s.len() && s.take(p.len() as int) == p
}

proof fn lemma_with_seeders_take(s: Seq<TorrentSearchResult>, m: int, v: u32)
    requires
        0 <= m <= s.len(),
    ensures
        is_prefix(with_seeders(s.take(m), v), with_seeders(s, v)),
    decreases m,
{
    let t = s.take(m);
    if m == 0 {
        assert(t.len() == 0);
        assert(with_seeders(s, v).take(0) =~= with_seeders(t, v));
    } else {
        let rest = s.drop_first();
        lemma_with_seeders_take(rest, m - 1, v);
        assert(t.drop_first() =~= rest.take(m - 1));
        let a = with_seeders(rest.take(m - 1), v);
        let b = with_seeders(rest, v);
        if s[0].seeders == v {
            assert((seq![s[0]] + b).take(a.len() + 1 as int) =~= seq![s[0]] + a);
        }
    }
}

/// A merge is ordered by seeders, most first, and is stable: for every
/// seeder count, the merged results with that count are the first results
/// with that count in the concatenation of the providers' contributions, in
/// the same order.
pub proof fn lemma_merge_is_stable(a: ProviderOutcome, b: ProviderOutcome, c: ProviderOutcome)
    ensures
        seeders_desc(merged(a, b, c)),
        forall|v: u32|
            is_prefix(
                #[trigger] with_seeders(merged(a, b, c), v),
                with_seeders(contribution(a) + contribution(b) + contribution(c), v),
            ),
{
    let cat = contribution(a) + contribution(b) + contribution(c);
    let r = ranked(cat);
    lemma_ranked_is_stable_sort(cat);
    assert forall|v: u32|
        is_prefix(
            #[trigger] with_seeders(merged(a, b, c), v),
            with_seeders(cat, v),
        ) by {
        if r.len() <= MAX_RESULTS {
            assert(with_seeders(cat, v).take(with_seeders(cat, v).len() as int) =~= with_seeders(
                cat,
                v,
            ));
        } else {
            lemma_with_seeders_take(r, MAX_RESULTS as int, v);
        }
    }
}

/// A provider that timed out contributes nothing: the merge is the one of the
/// other two providers alone, and the same as for a provider that failed.
pub proof fn lemma_timeout_contributes_nothing(
    a: ProviderOutcome,
    b: ProviderOutcome,
    c: ProviderOutcome,
)
    ensures
        contribution(ProviderOutcome::TimedOut) == Seq::<TorrentSearchResult>::empty(),
        merged(ProviderOutcome::TimedOut, b, c) == truncated(
            ranked(contribution(b) + contribution(c)),
            MAX_RESULTS as nat,
        ),
        merged(a, ProviderOutcome::TimedOut, c) == truncated(
            ranked(contribution(a) + contribution(c)),
            MAX_RESULTS as nat,
        ),
        merged(a, b, ProviderOutcome::TimedOut) == truncated(
            ranked(contribution(a) + contribution(b)),
            MAX_RESULTS as nat,
        ),
        merged(ProviderOutcome::TimedOut, b, c) == merged(ProviderOutcome::Failed, b, c),
        merged(a, ProviderOutcome::TimedOut, c) == merged(a, ProviderOutcome::Failed, c),
        merged(a, b, ProviderOutcome::TimedOut) == merged(a, b, ProviderOutcome::Failed),
{
    let e = Seq::<TorrentSearchResult>::empty();
    assert(e + contribution(b) + contribution(c) =~= contribution(b) + contribution(c));
    assert(contribution(a) + e + contribution(c) =~= contribution(a) + contribution(c));
    assert(contribution(a) + contribution(b) + e =~= contribution(a) + contribution(b));
}

/// A merge of more than `MAX_RESULTS` results holds exactly `MAX_RESULTS` of
/// them, and none that was left out has more seeders than one that was kept.
pub proof fn lemma_merge_keeps_top(a: ProviderOutcome, b: ProviderOutcome, c: ProviderOutcome)
    ensures
        ({
            let cat = contribution(a) + contribution(b) + contribution(c);
            let r = ranked(cat);
            let m = merged(a, b, c);
            &&& m.len() == if cat.len() <= MAX_RESULTS {
                cat.len()
            } else {
                MAX_RESULTS as nat
            }
            &&& m == r.take(m.len() as int)
            &&& forall|i: int, j: int|
                0 <= i < m.len() <= j < r.len() ==> m[i].seeders >= r[j].seeders
            &&& forall|v: u32| #[trigger] with_seeders(r, v) == with_seeders(cat, v)
        }),
{
    let cat = contribution(a) + contribution(b) + contribution(c);
    lemma_ranked_is_stable_sort(cat);
    let r = ranked(cat);
    if r.len() <= MAX_RESULTS {
        assert(r.take(r.len() as int) =~= r);
    }
}

} // verus!
