use vstd::prelude::*;

use crate::error::RagError;

verus! {

/// One hit of a similarity search. `similarity` is `1 - cosine distance`
/// in millionths (1_000_000 for identical directions).
pub struct SearchResult {
    pub id: i64,
    pub content: String,
    pub content_type: String,
    pub metadata: Option<String>,
    pub similarity: i32,
}

/// The hit belongs to the requested content type, or no type was requested.
pub open spec fn matches_type(r: SearchResult, content_type: Option<Seq<char>>) -> bool {
    content_type is None || r.content_type@ == content_type->0
}

pub open spec fn type_view(content_type: Option<&String>) -> Option<Seq<char>> {
    match content_type {
        Some(s) => Some(s@),
        None => None,
    }
}

/// Results in order of descending similarity.
pub open spec fn sorted_by_similarity(s: Seq<SearchResult>) -> bool {
    forall|i: int, j: int| 0 <= i < j < s.len() ==> s[i].similarity >= s[j].similarity
}

/// `r` is what a search for `k` hits of type `t` returns out of
/// `candidates`, the hit `r[i]` being the candidate at position `pos[i]`:
/// at most `k` hits, best first, each of the requested type; hits of equal
/// similarity keep their order among the candidates; a matching candidate
/// left out means that `k` hits were returned, none of them less similar
/// than it, and every one as similar as it coming before it among the
/// candidates.
pub open spec fn ranked_at(
    candidates: Seq<SearchResult>,
    k: nat,
    t: Option<Seq<char>>,
    r: Seq<SearchResult>,
    pos: Seq<int>,
) -> bool {
    &&& r.len() <= k
    &&& pos.len() == r.len()
    &&& sorted_by_similarity(r)
    &&& forall|i: int|
        0 <= i < r.len() ==> 0 <= #[trigger] pos[i] < candidates.len() && r[i] == candidates[pos[i]]
            && matches_type(r[i], t)
    &&& forall|i: int, j: int|
        0 <= i < j < r.len() ==> pos[i] != pos[j] && (r[i].similarity == r[j].similarity ==> pos[i]
            < pos[j])
    &&& forall|c: int|
        0 <= c < candidates.len() && matches_type(#[trigger] candidates[c], t) && !pos.contains(c)
            ==> r.len() == k && forall|i: int|
            0 <= i < r.len() ==> candidates[c].similarity <= #[trigger] r[i].similarity && (
            candidates[c].similarity == r[i].similarity ==> pos[i] < c)
}

/// `r` is what a search for `k` hits of type `t` returns out of
/// `candidates` (see `ranked_at`): the first `k` matching candidates by
/// descending similarity, ties in candidate order.
pub open spec fn ranked(
    candidates: Seq<SearchResult>,
    k: nat,
    t: Option<Seq<char>>,
    r: Seq<SearchResult>,
) -> bool {
    exists|pos: Seq<int>| ranked_at(candidates, k, t, r, pos)
}

/// Number of candidates fetched from the index for `k` hits: twice as many,
/// and never fewer than 50, so that filtering by type still leaves enough.
pub open spec fn candidate_count_spec(k: nat) -> nat {
    let d = 2 * k;
    let c = if d >= 50 { d } else { 50 };
    if c > usize::MAX { usize::MAX as nat } else { c }
}

pub fn candidate_count(k: usize) -> (r: usize)
    ensures
        r == candidate_count_spec(k as nat),
{
    let d = if k > usize::MAX / 2 {
        usize::MAX
    } else {
        2 * k
    };
    if d >= 50 {
        d
    } else {
        50
    }
}

/// The smallest collection size whose natural logarithm reaches `m + 1`,
/// that is `ceil(e^(m + 1))`, for `m < 16`.
pub open spec fn ln_step(m: int) -> nat {
    if m == 0 { 3 }
    else if m == 1 { 8 }
    else if m == 2 { 21 }
    else if m == 3 { 55 }
    else if m == 4 { 149 }
    else if m == 5 { 404 }
    else if m == 6 { 1097 }
    else if m == 7 { 2981 }
    else if m == 8 { 8104 }
    else if m == 9 { 22027 }
    else if m == 10 { 59875 }
    else if m == 11 { 162755 }
    else if m == 12 { 442414 }
    else if m == 13 { 1202605 }
    else if m == 14 { 3269018 }
    else { 8886111 }
}

const LN_STEPS: [usize; 16] = [
    3,
    8,
    21,
    55,
    149,
    404,
    1097,
    2981,
    8104,
    22027,
    59875,
    162755,
    442414,
    1202605,
    3269018,
    8886111,
];

/// Number of layers of the index over `n` vectors: `floor(ln n)`, at most 16
/// (and 0 for fewer than 3 vectors).
pub fn layer_count(n: usize) -> (r: usize)
    ensures
        r <= 16,
        forall|m: int| 0 <= m < r ==> ln_step(m) <= n,
        r < 16 ==> n < ln_step(r as int),
{
    let steps = LN_STEPS;
    proof {
        assert(steps@ == seq![3usize, 8, 21, 55, 149, 404, 1097, 2981, 8104, 22027, 59875, 162755,
            442414, 1202605, 3269018, 8886111]);
    }
    let mut m: usize = 0;
    while m < 16 && steps[m] <= n
        invariant
            m <= 16,
            forall|j: int| 0 <= j < 16 ==> steps@[j] == ln_step(j),
            forall|j: int| 0 <= j < m ==> ln_step(j) <= n,
        decreases 16 - m,
    {
        m = m + 1;
    }
    m
}

/// How an index over the stored vectors is to be built.
#[derive(Debug, Clone, Copy, PartialEq, Eq, Structural)]
pub struct IndexPlan {
    pub vector_count: usize,
    pub dimension: usize,
    pub layers: usize,
    pub max_connections: usize,
    pub ef_construction: usize,
}

pub const MAX_CONNECTIONS: usize = 48;

pub const EF_CONSTRUCTION: usize = 200;

/// Plans an index over vectors of the given lengths (one per stored vector).
/// All must share one dimension, which the index takes; an empty store gives
/// an empty index of dimension 0.
pub fn plan_index(dimensions: &Vec<usize>) -> (r: Result<IndexPlan, RagError>)
    ensures
        r is Ok <==> forall|i: int|
            0 <= i < dimensions@.len() ==> #[trigger] dimensions@[i] == dimensions@[0],
        r is Err ==> r == Err::<IndexPlan, RagError>(RagError::DimensionMismatch),
        r is Ok ==> {
            let p = r->Ok_0;
            &&& p.vector_count == dimensions@.len()
            &&& p.dimension == if dimensions@.len() == 0 { 0 } else { dimensions@[0] }
            &&& p.max_connections == MAX_CONNECTIONS
            &&& p.ef_construction == EF_CONSTRUCTION
            &&& p.layers <= 16
            &&& forall|m: int| 0 <= m < p.layers ==> ln_step(m) <= p.vector_count
            &&& p.layers < 16 ==> p.vector_count < ln_step(p.layers as int)
        },
{
    let n = dimensions.len();
    let dimension = if n == 0 {
        0
    } else {
        dimensions[0]
    };
    let mut i: usize = 0;
    while i < n
        invariant
            n == dimensions@.len(),
            i <= n,
            n > 0 ==> dimension == dimensions@[0],
            forall|j: int| 0 <= j < i ==> #[trigger] dimensions@[j] == dimensions@[0],
        decreases n - i,
    {
        if dimensions[i] != dimension {
            return Err(RagError::DimensionMismatch);
        }
        i = i + 1;
    }
    Ok(
        IndexPlan {
            vector_count: n,
            dimension,
            layers: layer_count(n),
            max_connections: MAX_CONNECTIONS,
            ef_construction: EF_CONSTRUCTION,
        },
    )
}

/// The first position in `buf` whose hit is strictly less similar than `x`.
fn insertion_point(buf: &Vec<SearchResult>, x: i32) -> (r: usize)
    requires
        sorted_by_similarity(buf@),
    ensures
        r <= buf@.len(),
        forall|i: int| 0 <= i < r ==> buf@[i].similarity >= x,
        r < buf@.len() ==> buf@[r as int].similarity < x,
{
    let mut i: usize = 0;
    while i < buf.len()
        invariant
            i <= buf@.len(),
            forall|j: int| 0 <= j < i ==> buf@[j].similarity >= x,
        decreases buf@.len() - i,
    {
        if buf[i].similarity < x {
            return i;
        }
        i = i + 1;
    }
    i
}

/// Keeps the candidates of the requested type, orders them by descending
/// similarity (ties keep their order among the candidates) and returns the
/// first `k`.
pub fn rank_results(candidates: Vec<SearchResult>, k: usize, content_type: Option<&String>) -> (r:
    Vec<SearchResult>)
    ensures
        ranked(candidates@, k as nat, type_view(content_type), r@),
{
    let ghost all = candidates@;
    let ghost t = type_view(content_type);
    let mut rest = candidates;
    let mut buf: Vec<SearchResult> = Vec::new();
    let ghost mut pos: Seq<int> = Seq::empty();
    let ghost mut done: int = 0;
    while rest.len() > 0
        invariant
            0 <= done <= all.len(),
            rest@ == all.subrange(done, all.len() as int),
            sorted_by_similarity(buf@),
            t == type_view(content_type),
            pos.len() == buf@.len(),
            forall|i: int|
                0 <= i < buf@.len() ==> 0 <= #[trigger] pos[i] < done && buf@[i] == all[pos[i]]
                    && matches_type(buf@[i], t),
            forall|i: int, j: int|
                0 <= i < j < buf@.len() ==> pos[i] != pos[j] && (buf@[i].similarity
                    == buf@[j].similarity ==> pos[i] < pos[j]),
            forall|c: int| 0 <= c < done && matches_type(#[trigger] all[c], t) ==> pos.contains(c),
        decreases rest@.len(),
    {
        let x = rest.remove(0);
        proof {
            assert(x == all[done]);
        }
        let keep = match content_type {
            Some(ct) => x.content_type == *ct,
            None => true,
        };
        if keep {
            let p = insertion_point(&buf, x.similarity);
            let ghost before = buf@;
            let ghost old_pos = pos;
            buf.insert(p, x);
            proof {
                pos = old_pos.insert(p as int, done);
                assert(buf@ == before.insert(p as int, x));
                assert forall|i: int| p <= i < before.len() implies before[i].similarity
                    < x.similarity by {
                    if i > p {
                        assert(before[p as int].similarity >= before[i].similarity);
                    }
                }
                assert forall|i: int, j: int| 0 <= i < j < buf@.len() implies buf@[i].similarity
                    >= buf@[j].similarity by {
                    if j < p {
                    } else if j == p {
                    } else if i < p {
                        assert(buf@[j] == before[j - 1]);
                    } else if i == p {
                        assert(buf@[j] == before[j - 1]);
                    } else {
                        assert(buf@[i] == before[i - 1]);
                        assert(buf@[j] == before[j - 1]);
                    }
                }
                assert forall|i: int|
                    0 <= i < buf@.len() implies 0 <= #[trigger] pos[i] < done + 1 && buf@[i] == all[pos[i]]
                    && matches_type(buf@[i], t) by {
                    if i < p {
                        assert(pos[i] == old_pos[i]);
                    } else if i > p {
                        assert(pos[i] == old_pos[i - 1]);
                        assert(buf@[i] == before[i - 1]);
                    }
                }
                assert forall|i: int, j: int| 0 <= i < j < buf@.len() implies pos[i] != pos[j] && (
                buf@[i].similarity == buf@[j].similarity ==> pos[i] < pos[j]) by {
                    if j < p {
                        assert(pos[i] == old_pos[i] && pos[j] == old_pos[j]);
                    } else if j == p {
                        assert(pos[i] == old_pos[i]);
                    } else if i < p {
                        assert(pos[i] == old_pos[i] && pos[j] == old_pos[j - 1]);
                        assert(buf@[j] == before[j - 1]);
                    } else if i == p {
                        assert(pos[j] == old_pos[j - 1]);
                        assert(buf@[j] == before[j - 1]);
                    } else {
                        assert(pos[i] == old_pos[i - 1] && pos[j] == old_pos[j - 1]);
                        assert(buf@[i] == before[i - 1]);
                        assert(buf@[j] == before[j - 1]);
                    }
                }
                assert forall|c: int| 0 <= c < done + 1 && matches_type(#[trigger] all[c], t) implies pos.contains(c) by {
                    if c < done {
                        assert(old_pos.contains(c));
                        let w = choose|w: int| 0 <= w < old_pos.len() && old_pos[w] == c;
                        if w < p {
                            assert(pos[w] == c);
                        } else {
                            assert(pos[w + 1] == c);
                        }
                    } else {
                        assert(pos[p as int] == c);
                    }
                }
            }
        } else {
            proof {
                assert forall|c: int| 0 <= c < done + 1 && matches_type(#[trigger] all[c], t) implies pos.contains(c) by {
                    if c == done {
                        assert(!matches_type(x, t));
                    }
                }
            }
        }
        proof {
            done = done + 1;
            assert(rest@ =~= all.subrange(done, all.len() as int));
        }
    }
    let ghost full = buf@;
    let ghost full_pos = pos;
    if buf.len() > k {
        buf.truncate(k);
    }
    proof {
        let n = buf@.len() as int;
        let rpos = full_pos.subrange(0, n);
        assert(buf@ =~= full.subrange(0, n));
        assert(done == all.len());
        assert forall|c: int|
            0 <= c < all.len() && matches_type(#[trigger] all[c], t) && !rpos.contains(c) implies buf@.len() == k
            && forall|i: int|
            0 <= i < buf@.len() ==> all[c].similarity <= #[trigger] buf@[i].similarity && (
            all[c].similarity == buf@[i].similarity ==> rpos[i] < c) by {
            assert(full_pos.contains(c));
            let w = choose|w: int| 0 <= w < full_pos.len() && full_pos[w] == c;
            if w < n {
                assert(rpos[w] == c);
            }
            assert(full[w] == all[c]);
            assert forall|i: int| 0 <= i < buf@.len() implies all[c].similarity <= #[trigger] buf@[i].similarity
                && (all[c].similarity == buf@[i].similarity ==> rpos[i] < c) by {
                assert(buf@[i] == full[i]);
                assert(rpos[i] == full_pos[i]);
            }
        }
        assert(ranked_at(all, k as nat, t, buf@, rpos));
    }
    buf
}

/// What the store knows of its index: whether one was ever built, how it was
/// planned, and whether writes happened since (inserts and deletions only
/// reach search after the next build).
pub struct VectorStore {
    index: Option<IndexPlan>,
    generation: u64,
    rebuild_pending: bool,
}

/// Returned by a deletion: the live index still holds the deleted vector
/// until the next build.
#[must_use]
pub struct RebuildPending;

impl VectorStore {
    pub closed spec fn built(&self) -> bool {
        self.index is Some
    }

    pub closed spec fn plan(&self) -> IndexPlan {
        self.index->0
    }

    pub closed spec fn stale(&self) -> bool {
        self.rebuild_pending
    }

    pub closed spec fn generation_view(&self) -> nat {
        self.generation as nat
    }

    /// A store with no index yet.
    pub fn new() -> (r: Self)
        ensures
            !r.built(),
            !r.stale(),
            r.generation_view() == 0,
    {
        VectorStore { index: None, generation: 0, rebuild_pending: false }
    }

    pub fn is_built(&self) -> (r: bool)
        ensures
            r == self.built(),
    {
        self.index.is_some()
    }

    pub fn needs_rebuild(&self) -> (r: bool)
        ensures
            r == self.stale(),
    {
        self.rebuild_pending
    }

    /// Number of index builds published so far.
    pub fn generation(&self) -> (r: u64)
        ensures
            r == self.generation_view(),
    {
        self.generation
    }

    /// Notes a stored insert: the index is left as it is, and the new vector
    /// stays invisible to search until the next build.
    pub fn note_insert(&mut self)
        ensures
            final(self).built() == old(self).built(),
            old(self).built() ==> final(self).plan() == old(self).plan(),
            final(self).generation_view() == old(self).generation_view(),
            final(self).stale(),
    {
        self.rebuild_pending = true;
    }

    /// Notes a stored deletion; the caller owes a rebuild.
    pub fn note_delete(&mut self) -> (r: RebuildPending)
        ensures
            final(self).built() == old(self).built(),
            old(self).built() ==> final(self).plan() == old(self).plan(),
            final(self).generation_view() == old(self).generation_view(),
            final(self).stale(),
    {
        self.rebuild_pending = true;
        RebuildPending
    }

    /// Publishes a freshly built index, which replaces the previous one
    /// whole.
    pub fn publish_index(&mut self, plan: IndexPlan)
        requires
            old(self).generation_view() < u64::MAX,
        ensures
            final(self).built(),
            final(self).plan() == plan,
            !final(self).stale(),
            final(self).generation_view() == old(self).generation_view() + 1,
    {
        self.index = Some(plan);
        self.generation = self.generation + 1;
        self.rebuild_pending = false;
    }

    /// The plan of the live index.
    pub fn index_plan(&self) -> (r: Option<IndexPlan>)
        ensures
            r is Some == self.built(),
            r is Some ==> r->0 == self.plan(),
    {
        self.index
    }

    /// How many candidates to fetch from the index for `k` hits; fails
    /// before the first build.
    pub fn search_plan(&self, k: usize) -> (r: Result<usize, RagError>)
        ensures
            !self.built() ==> r == Err::<usize, RagError>(RagError::IndexNotBuilt),
            self.built() ==> r == Ok::<usize, RagError>(candidate_count_spec(k as nat) as usize),
    {
        if self.index.is_none() {
            return Err(RagError::IndexNotBuilt);
        }
        Ok(candidate_count(k))
    }

    /// The hits of a search for `k` results of the given type among the
    /// candidates that the index returned; fails before the first build,
    /// however many vectors were stored.
    pub fn search(&self, candidates: Vec<SearchResult>, k: usize, content_type: Option<&String>) -> (r:
        Result<Vec<SearchResult>, RagError>)
        ensures
            !self.built() ==> r is Err && r->Err_0 == RagError::IndexNotBuilt,
            self.built() ==> r is Ok && ranked(
                candidates@,
                k as nat,
                type_view(content_type),
                r->Ok_0@,
            ),
    {
        if self.index.is_none() {
            return Err(RagError::IndexNotBuilt);
        }
        Ok(rank_results(candidates, k, content_type))
    }
}

} // verus!
