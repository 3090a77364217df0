//! Triangle bookkeeping for per-vertex tangent bases.
//!
//! A vertex's tangent and bitangent are the averages of the bases of the
//! triangles it belongs to, a triangle counting once for each of its corners
//! at that vertex. This module checks an index list, cuts it into triangles,
//! and lists for every vertex the triangles whose bases it averages, in the
//! order in which they are accumulated. Vertices that no triangle uses get
//! an empty list: their basis stays zero.
use vstd::prelude::*;

verus! {

/// Vertex positions of one triangle's three corners.
pub type Triangle = (usize, usize, usize);

/// Why an index list does not describe triangles over a vertex set.
#[derive(Clone, Copy, Debug, PartialEq, Eq, Structural)]
pub enum GeometryError {
    /// The number of indices is not a multiple of three.
    IncompleteTriangle { index_count: usize },
    /// The index at `position` names no vertex.
    IndexOutOfRange { position: usize, index: u32 },
}

/// Every index names one of `vertex_count` vertices.
pub open spec fn indices_in_range(indices: Seq<u32>, vertex_count: nat) -> bool {
    forall|p: int| 0 <= p < indices.len() ==> (#[trigger] indices[p]) < vertex_count
}

/// The `k`-th triangle of an index list read three at a time.
pub open spec fn triangle_at(indices: Seq<u32>, k: int) -> Triangle {
    (indices[3 * k] as usize, indices[3 * k + 1] as usize, indices[3 * k + 2] as usize)
}

/// Every corner of every triangle names one of `vertex_count` vertices.
pub open spec fn corners_in_range(triangles: Seq<Triangle>, vertex_count: nat) -> bool {
    forall|k: int|
        0 <= k < triangles.len() ==> {
            &&& (#[trigger] triangles[k]).0 < vertex_count
            &&& triangles[k].1 < vertex_count
            &&& triangles[k].2 < vertex_count
        }
}

/// Reads an index list three at a time into triangles over `vertex_count`
/// vertices. A list whose length is not a multiple of three is refused
/// first; otherwise the first index that names no vertex is reported.
#[verifier::rlimit(40)]
pub fn triangles(indices: &Vec<u32>, vertex_count: usize) -> (r: Result<
    Vec<Triangle>,
    GeometryError,
>)
    ensures
        indices@.len() % 3 != 0 ==> r == Err::<Vec<Triangle>, GeometryError>(
            GeometryError::IncompleteTriangle { index_count: indices@.len() as usize },
        ),
        r is Ok <==> indices@.len() % 3 == 0 && indices_in_range(indices@, vertex_count as nat),
        match r {
            Ok(t) => {
                &&& t@.len() == indices@.len() / 3
                &&& forall|k: int| 0 <= k < t@.len() ==> #[trigger] t@[k] == triangle_at(indices@, k)
                &&& corners_in_range(t@, vertex_count as nat)
            },
            Err(GeometryError::IndexOutOfRange { position, index }) => {
                &&& indices@.len() % 3 == 0
                &&& position < indices@.len()
                &&& index == indices@[position as int]
                &&& index >= vertex_count
                &&& indices_in_range(indices@.take(position as int), vertex_count as nat)
            },
            Err(GeometryError::IncompleteTriangle { .. }) => indices@.len() % 3 != 0,
        },
{
    let len = indices.len();
    if len % 3 != 0 {
        return Err(GeometryError::IncompleteTriangle { index_count: len });
    }
    let mut p: usize = 0;
    while p < len
        invariant
            len == indices@.len(),
            len % 3 == 0,
            p <= len,
            indices_in_range(indices@.take(p as int), vertex_count as nat),
        decreases len - p,
    {
        if indices[p] as usize >= vertex_count {
            return Err(GeometryError::IndexOutOfRange { position: p, index: indices[p] });
        }
        assert(indices@.take(p + 1) =~= indices@.take(p as int).push(indices@[p as int]));
        p += 1;
    }
    assert(indices@.take(len as int) =~= indices@);
    let mut out: Vec<Triangle> = Vec::new();
    let count = len / 3;
    let mut k: usize = 0;
    while k < count
        invariant
            len == indices@.len(),
            len % 3 == 0,
            count == len / 3,
            k <= count,
            out@.len() == k,
            indices_in_range(indices@, vertex_count as nat),
            forall|j: int| 0 <= j < k ==> #[trigger] out@[j] == triangle_at(indices@, j),
            corners_in_range(out@, vertex_count as nat),
        decreases count - k,
    {
        let base = 3 * k;
        assert(indices@[base as int] < vertex_count && indices@[base + 1] < vertex_count
            && indices@[base + 2] < vertex_count);
        out.push((indices[base] as usize, indices[base + 1] as usize, indices[base + 2] as usize));
        k += 1;
    }
    Ok(out)
}

/// Triangle `k` once for each of its corners at vertex `v`.
pub open spec fn corner_hits(t: Triangle, k: usize, v: usize) -> Seq<usize> {
    (if t.0 == v {
        seq![k]
    } else {
        seq![]
    }) + (if t.1 == v {
        seq![k]
    } else {
        seq![]
    }) + (if t.2 == v {
        seq![k]
    } else {
        seq![]
    })
}

/// The triangles whose bases vertex `v` averages, in accumulation order:
/// each triangle, in list order, once per corner at `v`.
pub open spec fn incidence(triangles: Seq<Triangle>, v: usize) -> Seq<usize>
    decreases triangles.len(),
{
    if triangles.len() == 0 {
        seq![]
    } else {
        incidence(triangles.drop_last(), v) + corner_hits(
            triangles.last(),
            (triangles.len() - 1) as usize,
            v,
        )
    }
}

/// How many times `k` occurs in `s`.
pub open spec fn occurrences(s: Seq<usize>, k: usize) -> nat
    decreases s.len(),
{
    if s.len() == 0 {
        0
    } else {
        occurrences(s.drop_last(), k) + if s.last() == k {
            1nat
        } else {
            0nat
        }
    }
}

/// How many corners of `t` lie at vertex `v`.
pub open spec fn corner_count(t: Triangle, v: usize) -> nat {
    (if t.0 == v {
        1nat
    } else {
        0nat
    }) + (if t.1 == v {
        1nat
    } else {
        0nat
    }) + (if t.2 == v {
        1nat
    } else {
        0nat
    })
}

proof fn lemma_occurrences_concat(a: Seq<usize>, b: Seq<usize>, k: usize)
    ensures
        occurrences(a + b, k) == occurrences(a, k) + occurrences(b, k),
    decreases b.len(),
{
    if b.len() == 0 {
        assert(a + b =~= a);
    } else {
        lemma_occurrences_concat(a, b.drop_last(), k);
        assert((a + b).drop_last() =~= a + b.drop_last());
    }
}

proof fn lemma_occurrences_corner_hits(t: Triangle, j: usize, v: usize, k: usize)
    ensures
        occurrences(corner_hits(t, j, v), k) == if j == k {
            corner_count(t, v)
        } else {
            0
        },
{
    let a: Seq<usize> = if t.0 == v {
        seq![j]
    } else {
        seq![]
    };
    let b: Seq<usize> = if t.1 == v {
        seq![j]
    } else {
        seq![]
    };
    let c: Seq<usize> = if t.2 == v {
        seq![j]
    } else {
        seq![]
    };
    lemma_occurrences_concat(a + b, c, k);
    lemma_occurrences_concat(a, b, k);
    assert(seq![j].drop_last() =~= Seq::<usize>::empty());
    assert(occurrences(Seq::<usize>::empty(), k) == 0);
    assert(occurrences(seq![j], k) == occurrences(seq![j].drop_last(), k) + if j == k {
        1nat
    } else {
        0nat
    });
}

/// Each vertex averages exactly the triangles incident to it, without
/// weights: triangle `k` occurs in vertex `v`'s list as many times as it has
/// corners at `v`, and nothing else occurs there. The list's length is the
/// divisor of the average.
pub proof fn lemma_incidence_counts_each_corner(triangles: Seq<Triangle>, v: usize, k: usize)
    requires
        triangles.len() <= usize::MAX,
    ensures
        occurrences(incidence(triangles, v), k) == if k < triangles.len() {
            corner_count(triangles[k as int], v)
        } else {
            0
        },
    decreases triangles.len(),
{
    if triangles.len() > 0 {
        let n = (triangles.len() - 1) as usize;
        let rest = triangles.drop_last();
        lemma_incidence_counts_each_corner(rest, v, k);
        lemma_occurrences_concat(incidence(rest, v), corner_hits(triangles.last(), n, v), k);
        lemma_occurrences_corner_hits(triangles.last(), n, v, k);
        if k < n {
            assert(rest[k as int] == triangles[k as int]);
        }
    }
}

/// Appends `k` to the list of vertex `v`, leaving the other lists alone.
fn push_incident(lists: &mut Vec<Vec<usize>>, v: usize, k: usize)
    requires
        v < old(lists)@.len(),
    ensures
        final(lists)@.len() == old(lists)@.len(),
        final(lists)@[v as int]@ == old(lists)@[v as int]@.push(k),
        forall|u: int|
            0 <= u < old(lists)@.len() && u != v ==> (#[trigger] final(lists)@[u]) == old(lists)@[u],
{
    lists[v].push(k);
}

/// Lists, for each of `vertex_count` vertices, the triangles that touch it
/// (see `incidence`).
#[verifier::rlimit(40)]
pub fn incident_triangles(triangles: &Vec<Triangle>, vertex_count: usize) -> (r: Vec<Vec<usize>>)
    requires
        corners_in_range(triangles@, vertex_count as nat),
    ensures
        r@.len() == vertex_count,
        forall|v: int| 0 <= v < vertex_count ==> (#[trigger] r@[v])@ == incidence(triangles@, v as usize),
{
    let mut r: Vec<Vec<usize>> = Vec::new();
    let mut v: usize = 0;
    while v < vertex_count
        invariant
            v <= vertex_count,
            r@.len() == v,
            forall|u: int| 0 <= u < v ==> (#[trigger] r@[u])@ == Seq::<usize>::empty(),
        decreases vertex_count - v,
    {
        r.push(Vec::new());
        v += 1;
    }
    let mut k: usize = 0;
    while k < triangles.len()
        invariant
            corners_in_range(triangles@, vertex_count as nat),
            k <= triangles@.len(),
            r@.len() == vertex_count,
            forall|u: int|
                0 <= u < vertex_count ==> (#[trigger] r@[u])@ == incidence(
                    triangles@.take(k as int),
                    u as usize,
                ),
        decreases triangles@.len() - k,
    {
        let t = triangles[k];
        assert(t == triangles@[k as int]);
        let ghost s0 = r@;
        push_incident(&mut r, t.0, k);
        let ghost s1 = r@;
        push_incident(&mut r, t.1, k);
        let ghost s2 = r@;
        push_incident(&mut r, t.2, k);
        assert forall|u: int| 0 <= u < r@.len() implies (#[trigger] r@[u])@ == s0[u]@ + corner_hits(
            t,
            k,
            u as usize,
        ) by {
            let hit0: Seq<usize> = if t.0 == u as usize { seq![k] } else { seq![] };
            let hit1: Seq<usize> = if t.1 == u as usize { seq![k] } else { seq![] };
            let hit2: Seq<usize> = if t.2 == u as usize { seq![k] } else { seq![] };
            assert(s1[u]@ =~= s0[u]@ + hit0);
            assert(s2[u]@ =~= s1[u]@ + hit1);
            assert(r@[u]@ =~= s2[u]@ + hit2);
            assert(corner_hits(t, k, u as usize) == hit0 + hit1 + hit2);
            assert(s0[u]@ + hit0 + hit1 + hit2 =~= s0[u]@ + (hit0 + hit1 + hit2));
        }
        proof {
            lemma_incidence_step(triangles@, k as int, s0, r@);
        }
        k += 1;
    }
    assert(triangles@.take(k as int) =~= triangles@);
    r
}

proof fn lemma_incidence_step(
    triangles: Seq<Triangle>,
    k: int,
    before: Seq<Vec<usize>>,
    after: Seq<Vec<usize>>,
)
    requires
        0 <= k < triangles.len(),
        k <= usize::MAX,
        before.len() == after.len(),
        forall|u: int|
            0 <= u < before.len() ==> (#[trigger] before[u])@ == incidence(
                triangles.take(k),
                u as usize,
            ),
        forall|u: int|
            0 <= u < after.len() ==> (#[trigger] after[u])@ == before[u]@ + corner_hits(
                triangles[k],
                k as usize,
                u as usize,
            ),
    ensures
        forall|u: int|
            0 <= u < after.len() ==> (#[trigger] after[u])@ == incidence(
                triangles.take(k + 1),
                u as usize,
            ),
{
    assert(triangles.take(k + 1).drop_last() =~= triangles.take(k));
    assert(triangles.take(k + 1).last() == triangles[k]);
}

} // verus!
