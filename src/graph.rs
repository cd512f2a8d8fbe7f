//! Directed graphs given by adjacency lists, and whether one is a forest
//! whose trees are rooted at their smallest vertex.
use vstd::prelude::*;

verus! {

/// How often `v` occurs in `l`.
pub open spec fn count_in(l: Seq<usize>, v: usize) -> nat
    decreases l.len(),
{
    if l.len() == 0 {
        0
    } else {
        count_in(l.drop_last(), v) + if l.last() == v {
            1nat
        } else {
            0nat
        }
    }
}

/// The number of edges into `v` from the vertices below `u`.
pub open spec fn in_degree_below(e: Seq<Seq<usize>>, v: usize, u: int) -> nat
    decreases u,
{
    if u <= 0 {
        0
    } else {
        in_degree_below(e, v, u - 1) + count_in(e[u - 1], v)
    }
}

pub open spec fn in_degree(e: Seq<Seq<usize>>, v: usize) -> nat {
    in_degree_below(e, v, e.len() as int)
}

pub open spec fn is_parent(e: Seq<Seq<usize>>, u: int, v: usize) -> bool {
    0 <= u < e.len() && e[u].contains(v)
}

pub open spec fn parent(e: Seq<Seq<usize>>, v: usize) -> int {
    choose|u: int| is_parent(e, u, v)
}

/// The vertex without incoming edges that following incoming edges back
/// from `v` reaches in at most `fuel` steps.
pub open spec fn root_of(e: Seq<Seq<usize>>, v: usize, fuel: nat) -> Option<usize>
    decreases fuel,
{
    if in_degree(e, v) == 0 {
        Some(v)
    } else if fuel == 0 {
        None
    } else {
        root_of(e, parent(e, v) as usize, (fuel - 1) as nat)
    }
}

/// Every vertex has at most one incoming edge, following incoming edges back
/// from any vertex ends (there is no cycle) at a vertex without one, and that
/// root is no larger than any vertex of its tree.
pub open spec fn is_forest(e: Seq<Seq<usize>>) -> bool {
    &&& forall|v: usize| v < e.len() ==> #[trigger] in_degree(e, v) <= 1
    &&& forall|v: usize|
        v < e.len() ==> (#[trigger] root_of(e, v, e.len() as nat) matches Some(r) && r <= v)
}

proof fn lemma_count_take_step(l: Seq<usize>, v: usize, k: int)
    requires
        0 <= k < l.len(),
    ensures
        count_in(l.take(k + 1), v) == count_in(l.take(k), v) + if l[k] == v {
            1nat
        } else {
            0nat
        },
{
    assert(l.take(k + 1).drop_last() =~= l.take(k));
}

proof fn lemma_count_take_le(l: Seq<usize>, v: usize, k: int)
    requires
        0 <= k <= l.len(),
    ensures
        count_in(l.take(k), v) <= count_in(l, v),
    decreases l.len() - k,
{
    if k == l.len() {
        assert(l.take(k) =~= l);
    } else {
        lemma_count_take_step(l, v, k);
        lemma_count_take_le(l, v, k + 1);
    }
}

proof fn lemma_count_contains(l: Seq<usize>, v: usize)
    requires
        l.contains(v),
    ensures
        count_in(l, v) >= 1,
    decreases l.len(),
{
    if l.last() != v {
        let i = choose|i: int| 0 <= i < l.len() && l[i] == v;
        assert(l.drop_last()[i] == v);
        lemma_count_contains(l.drop_last(), v);
    }
}

proof fn lemma_below_mono(e: Seq<Seq<usize>>, v: usize, i: int, j: int)
    requires
        0 <= i <= j,
    ensures
        in_degree_below(e, v, i) <= in_degree_below(e, v, j),
    decreases j - i,
{
    if i < j {
        lemma_below_mono(e, v, i, j - 1);
    }
}

/// A vertex with one incoming edge has one parent.
proof fn lemma_parent_unique(e: Seq<Seq<usize>>, v: usize, a: int, b: int)
    requires
        in_degree(e, v) <= 1,
        is_parent(e, a, v),
        is_parent(e, b, v),
    ensures
        a == b,
{
    if a != b {
        let (x, y) = if a < b {
            (a, b)
        } else {
            (b, a)
        };
        lemma_count_contains(e[x], v);
        lemma_count_contains(e[y], v);
        lemma_below_mono(e, v, x + 1, y);
        lemma_below_mono(e, v, y + 1, e.len() as int);
        assert(false);
    }
}

/// A directed graph on the vertices 0 to n - 1, each with the list of
/// targets of its edges.
pub struct EdgeListGraph {
    vertices: Vec<usize>,
    edges: Vec<Vec<usize>>,
}

impl EdgeListGraph {
    /// The adjacency lists: `adj()[u]` lists the targets of `u`'s edges.
    pub closed spec fn adj(&self) -> Seq<Seq<usize>> {
        Seq::new(self.edges@.len(), |u: int| self.edges@[u]@)
    }

    pub closed spec fn wf(&self) -> bool {
        &&& self.vertices@ == Seq::new(self.edges@.len(), |i: int| i as usize)
        &&& forall|u: int, k: int|
            0 <= u < self.edges@.len() && 0 <= k < self.edges@[u]@.len()
                ==> #[trigger] self.edges@[u]@[k] < self.edges@.len()
    }

    /// The graph whose vertex `u` has edges to the vertices listed in
    /// `el[u]`; an error if an edge leads to no vertex.
    pub fn make(el: Vec<Vec<usize>>) -> (r: Result<EdgeListGraph, &'static str>)
        ensures
            (r is Ok) == (forall|u: int, k: int|
                0 <= u < el@.len() && 0 <= k < el@[u]@.len() ==> #[trigger] el@[u]@[k]
                    < el@.len()),
            r matches Ok(g) ==> g.wf() && g.adj() == Seq::new(el@.len(), |u: int| el@[u]@),
    {
        let sz = el.len();
        let mut u: usize = 0;
        while u < sz
            invariant
                sz == el@.len(),
                u <= sz,
                forall|a: int, k: int|
                    0 <= a < u && 0 <= k < el@[a]@.len() ==> #[trigger] el@[a]@[k] < sz,
            decreases sz - u,
        {
            let edges = &el[u];
            let mut k: usize = 0;
            while k < edges.len()
                invariant
                    sz == el@.len(),
                    u < sz,
                    edges@ == el@[u as int]@,
                    k <= edges@.len(),
                    forall|a: int, j: int|
                        0 <= a < u && 0 <= j < el@[a]@.len() ==> #[trigger] el@[a]@[j] < sz,
                    forall|j: int| 0 <= j < k ==> #[trigger] edges@[j] < sz,
                decreases edges@.len() - k,
            {
                if edges[k] >= sz {
                    return Err("an edge leads to no vertex");
                }
                k = k + 1;
            }
            u = u + 1;
        }
        let mut vertices: Vec<usize> = Vec::new();
        let mut i: usize = 0;
        while i < sz
            invariant
                i <= sz,
                vertices@ == Seq::new(i as nat, |j: int| j as usize),
            decreases sz - i,
        {
            vertices.push(i);
            i = i + 1;
            assert(vertices@ =~= Seq::new(i as nat, |j: int| j as usize));
        }
        let g = EdgeListGraph { vertices, edges: el };
        assert(g.adj() =~= Seq::new(el@.len(), |u: int| el@[u]@));
        Ok(g)
    }

    /// The number of vertices.
    pub fn size(&self) -> (r: usize)
        ensures
            r == self.adj().len(),
    {
        self.edges.len()
    }

    /// The vertices, 0 to `size() - 1`.
    pub fn get_vertices(&self) -> (r: &Vec<usize>)
        requires
            self.wf(),
        ensures
            r@ == Seq::new(self.adj().len(), |i: int| i as usize),
    {
        &self.vertices
    }

    /// The targets of the edges from `vx`.
    pub fn get_connected(&self, vx: usize) -> (r: &Vec<usize>)
        requires
            vx < self.adj().len(),
        ensures
            r@ == self.adj()[vx as int],
    {
        &self.edges[vx]
    }

    /// Whether the graph is a forest whose trees are each rooted at their
    /// smallest vertex (see `is_forest`).
    pub fn is_tree(&self) -> (r: bool)
        requires
            self.wf(),
        ensures
            r == is_forest(self.adj()),
    {
        let ghost e = self.adj();
        let n = self.edges.len();
        let mut indeg: Vec<usize> = Vec::new();
        let mut parent_of: Vec<usize> = Vec::new();
        let mut i: usize = 0;
        while i < n
            invariant
                n == e.len(),
                i <= n,
                indeg@.len() == i,
                parent_of@.len() == i,
                forall|v: int| 0 <= v < i ==> #[trigger] indeg@[v] == 0,
            decreases n - i,
        {
            indeg.push(0);
            parent_of.push(0);
            i = i + 1;
        }
        // Count incoming edges, stopping at a second one.
        let mut u: usize = 0;
        while u < n
            invariant
                n == e.len(),
                e == self.adj(),
                self.wf(),
                u <= n,
                indeg@.len() == n,
                parent_of@.len() == n,
                forall|v: usize|
                    v < n ==> #[trigger] indeg@[v as int] == in_degree_below(e, v, u as int),
                forall|v: usize| v < n ==> #[trigger] indeg@[v as int] <= 1,
                forall|v: usize|
                    v < n && indeg@[v as int] == 1 ==> #[trigger] is_parent(
                        e,
                        parent_of@[v as int] as int,
                        v,
                    ),
            decreases n - u,
        {
            let edges = &self.edges[u];
            let mut k: usize = 0;
            while k < edges.len()
                invariant
                    n == e.len(),
                    e == self.adj(),
                    self.wf(),
                    u < n,
                    edges@ == e[u as int],
                    k <= edges@.len(),
                    indeg@.len() == n,
                    parent_of@.len() == n,
                    forall|v: usize|
                        v < n ==> #[trigger] indeg@[v as int] == in_degree_below(e, v, u as int)
                            + count_in(edges@.take(k as int), v),
                    forall|v: usize| v < n ==> #[trigger] indeg@[v as int] <= 1,
                    forall|v: usize|
                        v < n && indeg@[v as int] == 1 ==> #[trigger] is_parent(
                            e,
                            parent_of@[v as int] as int,
                            v,
                        ),
                decreases edges@.len() - k,
            {
                let v = edges[k];
                assert(v < n);
                proof {
                    assert forall|w: usize| w < n implies count_in(edges@.take(k + 1), w)
                        == count_in(edges@.take(k as int), w) + if edges@[k as int] == w {
                        1nat
                    } else {
                        0nat
                    } by {
                        lemma_count_take_step(edges@, w, k as int);
                    }
                }
                if indeg[v] >= 1 {
                    proof {
                        lemma_count_take_le(edges@, v, k + 1);
                        lemma_below_mono(e, v, u + 1, n as int);
                        assert(in_degree(e, v) > 1);
                    }
                    return false;
                }
                indeg.set(v, 1);
                parent_of.set(v, u);
                assert(is_parent(e, u as int, v)) by {
                    assert(e[u as int][k as int] == v);
                }
                k = k + 1;
            }
            assert(edges@.take(edges@.len() as int) =~= edges@);
            u = u + 1;
        }
        assert forall|v: usize| v < n implies #[trigger] in_degree(e, v) <= 1 by {
            assert(indeg@[v as int] <= 1);
        }
        // Follow parents back from each vertex.
        let mut v: usize = 0;
        while v < n
            invariant
                n == e.len(),
                e == self.adj(),
                v <= n,
                indeg@.len() == n,
                parent_of@.len() == n,
                forall|w: usize| w < n ==> #[trigger] indeg@[w as int] == in_degree(e, w),
                forall|w: usize| w < n ==> #[trigger] in_degree(e, w) <= 1,
                forall|w: usize|
                    w < n && indeg@[w as int] == 1 ==> #[trigger] is_parent(
                        e,
                        parent_of@[w as int] as int,
                        w,
                    ),
                forall|w: usize|
                    w < v ==> (#[trigger] root_of(e, w, n as nat) matches Some(r) && r <= w),
            decreases n - v,
        {
            let mut x: usize = v;
            let mut steps: usize = 0;
            while indeg[x] == 1 && steps < n
                invariant
                    n == e.len(),
                    v < n,
                    x < n,
                    steps <= n,
                    indeg@.len() == n,
                    parent_of@.len() == n,
                    forall|w: usize| w < n ==> #[trigger] indeg@[w as int] == in_degree(e, w),
                    forall|w: usize| w < n ==> #[trigger] in_degree(e, w) <= 1,
                    forall|w: usize|
                        w < n && indeg@[w as int] == 1 ==> #[trigger] is_parent(
                            e,
                            parent_of@[w as int] as int,
                            w,
                        ),
                    root_of(e, v, n as nat) == root_of(e, x, (n - steps) as nat),
                decreases n - steps,
            {
                let p = parent_of[x];
                proof {
                    assert(is_parent(e, p as int, x));
                    lemma_parent_unique(e, x, p as int, parent(e, x));
                }
                x = p;
                steps = steps + 1;
            }
            if indeg[x] == 1 || x > v {
                proof {
                    if indeg@[x as int] == 1 {
                        assert(root_of(e, x, 0) is None);
                    } else {
                        assert(root_of(e, x, (n - steps) as nat) == Some(x));
                    }
                    assert(!(root_of(e, v, e.len() as nat) matches Some(r) && r <= v));
                }
                return false;
            }
            v = v + 1;
        }
        true
    }
}

} // verus!
