use vstd::prelude::*;

verus! {

/// A dependency between two contracts of the catalogue, by their registry ids.
pub struct GraphEdge {
    pub source: u128,
    pub target: u128,
    pub dependency_type: String,
}

/// The edges whose two ends are both among `nodes`, in their original order.
pub open spec fn edges_within(nodes: Seq<u128>, edges: Seq<(u128, u128, Seq<char>)>) -> Seq<(u128, u128, Seq<char>)>
    decreases edges.len(),
{
    if edges.len() == 0 {
        Seq::empty()
    } else {
        let rest = edges_within(nodes, edges.drop_last());
        let e = edges.last();
        if nodes.contains(e.0) && nodes.contains(e.1) {
            rest.push(e)
        } else {
            rest
        }
    }
}

/// Each edge as its two ends and its kind.
pub open spec fn edge_ends(edges: Seq<GraphEdge>) -> Seq<(u128, u128, Seq<char>)> {
    edges.map_values(|e: GraphEdge| (e.source, e.target, e.dependency_type@))
}

fn contains_id(ids: &Vec<u128>, id: u128) -> (r: bool)
    ensures
        r == ids@.contains(id),
{
    let mut i: usize = 0;
    while i < ids.len()
        invariant
            i <= ids@.len(),
            forall|j: int| 0 <= j < i ==> ids@[j] != id,
        decreases ids@.len() - i,
    {
        if ids[i] == id {
            return true;
        }
        i += 1;
    }
    false
}

/// Keeps the edges of a dependency graph whose source and target are both shown nodes.
pub fn filter_edges(nodes: &Vec<u128>, edges: &Vec<GraphEdge>) -> (r: Vec<GraphEdge>)
    ensures
        edge_ends(r@) == edges_within(nodes@, edge_ends(edges@)),
{
    let ghost all = edge_ends(edges@);
    let mut r: Vec<GraphEdge> = Vec::new();
    let mut i: usize = 0;
    assert(all.subrange(0, 0) =~= Seq::<(u128, u128, Seq<char>)>::empty());
    assert(edge_ends(r@) =~= Seq::<(u128, u128, Seq<char>)>::empty());
    while i < edges.len()
        invariant
            i <= edges@.len(),
            all == edge_ends(edges@),
            edge_ends(r@) == edges_within(nodes@, all.subrange(0, i as int)),
        decreases edges@.len() - i,
    {
        let ghost r0 = edge_ends(r@);
        let ghost prefix = all.subrange(0, i + 1);
        assert(prefix.drop_last() =~= all.subrange(0, i as int));
        assert(prefix.last() == (edges@[i as int].source, edges@[i as int].target, edges@[i as int].dependency_type@));
        let e = &edges[i];
        if contains_id(nodes, e.source) && contains_id(nodes, e.target) {
            r.push(GraphEdge {
                source: e.source,
                target: e.target,
                dependency_type: e.dependency_type.clone(),
            });
            assert(edge_ends(r@) =~= r0.push((e.source, e.target, e.dependency_type@)));
        }
        i += 1;
    }
    assert(all.subrange(0, edges@.len() as int) =~= all);
    r
}

/// Page number, page size and row offset of a catalogue listing: the page is at least 1
/// (default 1), the size at most 100 (default 20), and the offset skips the earlier pages.
pub struct PageWindow {
    pub page: i64,
    pub page_size: i64,
    pub offset: i64,
}

/// The window of a listing request; `None` when its offset does not fit in an `i64`.
pub fn page_window(page: Option<i64>, page_size: Option<i64>) -> (r: Option<PageWindow>)
    ensures
        ({
            let p: int = match page {
                Some(x) => if x < 1 { 1 } else { x as int },
                None => 1,
            };
            let s: int = match page_size {
                Some(x) => if x > 100 { 100 } else { x as int },
                None => 20,
            };
            let off = (p - 1) * s;
            &&& r is Some <==> i64::MIN <= off <= i64::MAX
            &&& r matches Some(w) ==> w.page == p && w.page_size == s && w.offset == off
        }),
{
    let p: i64 = match page {
        Some(x) => if x < 1 {
            1
        } else {
            x
        },
        None => 1,
    };
    let s: i64 = match page_size {
        Some(x) => if x > 100 {
            100
        } else {
            x
        },
        None => 20,
    };
    match (p - 1).checked_mul(s) {
        Some(offset) => Some(PageWindow { page: p, page_size: s, offset }),
        None => None,
    }
}

} // verus!
