use vstd::prelude::*;

verus! {

/// A node of a display tree (departments, menus): an id, a name and the nodes
/// whose parent it is.
#[derive(Debug)]
pub struct TreeNode {
    pub id: i64,
    pub name: String,
    pub children: Vec<TreeNode>,
}

/// A flat row: id, name and parent id.
pub type NodeRow = (i64, String, Option<i64>);

/// The indices, below `k` and in input order, of the rows whose parent is `parent`.
pub open spec fn child_rows(nodes: Seq<NodeRow>, parent: i64, k: int) -> Seq<int>
    decreases k,
{
    if k <= 0 || k > nodes.len() {
        Seq::<int>::empty()
    } else if nodes[k - 1].2 == Some(parent) {
        child_rows(nodes, parent, k - 1).push(k - 1)
    } else {
        child_rows(nodes, parent, k - 1)
    }
}

/// The indices, in input order, of all rows whose parent is `parent`.
pub open spec fn children_of(nodes: Seq<NodeRow>, parent: i64) -> Seq<int> {
    child_rows(nodes, parent, nodes.len() as int)
}

/// `chain` lists rows, each a child of the one before it, the first a child of
/// `parent`.
pub open spec fn is_chain(nodes: Seq<NodeRow>, parent: i64, chain: Seq<int>) -> bool {
    forall|j: int|
        0 <= j < chain.len() ==> 0 <= #[trigger] chain[j] < nodes.len() && nodes[chain[j]].2 == Some(
            if j == 0 {
                parent
            } else {
                nodes[chain[j - 1]].0
            },
        )
}

/// There is a chain of `k` generations of rows below `parent`.
pub open spec fn descends(nodes: Seq<NodeRow>, parent: i64, k: nat) -> bool {
    exists|chain: Seq<int>| chain.len() == k && #[trigger] is_chain(nodes, parent, chain)
}

/// `forest` is the complete forest of rows below `parent`, children in input
/// order, and it is at most `depth` generations deep.
pub open spec fn forest_of(forest: Seq<TreeNode>, nodes: Seq<NodeRow>, parent: i64, depth: nat) -> bool
    decreases depth,
{
    let kids = children_of(nodes, parent);
    &&& forest.len() == kids.len()
    &&& forall|j: int|
        0 <= j < forest.len() ==> {
            let row = nodes[kids[j]];
            &&& (#[trigger] forest[j]).id == row.0
            &&& forest[j].name@ == row.1@
            &&& depth > 0
            &&& forest_of(forest[j].children@, nodes, row.0, (depth - 1) as nat)
        }
}

proof fn lemma_child_rows_bounds(nodes: Seq<NodeRow>, parent: i64, k: int)
    requires
        0 <= k <= nodes.len(),
    ensures
        forall|j: int|
            0 <= j < child_rows(nodes, parent, k).len() ==> 0 <= #[trigger] child_rows(
                nodes,
                parent,
                k,
            )[j] < k && nodes[child_rows(nodes, parent, k)[j]].2 == Some(parent),
    decreases k,
{
    if k > 0 {
        lemma_child_rows_bounds(nodes, parent, k - 1);
    }
}

proof fn lemma_descends_step(nodes: Seq<NodeRow>, parent: i64, i: int, k: nat)
    requires
        0 <= i < nodes.len(),
        nodes[i].2 == Some(parent),
        descends(nodes, nodes[i].0, k),
    ensures
        descends(nodes, parent, k + 1),
{
    let chain = choose|chain: Seq<int>| chain.len() == k && #[trigger] is_chain(nodes, nodes[i].0, chain);
    let longer = seq![i].add(chain);
    assert forall|j: int| 0 <= j < longer.len() implies 0 <= #[trigger] longer[j] < nodes.len()
        && nodes[longer[j]].2 == Some(if j == 0 { parent } else { nodes[longer[j - 1]].0 }) by {
        if j > 0 {
            assert(longer[j] == chain[j - 1]);
            if j > 1 {
                assert(longer[j - 1] == chain[j - 2]);
            }
        }
    }
    assert(is_chain(nodes, parent, longer));
}

/// The forest below `parent`, built to at most `depth` generations.
fn build_subtree(nodes: &Vec<NodeRow>, parent: i64, depth: usize) -> (r: Vec<TreeNode>)
    requires
        !descends(nodes@, parent, (depth + 1) as nat),
    ensures
        forest_of(r@, nodes@, parent, depth as nat),
    decreases depth,
{
    let mut out: Vec<TreeNode> = Vec::new();
    let mut i: usize = 0;
    while i < nodes.len()
        invariant
            i <= nodes@.len(),
            !descends(nodes@, parent, (depth + 1) as nat),
            out@.len() == child_rows(nodes@, parent, i as int).len(),
            forall|j: int|
                0 <= j < out@.len() ==> {
                    let row = nodes@[child_rows(nodes@, parent, i as int)[j]];
                    &&& (#[trigger] out@[j]).id == row.0
                    &&& out@[j].name@ == row.1@
                    &&& depth > 0
                    &&& forest_of(out@[j].children@, nodes@, row.0, (depth - 1) as nat)
                },
        decreases nodes@.len() - i,
    {
        let row = &nodes[i];
        let is_child = match row.2 {
            Some(p) => p == parent,
            None => false,
        };
        if is_child {
            proof {
                if depth == 0 {
                    assert(is_chain(nodes@, row.0, Seq::<int>::empty()));
                    lemma_descends_step(nodes@, parent, i as int, 0);
                }
                if descends(nodes@, row.0, depth as nat) {
                    lemma_descends_step(nodes@, parent, i as int, depth as nat);
                }
                lemma_child_rows_bounds(nodes@, parent, i as int);
            }
            let kids = build_subtree(nodes, row.0, depth - 1);
            out.push(TreeNode { id: row.0, name: row.1.clone(), children: kids });
        }
        i += 1;
    }
    out
}

/// Builds the tree of the rows below the root parent id 0, children in input
/// order. Rows without a parent, and rows whose parent chain does not reach 0,
/// are left out. `None` when there are no rows, or none below 0.
///
/// The parent links below 0 must hold no cycle (no chain of more generations
/// than there are rows); on such input the tree would never be finished.
pub fn build_tree(nodes: Vec<NodeRow>) -> (r: Option<Vec<TreeNode>>)
    requires
        !descends(nodes@, 0, (nodes@.len() + 1) as nat),
    ensures
        r is None <==> children_of(nodes@, 0).len() == 0,
        r matches Some(t) ==> forest_of(t@, nodes@, 0, nodes@.len()),
{
    if nodes.len() == 0 {
        return None;
    }
    let root = build_subtree(&nodes, 0, nodes.len());
    if root.len() == 0 {
        None
    } else {
        Some(root)
    }
}

} // verus!
