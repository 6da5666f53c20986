//! The log as a tree of foldable nodes, addressed by position.
//!
//! The tree has four levels: commits, the file diffs of a commit, the hunks
//! of a file diff, and the lines of a hunk. A position is the path of child
//! indices from the root to a node. Flattening lists the nodes that no
//! folded ancestor hides, in the order in which they are shown.

use vstd::prelude::*;
use crate::text::{SpanView, Text};

verus! {

/// The level of the lines of a hunk, counted from the commits at 0. No node
/// lies deeper.
pub const DIFF_HUNK_LINE_IDX: usize = 3;

/// The path from the root to a node: the index of a commit, then of a file
/// diff of that commit, of a hunk of that file diff, of a line of that hunk.
pub type TreePosition = Vec<usize>;

/// What a node stands for, with the data that only its kind carries.
#[derive(Clone, Debug, PartialEq, Eq)]
pub enum NodeKind {
    Commit { change_id: String, current_working_copy: bool, description_first_line: Option<String> },
    FileDiff { path: String },
    DiffHunk,
    DiffHunkLine { line_number: Option<u32> },
}

/// A node of the log tree with the subtree below it.
#[derive(Debug)]
pub struct LogTreeNode {
    pub kind: NodeKind,
    /// The lines that show the node.
    pub text: Text,
    /// Whether the children are shown.
    pub unfolded: bool,
    /// The place of the node in the flattened list, as of the last time the
    /// tree was flattened while the node was visible.
    pub flat_log_idx: usize,
    pub children: Vec<LogTreeNode>,
}

/// Why a request to the log tree failed.
#[derive(Clone, Copy, Debug, PartialEq, Eq, Structural)]
pub enum LogTreeError {
    /// The position does not lead to a node.
    InvalidPosition,
    /// The nodes do not follow the four levels.
    Malformed,
}

/// A [`NodeKind`] as a mathematical value.
pub enum KindView {
    Commit { change_id: Seq<char>, current_working_copy: bool, description_first_line: Option<Seq<char>> },
    FileDiff { path: Seq<char> },
    DiffHunk,
    DiffHunkLine { line_number: Option<u32> },
}

/// A node as a mathematical value: what it shows, whether it is unfolded,
/// and its children. The cached place in the flattened list is no part of
/// it.
pub struct NodeView {
    pub kind: KindView,
    pub text: Seq<Seq<SpanView>>,
    pub unfolded: bool,
    pub children: Seq<NodeView>,
}

impl View for NodeKind {
    type V = KindView;

    open spec fn view(&self) -> KindView {
        match self {
            NodeKind::Commit { change_id, current_working_copy, description_first_line } => KindView::Commit {
                change_id: change_id@,
                current_working_copy: *current_working_copy,
                description_first_line: match description_first_line {
                    Some(d) => Some(d@),
                    None => None,
                },
            },
            NodeKind::FileDiff { path } => KindView::FileDiff { path: path@ },
            NodeKind::DiffHunk => KindView::DiffHunk,
            NodeKind::DiffHunkLine { line_number } => KindView::DiffHunkLine { line_number: *line_number },
        }
    }
}

impl KindView {
    /// The level at which nodes of this kind stand.
    pub open spec fn level(self) -> nat {
        match self {
            KindView::Commit { .. } => 0,
            KindView::FileDiff { .. } => 1,
            KindView::DiffHunk => 2,
            KindView::DiffHunkLine { .. } => 3,
        }
    }
}

/// A stored node as a mathematical value.
pub open spec fn node_view(node: LogTreeNode) -> NodeView
    decreases node,
{
    NodeView {
        kind: node.kind@,
        text: node.text@,
        unfolded: node.unfolded,
        children: Seq::new(
            node.children@.len(),
            |i: int|
                if 0 <= i < node.children@.len() {
                    node_view(node.children@[i])
                } else {
                    arbitrary()
                },
        ),
    }
}

impl View for LogTreeNode {
    type V = NodeView;

    open spec fn view(&self) -> NodeView {
        node_view(*self)
    }
}

/// The nodes of a list as mathematical values.
pub open spec fn nodes_view(nodes: Seq<LogTreeNode>) -> Seq<NodeView> {
    Seq::new(nodes.len(), |i: int| nodes[i]@)
}

/// The positions as mathematical values.
pub open spec fn positions_view(positions: Seq<TreePosition>) -> Seq<Seq<usize>> {
    positions.map_values(|p: TreePosition| p@)
}

/// The display blocks as mathematical values.
pub open spec fn blocks_view(blocks: Seq<Text>) -> Seq<Seq<Seq<SpanView>>> {
    blocks.map_values(|t: Text| t@)
}

/// Whether the nodes stand at `level` and the trees below them follow the
/// levels down to the lines, which have no children. No node has more
/// children than a list can hold.
pub open spec fn well_formed(nodes: Seq<NodeView>, level: nat) -> bool
    decreases nodes,
{
    &&& nodes.len() <= usize::MAX
    &&& forall|i: int|
        0 <= i < nodes.len() ==> {
            &&& (#[trigger] nodes[i]).kind.level() == level
            &&& level <= DIFF_HUNK_LINE_IDX
            &&& well_formed(nodes[i].children, level + 1)
        }
}

/// A node of a tree that follows the levels lies at most four levels deep,
/// and the tree below it follows the levels.
pub proof fn lemma_node_in_tree(nodes: Seq<NodeView>, level: nat, pos: Seq<usize>)
    requires
        well_formed(nodes, level),
        node_at(nodes, pos).is_some(),
    ensures
        level + pos.len() <= DIFF_HUNK_LINE_IDX + 1,
        well_formed(node_at(nodes, pos).unwrap().children, level + pos.len()),
        node_at(nodes, pos).unwrap().children.len() <= usize::MAX,
        nodes.len() <= usize::MAX,
    decreases pos.len(),
{
    let node = nodes[pos[0] as int];
    assert(node.kind.level() == level);
    reveal_with_fuel(well_formed, 2);
    if pos.len() > 1 {
        lemma_node_in_tree(node.children, level + 1, pos.drop_first());
    }
}

/// The node at a position, if the position leads to one.
pub open spec fn node_at(nodes: Seq<NodeView>, pos: Seq<usize>) -> Option<NodeView>
    decreases pos.len(),
{
    if pos.len() == 0 || pos[0] >= nodes.len() {
        None
    } else if pos.len() == 1 {
        Some(nodes[pos[0] as int])
    } else {
        node_at(nodes[pos[0] as int].children, pos.drop_first())
    }
}

/// The same for the nodes as they are stored, with their cached places.
pub open spec fn stored_at(nodes: Seq<LogTreeNode>, pos: Seq<usize>) -> Option<LogTreeNode>
    decreases pos.len(),
{
    if pos.len() == 0 || pos[0] >= nodes.len() {
        None
    } else if pos.len() == 1 {
        Some(nodes[pos[0] as int])
    } else {
        stored_at(nodes[pos[0] as int].children@, pos.drop_first())
    }
}

/// Whether a position leads to a node that no folded ancestor hides.
pub open spec fn visible(nodes: Seq<NodeView>, pos: Seq<usize>) -> bool
    decreases pos.len(),
{
    if pos.len() == 0 || pos[0] >= nodes.len() {
        false
    } else if pos.len() == 1 {
        true
    } else {
        nodes[pos[0] as int].unfolded && visible(nodes[pos[0] as int].children, pos.drop_first())
    }
}

/// The positions of the visible nodes among `nodes` and below them, in
/// display order, where `prefix` is the position of their parent: each node
/// is followed by what is visible below it, which is nothing where the node
/// is folded.
pub open spec fn flat_positions(nodes: Seq<NodeView>, prefix: Seq<usize>) -> Seq<Seq<usize>>
    decreases nodes,
{
    if nodes.len() == 0 {
        Seq::empty()
    } else {
        let pos = prefix.push((nodes.len() - 1) as usize);
        flat_positions(nodes.drop_last(), prefix) + seq![pos] + (if nodes.last().unfolded {
            flat_positions(nodes.last().children, pos)
        } else {
            Seq::empty()
        })
    }
}

/// The display blocks of the visible nodes among `nodes` and below them, in
/// display order.
pub open spec fn flat_blocks(nodes: Seq<NodeView>) -> Seq<Seq<Seq<SpanView>>>
    decreases nodes,
{
    if nodes.len() == 0 {
        Seq::empty()
    } else {
        flat_blocks(nodes.drop_last()) + seq![nodes.last().text] + (if nodes.last().unfolded {
            flat_blocks(nodes.last().children)
        } else {
            Seq::empty()
        })
    }
}

/// The number of visible nodes among `nodes` and below them.
pub open spec fn visible_count(nodes: Seq<NodeView>) -> nat {
    flat_blocks(nodes).len()
}

/// Whether the visible nodes among `nodes` and below them carry their places
/// in the flattened list, where the first of them has place `at`.
pub open spec fn places_current(nodes: Seq<LogTreeNode>, at: nat) -> bool
    decreases nodes,
{
    forall|i: int|
        0 <= i < nodes.len() ==> {
            let place = at + visible_count(nodes_view(nodes).take(i));
            &&& (#[trigger] nodes[i]).flat_log_idx == place
            &&& nodes[i].unfolded ==> places_current(nodes[i].children@, place + 1)
        }
}

/// There are as many visible positions as visible blocks.
pub proof fn lemma_flat_lengths(nodes: Seq<NodeView>, prefix: Seq<usize>)
    ensures
        flat_positions(nodes, prefix).len() == flat_blocks(nodes).len(),
    decreases nodes,
{
    if nodes.len() > 0 {
        lemma_flat_lengths(nodes.drop_last(), prefix);
        let node = nodes.last();
        if node.unfolded {
            lemma_flat_lengths(node.children, prefix.push((nodes.len() - 1) as usize));
        }
    }
}

/// The views of the children of a stored node are the children of its view.
pub proof fn lemma_children_view(node: LogTreeNode)
    ensures
        node@.children == nodes_view(node.children@),
{
    reveal_with_fuel(node_view, 2);
    assert(node@.children =~= nodes_view(node.children@));
}

/// A copy of a position.
pub fn duplicate_position(pos: &TreePosition) -> (r: TreePosition)
    ensures
        r@ == pos@,
{
    let mut r: Vec<usize> = Vec::new();
    let mut i: usize = 0;
    while i < pos.len()
        invariant
            i <= pos.len(),
            r@ == pos@.take(i as int),
        decreases pos.len() - i,
    {
        r.push(pos[i]);
        assert(pos@.take(i + 1) =~= pos@.take(i as int).push(pos@[i as int]));
        i = i + 1;
    }
    assert(pos@.take(pos.len() as int) =~= pos@);
    r
}

/// Lists the visible nodes among `nodes` and below them behind what
/// `blocks` and `positions` hold, and notes on each its place in the list.
#[verifier::rlimit(60)]
#[verifier::spinoff_prover]
fn flatten_nodes(
    nodes: &mut Vec<LogTreeNode>,
    prefix: &TreePosition,
    level: usize,
    blocks: &mut Vec<Text>,
    positions: &mut Vec<TreePosition>,
)
    requires
        well_formed(nodes_view(old(nodes)@), level as nat),
        old(blocks).len() == old(positions).len(),
    ensures
        nodes_view(final(nodes)@) == nodes_view(old(nodes)@),
        blocks_view(final(blocks)@) == blocks_view(old(blocks)@) + flat_blocks(nodes_view(old(nodes)@)),
        positions_view(final(positions)@) == positions_view(old(positions)@) + flat_positions(
            nodes_view(old(nodes)@),
            prefix@,
        ),
        final(blocks).len() == final(positions).len(),
        places_current(final(nodes)@, old(blocks).len() as nat),
    decreases DIFF_HUNK_LINE_IDX + 1 - level,
{
    let ghost view = nodes_view(nodes@);
    let ghost blocks_before = blocks_view(blocks@);
    let ghost positions_before = positions_view(positions@);
    let ghost at = blocks.len() as nat;
    let n = nodes.len();
    let mut i: usize = 0;
    proof {
        if n > 0 {
            assert(view[0].kind.level() == level);
        }
        assert(view.take(0) =~= Seq::empty());
        assert(blocks_view(blocks@) =~= blocks_before + flat_blocks(view.take(0)));
        assert(positions_view(positions@) =~= positions_before + flat_positions(view.take(0), prefix@));
    }
    while i < n
        invariant
            i <= n,
            n == nodes.len(),
            view.len() == n,
            nodes_view(nodes@) == view,
            well_formed(view, level as nat),
            level <= DIFF_HUNK_LINE_IDX || n == 0,
            blocks.len() == positions.len(),
            blocks_view(blocks@) == blocks_before + flat_blocks(view.take(i as int)),
            positions_view(positions@) == positions_before + flat_positions(view.take(i as int), prefix@),
            blocks_before.len() == at,
            forall|k: int|
                0 <= k < i ==> {
                    let place = at + visible_count(view.take(k));
                    &&& (#[trigger] nodes@[k]).flat_log_idx == place
                    &&& nodes@[k].unfolded ==> places_current(nodes@[k].children@, place + 1)
                },
        decreases n - i,
    {
        let ghost stored = nodes@;
        let ghost node_view = view[i as int];
        let ghost upto = view.take(i + 1);
        proof {
            assert(upto.drop_last() =~= view.take(i as int));
            assert(upto.last() == node_view);
            assert(nodes@[i as int]@ == node_view);
            lemma_children_view(nodes@[i as int]);
            assert(level <= DIFF_HUNK_LINE_IDX);
        }
        let ghost place = blocks.len() as nat;
        assert(blocks_view(blocks@).len() == blocks@.len());
        assert(place == at + visible_count(view.take(i as int)));
        assert(well_formed(nodes_view(nodes@[i as int].children@), (level + 1) as nat));
        let mut pos = duplicate_position(prefix);
        pos.push(i);
        let node = &mut nodes[i];
        node.flat_log_idx = blocks.len();
        let ghost b0 = blocks_view(blocks@);
        let ghost p0 = positions_view(positions@);
        blocks.push(node.text.duplicate());
        positions.push(duplicate_position(&pos));
        proof {
            assert(blocks_view(blocks@) =~= b0.push(node_view.text));
            assert(positions_view(positions@) =~= p0.push(pos@));
        }
        if node.unfolded {
            flatten_nodes(&mut node.children, &pos, level + 1, blocks, positions);
        }
        proof {
            let after = nodes@[i as int];
            lemma_children_view(after);
            assert(after@ == node_view);
            assert(nodes_view(nodes@) =~= view);
            assert(blocks_view(blocks@) =~= blocks_before + flat_blocks(upto));
            assert(positions_view(positions@) =~= positions_before + flat_positions(upto, prefix@));
            assert forall|k: int| 0 <= k < i + 1 implies {
                let place = at + visible_count(view.take(k));
                &&& (#[trigger] nodes@[k]).flat_log_idx == place
                &&& nodes@[k].unfolded ==> places_current(nodes@[k].children@, place + 1)
            } by {
                if k < i {
                    assert(nodes@[k] == stored[k]);
                }
            }
        }
        i = i + 1;
    }
    proof {
        assert(view.take(n as int) =~= view);
        assert forall|k: int| 0 <= k < nodes@.len() implies {
            let place = at + visible_count(nodes_view(nodes@).take(k));
            &&& (#[trigger] nodes@[k]).flat_log_idx == place
            &&& nodes@[k].unfolded ==> places_current(nodes@[k].children@, place + 1)
        } by {}
    }
}

/// The place of a visible position among the visible positions: the number
/// of visible nodes that are shown before it.
pub open spec fn flat_index(nodes: Seq<NodeView>, pos: Seq<usize>) -> nat
    decreases pos.len(),
{
    if pos.len() == 0 || pos[0] >= nodes.len() {
        0
    } else {
        visible_count(nodes.take(pos[0] as int)) + (if pos.len() == 1 {
            0
        } else {
            1 + flat_index(nodes[pos[0] as int].children, pos.drop_first())
        })
    }
}

/// The nodes up to index `k` are listed first when all nodes are listed.
pub proof fn lemma_flat_take(nodes: Seq<NodeView>, prefix: Seq<usize>, k: int)
    requires
        0 <= k <= nodes.len(),
    ensures
        flat_positions(nodes.take(k), prefix).is_prefix_of(flat_positions(nodes, prefix)),
        flat_blocks(nodes.take(k)).is_prefix_of(flat_blocks(nodes)),
    decreases nodes.len(),
{
    if k == nodes.len() {
        assert(nodes.take(k) =~= nodes);
    } else {
        lemma_flat_take(nodes.drop_last(), prefix, k);
        assert(nodes.drop_last().take(k) =~= nodes.take(k));
        let a = flat_positions(nodes.take(k), prefix);
        let b = flat_positions(nodes.drop_last(), prefix);
        let c = flat_positions(nodes, prefix);
        assert(b.is_prefix_of(c));
        assert(a =~= c.subrange(0, a.len() as int)) by {
            assert(a =~= b.subrange(0, a.len() as int));
        }
        let x = flat_blocks(nodes.take(k));
        let y = flat_blocks(nodes.drop_last());
        let z = flat_blocks(nodes);
        assert(y.is_prefix_of(z));
        assert(x =~= z.subrange(0, x.len() as int)) by {
            assert(x =~= y.subrange(0, x.len() as int));
        }
    }
}

/// A visible position stands in the flattened list at its place.
pub proof fn lemma_flat_index(nodes: Seq<NodeView>, prefix: Seq<usize>, pos: Seq<usize>)
    requires
        visible(nodes, pos),
    ensures
        flat_index(nodes, pos) < flat_positions(nodes, prefix).len(),
        flat_positions(nodes, prefix)[flat_index(nodes, pos) as int] == prefix + pos,
    decreases pos.len(),
{
    let k = pos[0] as int;
    let upto = nodes.take(k + 1);
    let before = flat_positions(nodes.take(k), prefix);
    let here = prefix.push(k as usize);
    lemma_flat_take(nodes, prefix, k + 1);
    lemma_flat_lengths(nodes.take(k), prefix);
    assert(upto.drop_last() =~= nodes.take(k));
    assert(upto.last() == nodes[k]);
    let part = flat_positions(upto, prefix);
    let all = flat_positions(nodes, prefix);
    assert(part =~= all.subrange(0, part.len() as int));
    if pos.len() == 1 {
        assert(part[before.len() as int] == here);
        assert(all[before.len() as int] == part[before.len() as int]);
        assert(prefix + pos =~= here);
    } else {
        let rest = pos.drop_first();
        lemma_flat_index(nodes[k].children, here, rest);
        let j = flat_index(nodes[k].children, rest) as int;
        assert(part[before.len() + 1 + j] == flat_positions(nodes[k].children, here)[j]);
        assert(all[before.len() + 1 + j] == part[before.len() + 1 + j]);
        assert(here + rest =~= prefix + pos);
    }
}

/// What stands in the flattened list is the position of a visible node,
/// behind the position of the parent of the listed nodes, and stands there
/// at its place.
pub proof fn lemma_flat_position(nodes: Seq<NodeView>, level: nat, prefix: Seq<usize>, i: int)
    requires
        0 <= i < flat_positions(nodes, prefix).len(),
        well_formed(nodes, level),
    ensures
        flat_positions(nodes, prefix)[i].len() > prefix.len(),
        flat_positions(nodes, prefix)[i].take(prefix.len() as int) == prefix,
        visible(nodes, flat_positions(nodes, prefix)[i].skip(prefix.len() as int)),
        flat_index(nodes, flat_positions(nodes, prefix)[i].skip(prefix.len() as int)) == i,
    decreases nodes,
{
    let front = nodes.drop_last();
    let last = nodes.last();
    let a = flat_positions(front, prefix).len() as int;
    let here = prefix.push((nodes.len() - 1) as usize);
    let q = flat_positions(nodes, prefix)[i];
    lemma_flat_lengths(front, prefix);
    assert(well_formed(front, level)) by {
        assert forall|k: int| 0 <= k < front.len() implies {
            &&& (#[trigger] front[k]).kind.level() == level
            &&& level <= DIFF_HUNK_LINE_IDX
            &&& well_formed(front[k].children, level + 1)
        } by {
            assert(front[k] == nodes[k]);
        }
    }
    assert(nodes[nodes.len() - 1] == last);
    if i < a {
        lemma_flat_position(front, level, prefix, i);
        let p = q.skip(prefix.len() as int);
        lemma_visible_among_more(front, nodes, p);
    } else if i == a {
        assert(q == here);
        assert(q.take(prefix.len() as int) =~= prefix);
        assert(q.skip(prefix.len() as int) =~= seq![(nodes.len() - 1) as usize]);
        assert(nodes.take(nodes.len() - 1) =~= front);
    } else {
        let j = i - a - 1;
        assert(last.unfolded);
        assert(q == flat_positions(last.children, here)[j]);
        lemma_flat_position(last.children, level + 1, here, j);
        let inner = q.skip(here.len() as int);
        let p = q.skip(prefix.len() as int);
        assert(q.take(prefix.len() as int) =~= q.take(here.len() as int).take(prefix.len() as int));
        assert(p[0] == q[prefix.len() as int]);
        assert(q.take(here.len() as int)[prefix.len() as int] == q[prefix.len() as int]);
        assert(p.drop_first() =~= inner);
        assert(nodes.take(nodes.len() - 1) =~= front);
    }
}

/// A position that is visible among the first nodes of a list is as visible
/// among all of them, at the same place.
pub proof fn lemma_visible_among_more(front: Seq<NodeView>, nodes: Seq<NodeView>, pos: Seq<usize>)
    requires
        front.is_prefix_of(nodes),
        visible(front, pos),
    ensures
        visible(nodes, pos),
        flat_index(nodes, pos) == flat_index(front, pos),
        node_at(nodes, pos) == node_at(front, pos),
{
    let k = pos[0] as int;
    assert(front[k] == nodes[k]);
    assert(front.take(k) =~= nodes.take(k));
}

/// A visible position leads to a node.
pub proof fn lemma_visible_is_node(nodes: Seq<NodeView>, pos: Seq<usize>)
    requires
        visible(nodes, pos),
    ensures
        node_at(nodes, pos).is_some(),
    decreases pos.len(),
{
    if pos.len() > 1 {
        lemma_visible_is_node(nodes[pos[0] as int].children, pos.drop_first());
    }
}

/// The stored nodes and their views have nodes at the same positions.
pub proof fn lemma_stored_view(nodes: Seq<LogTreeNode>, pos: Seq<usize>)
    ensures
        node_at(nodes_view(nodes), pos) == match stored_at(nodes, pos) {
            Some(n) => Some(n@),
            None => None,
        },
    decreases pos.len(),
{
    if pos.len() > 1 && pos[0] < nodes.len() {
        lemma_children_view(nodes[pos[0] as int]);
        lemma_stored_view(nodes[pos[0] as int].children@, pos.drop_first());
    }
}

/// A visible node whose place is current carries its place in the flattened
/// list.
pub proof fn lemma_place_of_visible(nodes: Seq<LogTreeNode>, at: nat, pos: Seq<usize>)
    requires
        places_current(nodes, at),
        visible(nodes_view(nodes), pos),
    ensures
        stored_at(nodes, pos).is_some(),
        stored_at(nodes, pos).unwrap().flat_log_idx == at + flat_index(nodes_view(nodes), pos),
    decreases pos.len(),
{
    let k = pos[0] as int;
    if pos.len() > 1 {
        lemma_children_view(nodes[k]);
        lemma_place_of_visible(
            nodes[k].children@,
            at + visible_count(nodes_view(nodes).take(k)) + 1,
            pos.drop_first(),
        );
    }
}

/// The nodes with the fold of the node at `pos` flipped; the nodes
/// themselves where `pos` leads to no node.
pub open spec fn toggled(nodes: Seq<NodeView>, pos: Seq<usize>) -> Seq<NodeView>
    decreases pos.len(),
{
    if pos.len() == 0 || pos[0] >= nodes.len() {
        nodes
    } else {
        let n = nodes[pos[0] as int];
        if pos.len() == 1 {
            nodes.update(pos[0] as int, NodeView { unfolded: !n.unfolded, ..n })
        } else {
            nodes.update(
                pos[0] as int,
                NodeView { children: toggled(n.children, pos.drop_first()), ..n },
            )
        }
    }
}

/// Toggling the fold of a node twice gives the tree back, and with it the
/// flattened list and every place in it.
pub proof fn lemma_toggle_twice(nodes: Seq<NodeView>, pos: Seq<usize>)
    ensures
        toggled(toggled(nodes, pos), pos) == nodes,
        flat_positions(toggled(toggled(nodes, pos), pos), Seq::empty()) == flat_positions(
            nodes,
            Seq::empty(),
        ),
        flat_blocks(toggled(toggled(nodes, pos), pos)) == flat_blocks(nodes),
        flat_index(toggled(toggled(nodes, pos), pos), pos) == flat_index(nodes, pos),
    decreases pos.len(),
{
    if pos.len() > 0 && pos[0] < nodes.len() {
        let n = nodes[pos[0] as int];
        if pos.len() > 1 {
            lemma_toggle_twice(n.children, pos.drop_first());
        }
        assert(toggled(toggled(nodes, pos), pos) =~= nodes);
    }
}

/// Toggling changes neither the positions that lead to nodes nor the levels,
/// and the toggled node is as visible as before, at the same place.
pub proof fn lemma_toggle_keeps(nodes: Seq<NodeView>, pos: Seq<usize>, level: nat)
    ensures
        node_at(toggled(nodes, pos), pos).is_some() == node_at(nodes, pos).is_some(),
        visible(toggled(nodes, pos), pos) == visible(nodes, pos),
        flat_index(toggled(nodes, pos), pos) == flat_index(nodes, pos),
        well_formed(nodes, level) ==> well_formed(toggled(nodes, pos), level),
        toggled(nodes, pos).len() == nodes.len(),
    decreases pos.len(),
{
    if pos.len() > 0 && pos[0] < nodes.len() {
        let k = pos[0] as int;
        let n = nodes[k];
        let t = toggled(nodes, pos);
        assert(t.take(k) =~= nodes.take(k));
        if pos.len() > 1 {
            lemma_toggle_keeps(n.children, pos.drop_first(), level + 1);
        }
        if well_formed(nodes, level) {
            assert forall|i: int| 0 <= i < t.len() implies {
                &&& (#[trigger] t[i]).kind.level() == level
                &&& level <= DIFF_HUNK_LINE_IDX
                &&& well_formed(t[i].children, level + 1)
            } by {
                assert(nodes[i].kind.level() == level);
            }
        }
    }
}

/// Flips the fold of the node at `pos[depth..]` below `nodes`.
fn toggle_nodes(nodes: &mut Vec<LogTreeNode>, pos: &TreePosition, depth: usize)
    requires
        depth <= pos.len(),
    ensures
        nodes_view(final(nodes)@) == toggled(nodes_view(old(nodes)@), pos@.skip(depth as int)),
    decreases pos.len() - depth,
{
    let ghost rest = pos@.skip(depth as int);
    let ghost view = nodes_view(nodes@);
    if depth == pos.len() {
        return ;
    }
    let idx = pos[depth];
    assert(rest[0] == idx);
    if idx >= nodes.len() {
        return ;
    }
    proof {
        lemma_children_view(nodes@[idx as int]);
        assert(rest.drop_first() =~= pos@.skip(depth + 1));
    }
    let node = &mut nodes[idx];
    if depth + 1 == pos.len() {
        node.unfolded = !node.unfolded;
    } else {
        toggle_nodes(&mut node.children, pos, depth + 1);
    }
    proof {
        lemma_children_view(nodes@[idx as int]);
        assert(nodes_view(nodes@) =~= toggled(view, rest));
    }
}

/// Whether the nodes follow the levels from `level` down.
fn check_nodes(nodes: &Vec<LogTreeNode>, level: usize) -> (ok: bool)
    requires
        level <= DIFF_HUNK_LINE_IDX + 1,
    ensures
        ok == well_formed(nodes_view(nodes@), level as nat),
    decreases DIFF_HUNK_LINE_IDX + 1 - level,
{
    if level > DIFF_HUNK_LINE_IDX {
        if nodes.len() > 0 {
            assert(nodes_view(nodes@)[0].kind.level() <= 3);
        }
        return nodes.len() == 0;
    }
    let mut i: usize = 0;
    while i < nodes.len()
        invariant
            i <= nodes.len(),
            level <= DIFF_HUNK_LINE_IDX,
            forall|k: int|
                0 <= k < i ==> {
                    &&& (#[trigger] nodes_view(nodes@)[k]).kind.level() == level
                    &&& well_formed(nodes_view(nodes@)[k].children, (level + 1) as nat)
                },
        decreases nodes.len() - i,
    {
        let node = &nodes[i];
        proof {
            lemma_children_view(nodes@[i as int]);
        }
        let at_level = match node.kind {
            NodeKind::Commit { .. } => level == 0,
            NodeKind::FileDiff { .. } => level == 1,
            NodeKind::DiffHunk => level == 2,
            NodeKind::DiffHunkLine { .. } => level == 3,
        };
        if !at_level || !check_nodes(&node.children, level + 1) {
            assert(!well_formed(nodes_view(nodes@), level as nat)) by {
                let v = nodes_view(nodes@)[i as int];
                assert(!(v.kind.level() == level && well_formed(v.children, (level + 1) as nat)));
            }
            return false;
        }
        i = i + 1;
    }
    true
}

/// The log as it was loaded: the commits, each with its subtree.
#[derive(Debug)]
pub struct JjLog {
    pub log_tree: Vec<LogTreeNode>,
}

impl View for JjLog {
    type V = Seq<NodeView>;

    open spec fn view(&self) -> Seq<NodeView> {
        nodes_view(self.log_tree@)
    }
}

/// The position above a position, or nothing for a commit.
pub open spec fn parent_position(pos: Seq<usize>) -> Option<Seq<usize>> {
    if pos.len() <= 1 {
        None
    } else {
        Some(pos.drop_last())
    }
}

/// The position of the parent of a node; commits have none.
pub fn get_parent_tree_position(tree_pos: &TreePosition) -> (r: Option<TreePosition>)
    ensures
        r.is_some() == parent_position(tree_pos@).is_some(),
        r.is_some() ==> r.unwrap()@ == parent_position(tree_pos@).unwrap(),
{
    if tree_pos.len() <= 1 {
        None
    } else {
        let mut parent = duplicate_position(tree_pos);
        parent.pop();
        Some(parent)
    }
}

impl LogTreeNode {
    /// The children of the node; none for a leaf.
    pub fn children(&self) -> (c: &Vec<LogTreeNode>)
        ensures
            *c == self.children,
    {
        &self.children
    }

    /// The place of the node in the flattened list when it was last listed.
    pub fn flat_log_idx(&self) -> (i: usize)
        ensures
            i == self.flat_log_idx,
    {
        self.flat_log_idx
    }

    /// The line of the file that a diff line shows; nothing for other nodes.
    pub fn line_number(&self) -> (n: Option<u32>)
        ensures
            n == match self@.kind {
                KindView::DiffHunkLine { line_number } => line_number,
                _ => None,
            },
    {
        match &self.kind {
            NodeKind::DiffHunkLine { line_number } => *line_number,
            _ => None,
        }
    }

    /// The change id of a commit; nothing for other nodes.
    pub fn change_id(&self) -> (id: Option<&String>)
        ensures
            match self@.kind {
                KindView::Commit { change_id, .. } => id.is_some() && id.unwrap()@ == change_id,
                _ => id.is_none(),
            },
    {
        match &self.kind {
            NodeKind::Commit { change_id, .. } => Some(change_id),
            _ => None,
        }
    }

    /// The path of a file diff; nothing for other nodes.
    pub fn path(&self) -> (path: Option<&String>)
        ensures
            match self@.kind {
                KindView::FileDiff { path: p } => path.is_some() && path.unwrap()@ == p,
                _ => path.is_none(),
            },
    {
        match &self.kind {
            NodeKind::FileDiff { path } => Some(path),
            _ => None,
        }
    }

    /// Whether the node is the commit of the working copy.
    pub fn is_working_copy(&self) -> (r: bool)
        ensures
            r == (self@.kind matches KindView::Commit { current_working_copy, .. } && current_working_copy),
    {
        match &self.kind {
            NodeKind::Commit { current_working_copy, .. } => *current_working_copy,
            _ => false,
        }
    }
}

/// The index of the first commit of the working copy, or the number of
/// nodes where there is none.
pub open spec fn working_copy_index(nodes: Seq<NodeView>) -> int
    decreases nodes.len(),
{
    if nodes.len() == 0 {
        0
    } else {
        let before = working_copy_index(nodes.drop_last());
        if before < nodes.len() - 1 {
            before
        } else if nodes.last().kind matches KindView::Commit { current_working_copy, .. }
            && current_working_copy {
            nodes.len() - 1
        } else {
            nodes.len() as int
        }
    }
}

/// Whether `after` and the two lists are what flattening makes of `before`:
/// the tree is the same, every visible node carries its place, and the
/// lists are those of the visible nodes.
pub open spec fn flattened_to(
    before: JjLog,
    after: JjLog,
    blocks: Seq<Text>,
    positions: Seq<TreePosition>,
) -> bool {
    &&& after@ == before@
    &&& after.flattened()
    &&& blocks_view(blocks) == flat_blocks(before@)
    &&& positions_view(positions) == flat_positions(before@, Seq::empty())
}

/// Whether `after` and `r` are what toggling the fold at a position makes of
/// `before`. A position without a node is refused and the tree stays. Else
/// the fold of the node is flipped, every visible node carries its place,
/// and `r` is the place of the node, which for a visible node is the place
/// that it had.
pub open spec fn fold_toggled(
    before: JjLog,
    pos: Seq<usize>,
    r: Result<usize, LogTreeError>,
    after: JjLog,
) -> bool {
    &&& r.is_ok() == node_at(before@, pos).is_some()
    &&& r.is_err() ==> r == Err::<usize, LogTreeError>(LogTreeError::InvalidPosition) && after
        == before
    &&& r.is_ok() ==> {
        &&& after@ == toggled(before@, pos)
        &&& after.wf()
        &&& after.flattened()
        &&& r.unwrap() == stored_at(after.log_tree@, pos).unwrap().flat_log_idx
        &&& visible(before@, pos) ==> r.unwrap() == flat_index(before@, pos) && r.unwrap()
            < visible_count(after@)
    }
}

/// Flattening twice, with no fold toggled in between, gives the same lists
/// twice.
pub proof fn lemma_flatten_twice(
    start: JjLog,
    once: JjLog,
    twice: JjLog,
    first: (Seq<Text>, Seq<TreePosition>),
    second: (Seq<Text>, Seq<TreePosition>),
)
    requires
        flattened_to(start, once, first.0, first.1),
        flattened_to(once, twice, second.0, second.1),
    ensures
        blocks_view(second.0) == blocks_view(first.0),
        positions_view(second.1) == positions_view(first.1),
        twice@ == start@,
{
}

/// Toggling the fold of a visible node twice gives back the tree, and with
/// it the flattened list, and the node has the same place before the first
/// toggle, between the two and after the second.
pub proof fn lemma_fold_round_trip(
    start: JjLog,
    once: JjLog,
    twice: JjLog,
    pos: Seq<usize>,
    first: Result<usize, LogTreeError>,
    second: Result<usize, LogTreeError>,
)
    requires
        start.wf(),
        visible(start@, pos),
        fold_toggled(start, pos, first, once),
        fold_toggled(once, pos, second, twice),
    ensures
        first.is_ok() && second.is_ok(),
        twice@ == start@,
        flat_blocks(twice@) == flat_blocks(start@),
        flat_positions(twice@, Seq::empty()) == flat_positions(start@, Seq::empty()),
        first.unwrap() == second.unwrap(),
        flat_positions(start@, Seq::empty())[first.unwrap() as int] == pos,
        flat_positions(once@, Seq::empty())[first.unwrap() as int] == pos,
{
    lemma_visible_is_node(start@, pos);
    lemma_toggle_keeps(start@, pos, 0);
    lemma_toggle_twice(start@, pos);
    lemma_flat_index(start@, Seq::empty(), pos);
    lemma_flat_index(once@, Seq::empty(), pos);
    assert(Seq::<usize>::empty() + pos =~= pos);
}

/// The index of the working copy lies within the list or just behind it.
pub proof fn lemma_working_copy_index(nodes: Seq<NodeView>)
    ensures
        0 <= working_copy_index(nodes) <= nodes.len(),
    decreases nodes.len(),
{
    if nodes.len() > 0 {
        lemma_working_copy_index(nodes.drop_last());
    }
}

impl JjLog {
    /// Whether the tree follows the four levels.
    pub open spec fn wf(&self) -> bool {
        well_formed(self@, 0)
    }

    /// Whether every visible node carries its place in the flattened list.
    pub open spec fn flattened(&self) -> bool {
        places_current(self.log_tree@, 0)
    }

    /// The log without any commit.
    pub fn new() -> (log: Self)
        ensures
            log@ == Seq::<NodeView>::empty(),
            log.wf(),
            log.flattened(),
    {
        let log = JjLog { log_tree: Vec::new() };
        assert(log@ =~= Seq::<NodeView>::empty());
        log
    }

    /// Takes the commits that the engine gave as the new tree. Commits that
    /// do not follow the four levels are refused and the tree stays.
    pub fn load_log_tree(&mut self, commits: Vec<LogTreeNode>) -> (r: Result<(), LogTreeError>)
        ensures
            r.is_ok() == well_formed(nodes_view(commits@), 0),
            r.is_ok() ==> final(self).log_tree == commits,
            r.is_err() ==> r == Err::<(), LogTreeError>(LogTreeError::Malformed) && *final(self) == *old(self),
    {
        if check_nodes(&commits, 0) {
            self.log_tree = commits;
            Ok(())
        } else {
            Err(LogTreeError::Malformed)
        }
    }

    /// Lists the visible nodes in display order, as display blocks and as
    /// positions, and notes on every visible node its place in the list. The
    /// tree itself stays as it is, so listing again gives the same lists.
    pub fn flatten_log(&mut self) -> (r: (Vec<Text>, Vec<TreePosition>))
        requires
            old(self).wf(),
        ensures
            flattened_to(*old(self), *final(self), r.0@, r.1@),
            r.0.len() == r.1.len(),
    {
        let mut blocks: Vec<Text> = Vec::new();
        let mut positions: Vec<TreePosition> = Vec::new();
        let prefix: TreePosition = Vec::new();
        assert(prefix@ =~= Seq::<usize>::empty());
        assert(blocks_view(blocks@) =~= Seq::empty());
        assert(positions_view(positions@) =~= Seq::empty());
        flatten_nodes(&mut self.log_tree, &prefix, 0, &mut blocks, &mut positions);
        assert(blocks_view(blocks@) =~= flat_blocks(old(self)@));
        assert(positions_view(positions@) =~= flat_positions(old(self)@, Seq::empty()));
        (blocks, positions)
    }

    /// The node at a position.
    pub fn get_tree_node(&self, tree_pos: &TreePosition) -> (r: Result<&LogTreeNode, LogTreeError>)
        ensures
            r.is_ok() == stored_at(self.log_tree@, tree_pos@).is_some(),
            r.is_ok() == node_at(self@, tree_pos@).is_some(),
            r.is_ok() ==> *r.unwrap() == stored_at(self.log_tree@, tree_pos@).unwrap()
                && r.unwrap()@ == node_at(self@, tree_pos@).unwrap(),
            r.is_err() ==> r == Err::<&LogTreeNode, LogTreeError>(LogTreeError::InvalidPosition),
    {
        proof {
            lemma_stored_view(self.log_tree@, tree_pos@);
        }
        if tree_pos.len() == 0 {
            return Err(LogTreeError::InvalidPosition);
        }
        let mut nodes = &self.log_tree;
        let mut i: usize = 0;
        assert(tree_pos@.skip(0) =~= tree_pos@);
        loop
            invariant
                i < tree_pos.len(),
                stored_at(self.log_tree@, tree_pos@) == stored_at(nodes@, tree_pos@.skip(i as int)),
                node_at(self@, tree_pos@) == match stored_at(self.log_tree@, tree_pos@) {
                    Some(n) => Some(n@),
                    None => None,
                },
            decreases tree_pos.len() - i,
        {
            let ghost rest = tree_pos@.skip(i as int);
            assert(rest[0] == tree_pos@[i as int]);
            assert(rest.drop_first() =~= tree_pos@.skip(i + 1));
            let idx = tree_pos[i];
            if idx >= nodes.len() {
                return Err(LogTreeError::InvalidPosition);
            }
            let node = &nodes[idx];
            if i + 1 == tree_pos.len() {
                return Ok(node);
            }
            nodes = &node.children;
            i = i + 1;
        }
    }

    /// The commit that a position lies in.
    pub fn get_tree_commit(&self, tree_pos: &TreePosition) -> (r: Option<&LogTreeNode>)
        ensures
            r.is_some() == (tree_pos@.len() > 0 && tree_pos@[0] < self.log_tree@.len()),
            r.is_some() ==> *r.unwrap() == self.log_tree@[tree_pos@[0] as int],
    {
        if tree_pos.len() > 0 && tree_pos[0] < self.log_tree.len() {
            Some(&self.log_tree[tree_pos[0]])
        } else {
            None
        }
    }

    /// The file diff that a position lies in; nothing for the position of a
    /// commit.
    pub fn get_tree_file_diff(&self, tree_pos: &TreePosition) -> (r: Option<&LogTreeNode>)
        ensures
            r.is_some() == (tree_pos@.len() > 1 && stored_at(self.log_tree@, tree_pos@.take(2)).is_some()),
            r.is_some() ==> *r.unwrap() == stored_at(self.log_tree@, tree_pos@.take(2)).unwrap(),
    {
        if tree_pos.len() < 2 {
            return None;
        }
        let ghost two = tree_pos@.take(2);
        proof {
            reveal_with_fuel(stored_at, 3);
        }
        assert(two.drop_first() =~= seq![tree_pos@[1]]);
        assert(two[0] == tree_pos@[0]);
        if tree_pos[0] >= self.log_tree.len() {
            return None;
        }
        let commit = &self.log_tree[tree_pos[0]];
        if tree_pos[1] >= commit.children.len() {
            return None;
        }
        Some(&commit.children[tree_pos[1]])
    }

    /// The first commit that is the working copy.
    pub fn get_current_commit(&self) -> (r: Option<&LogTreeNode>)
        ensures
            r.is_some() == (working_copy_index(self@) < self@.len()),
            r.is_some() ==> *r.unwrap() == self.log_tree@[working_copy_index(self@)],
    {
        let ghost view = self@;
        let mut i: usize = 0;
        assert(view.take(0) =~= Seq::empty());
        while i < self.log_tree.len()
            invariant
                i <= self.log_tree.len(),
                view == self@,
                working_copy_index(view.take(i as int)) == i,
            decreases self.log_tree.len() - i,
        {
            proof {
                let upto = view.take(i + 1);
                assert(upto.drop_last() =~= view.take(i as int));
                assert(upto.last() == self.log_tree@[i as int]@);
                lemma_working_copy_found(view, i as int);
            }
            if self.log_tree[i].is_working_copy() {
                return Some(&self.log_tree[i]);
            }
            i = i + 1;
        }
        assert(view.take(self.log_tree.len() as int) =~= view);
        None
    }

    /// Flips the fold of the node at a position and lists the tree anew.
    /// Returns the place that the node has in the new list, so that a cursor
    /// on the node can stay on it. Toggling does not move the node: the
    /// nodes before it are as visible as they were.
    pub fn toggle_fold(&mut self, tree_pos: &TreePosition) -> (r: Result<usize, LogTreeError>)
        requires
            old(self).wf(),
        ensures
            fold_toggled(*old(self), tree_pos@, r, *final(self)),
    {
        if self.get_tree_node(tree_pos).is_err() {
            return Err(LogTreeError::InvalidPosition);
        }
        let ghost before = self@;
        assert(tree_pos@.skip(0) =~= tree_pos@);
        toggle_nodes(&mut self.log_tree, tree_pos, 0);
        proof {
            lemma_toggle_keeps(before, tree_pos@, 0);
        }
        let _ = self.flatten_log();
        proof {
            if visible(before, tree_pos@) {
                lemma_place_of_visible(self.log_tree@, 0, tree_pos@);
                lemma_flat_index(self@, Seq::empty(), tree_pos@);
                lemma_flat_lengths(self@, Seq::empty());
            }
        }
        match self.get_tree_node(tree_pos) {
            Ok(node) => Ok(node.flat_log_idx),
            Err(_) => Err(LogTreeError::InvalidPosition),
        }
    }
}

/// The first working copy among the first nodes is the first among all.
proof fn lemma_working_copy_found(nodes: Seq<NodeView>, i: int)
    requires
        0 <= i < nodes.len(),
        working_copy_index(nodes.take(i)) == i,
    ensures
        nodes[i].kind matches KindView::Commit { current_working_copy, .. } && current_working_copy
            ==> working_copy_index(nodes) == i,
        !(nodes[i].kind matches KindView::Commit { current_working_copy, .. } && current_working_copy)
            ==> working_copy_index(nodes.take(i + 1)) == i + 1,
    decreases nodes.len(),
{
    let upto = nodes.take(i + 1);
    assert(upto.drop_last() =~= nodes.take(i));
    assert(upto.last() == nodes[i]);
    if nodes[i].kind matches KindView::Commit { current_working_copy, .. } && current_working_copy {
        assert(working_copy_index(upto) == i);
        if i + 1 < nodes.len() {
            let front = nodes.drop_last();
            assert(front.take(i) =~= nodes.take(i));
            lemma_working_copy_found(front, i);
        } else {
            assert(upto =~= nodes);
        }
    }
}

/// The position whose siblings are meant where those of `pos` are asked
/// for: a line counts as its hunk, every other position stands for itself.
pub open spec fn hunk_of(pos: Seq<usize>) -> Seq<usize> {
    if pos.len() == DIFF_HUNK_LINE_IDX + 1 {
        pos.drop_last()
    } else {
        pos
    }
}

/// The next child of the parent of a position, or, where the position is
/// the last child, what follows the parent in the same way. Nothing follows
/// where the position and every position above it are last children.
pub open spec fn following(nodes: Seq<NodeView>, pos: Seq<usize>) -> Option<Seq<usize>>
    decreases pos.len(),
{
    if pos.len() == 0 {
        None
    } else if pos.len() == 1 {
        if pos[0] + 1 < nodes.len() {
            Some(seq![(pos[0] + 1) as usize])
        } else {
            None
        }
    } else {
        let parent = pos.drop_last();
        if node_at(nodes, parent).is_some() && pos.last() + 1 < node_at(
            nodes,
            parent,
        ).unwrap().children.len() {
            Some(parent.push((pos.last() + 1) as usize))
        } else {
            following(nodes, parent)
        }
    }
}

/// The position that "next sibling" leads to. A line counts as its hunk.
/// Where nothing follows, the position stays what it is.
pub open spec fn next_sibling_position(nodes: Seq<NodeView>, pos: Seq<usize>) -> Seq<usize> {
    match following(nodes, hunk_of(pos)) {
        Some(next) => next,
        None => pos,
    }
}

/// The child before a position under the same parent, or, where the
/// position is a first child, what precedes the parent in the same way.
/// Among the commits the first one is the end.
pub open spec fn preceding(pos: Seq<usize>) -> Seq<usize>
    decreases pos.len(),
{
    if pos.len() == 0 {
        pos
    } else if pos.last() > 0 {
        pos.drop_last().push((pos.last() - 1) as usize)
    } else if pos.len() == 1 {
        pos
    } else {
        preceding(pos.drop_last())
    }
}

/// The position that "previous sibling" leads to. A line counts as its hunk.
pub open spec fn prev_sibling_position(pos: Seq<usize>) -> Seq<usize> {
    preceding(hunk_of(pos))
}

/// The position of the last visible node among `nodes` and below them,
/// where `prefix` is the position of their parent.
pub open spec fn last_shown(nodes: Seq<NodeView>, prefix: Seq<usize>) -> Seq<usize>
    decreases nodes,
{
    if nodes.len() == 0 {
        prefix
    } else {
        let pos = prefix.push((nodes.len() - 1) as usize);
        if nodes.last().unfolded && nodes.last().children.len() > 0 {
            last_shown(nodes.last().children, pos)
        } else {
            pos
        }
    }
}

/// The position after `k` steps of "next sibling".
pub open spec fn next_sibling_steps(nodes: Seq<NodeView>, pos: Seq<usize>, k: nat) -> Seq<usize>
    decreases k,
{
    if k == 0 {
        pos
    } else {
        next_sibling_steps(nodes, next_sibling_position(nodes, pos), (k - 1) as nat)
    }
}

/// The position after `k` steps of "previous sibling".
pub open spec fn prev_sibling_steps(pos: Seq<usize>, k: nat) -> Seq<usize>
    decreases k,
{
    if k == 0 {
        pos
    } else {
        prev_sibling_steps(prev_sibling_position(pos), (k - 1) as nat)
    }
}

/// Above a node there is a node, and the node is among its children; the
/// parent of a visible node is visible and unfolded.
pub proof fn lemma_parent_of_node(nodes: Seq<NodeView>, pos: Seq<usize>)
    requires
        node_at(nodes, pos).is_some(),
        pos.len() > 1,
    ensures
        node_at(nodes, pos.drop_last()).is_some(),
        pos.last() < node_at(nodes, pos.drop_last()).unwrap().children.len(),
        node_at(nodes, pos) == Some(
            node_at(nodes, pos.drop_last()).unwrap().children[pos.last() as int],
        ),
        visible(nodes, pos) ==> visible(nodes, pos.drop_last()) && node_at(
            nodes,
            pos.drop_last(),
        ).unwrap().unfolded,
    decreases pos.len(),
{
    let parent = pos.drop_last();
    assert(parent[0] == pos[0]);
    if pos.len() == 2 {
        assert(pos.drop_first() =~= seq![pos.last()]);
        assert(parent =~= seq![pos[0]]);
        reveal_with_fuel(node_at, 3);
        reveal_with_fuel(visible, 3);
    } else {
        lemma_parent_of_node(nodes[pos[0] as int].children, pos.drop_first());
        assert(parent.drop_first() =~= pos.drop_first().drop_last());
    }
}

/// A child of a node is a node, as visible as an unfolded parent.
pub proof fn lemma_child_of_node(nodes: Seq<NodeView>, parent: Seq<usize>, i: usize)
    requires
        node_at(nodes, parent).is_some(),
        i < node_at(nodes, parent).unwrap().children.len(),
    ensures
        node_at(nodes, parent.push(i)) == Some(node_at(nodes, parent).unwrap().children[i as int]),
        visible(nodes, parent.push(i)) == (visible(nodes, parent) && node_at(
            nodes,
            parent,
        ).unwrap().unfolded),
    decreases parent.len(),
{
    let pos = parent.push(i);
    assert(pos[0] == parent[0]);
    if parent.len() == 1 {
        assert(pos.drop_first() =~= seq![i]);
        reveal_with_fuel(node_at, 3);
        reveal_with_fuel(visible, 3);
    } else {
        lemma_child_of_node(nodes[parent[0] as int].children, parent.drop_first(), i);
        assert(pos.drop_first() =~= parent.drop_first().push(i));
    }
}

/// How many siblings follow the ancestor at `level` of a position, which is
/// the position itself at its own level; 0 below the position.
pub open spec fn siblings_after(nodes: Seq<NodeView>, pos: Seq<usize>, level: int) -> int {
    if level < 0 || level >= pos.len() {
        0
    } else if level == 0 {
        nodes.len() - 1 - pos[0]
    } else {
        node_at(nodes, pos.take(level)).unwrap().children.len() - 1 - pos[level]
    }
}

/// Whether the siblings that follow `a` and its ancestors are fewer than
/// those of `b`, the upper levels first.
pub open spec fn nearer_end(nodes: Seq<NodeView>, a: Seq<usize>, b: Seq<usize>) -> bool {
    let a0 = siblings_after(nodes, a, 0);
    let a1 = siblings_after(nodes, a, 1);
    let a2 = siblings_after(nodes, a, 2);
    let b0 = siblings_after(nodes, b, 0);
    let b1 = siblings_after(nodes, b, 1);
    let b2 = siblings_after(nodes, b, 2);
    a0 < b0 || (a0 == b0 && (a1 < b1 || (a1 == b1 && a2 < b2)))
}

/// The ancestors of a node are nodes, and no level counts a negative number
/// of following siblings.
pub proof fn lemma_siblings_after(nodes: Seq<NodeView>, pos: Seq<usize>, level: int)
    requires
        node_at(nodes, pos).is_some(),
        0 <= level < pos.len(),
    ensures
        node_at(nodes, pos.take(level + 1)).is_some(),
        siblings_after(nodes, pos, level) >= 0,
    decreases pos.len(),
{
    if level + 1 == pos.len() {
        assert(pos.take(level + 1) =~= pos);
        if level > 0 {
            lemma_parent_of_node(nodes, pos);
            assert(pos.take(level) =~= pos.drop_last());
        }
    } else {
        lemma_parent_of_node(nodes, pos);
        lemma_siblings_after(nodes, pos.drop_last(), level);
        assert(pos.drop_last().take(level + 1) =~= pos.take(level + 1));
        assert(pos.drop_last().take(level) =~= pos.take(level));
    }
}

/// What follows a node that is no line is a node that is as visible and has
/// fewer siblings left to go. Something follows every node that is not
/// below the last commit.
pub proof fn lemma_following(nodes: Seq<NodeView>, pos: Seq<usize>)
    requires
        well_formed(nodes, 0),
        node_at(nodes, pos).is_some(),
        pos.len() <= DIFF_HUNK_LINE_IDX,
    ensures
        pos[0] + 1 < nodes.len() ==> following(nodes, pos).is_some(),
        following(nodes, pos).is_some() ==> {
            let next = following(nodes, pos).unwrap();
            &&& node_at(nodes, next).is_some()
            &&& 0 < next.len() <= pos.len()
            &&& visible(nodes, pos) ==> visible(nodes, next)
            &&& nearer_end(nodes, next, pos)
        },
    decreases pos.len(),
{
    if pos.len() == 1 {
        if pos[0] + 1 < nodes.len() {
            let next = following(nodes, pos).unwrap();
            assert(next[0] == pos[0] + 1);
            assert(siblings_after(nodes, next, 0) < siblings_after(nodes, pos, 0));
        }
    } else {
        let parent = pos.drop_last();
        let level = pos.len() - 1;
        lemma_parent_of_node(nodes, pos);
        lemma_node_in_tree(nodes, 0, parent);
        let n = node_at(nodes, parent).unwrap();
        assert(pos.take(level) =~= parent);
        assert(parent[0] == pos[0]);
        if pos.last() + 1 < n.children.len() {
            let q = following(nodes, pos).unwrap();
            let next = (pos.last() + 1) as usize;
            lemma_child_of_node(nodes, parent, next);
            assert(q.take(level) =~= parent);
            assert forall|l: int| 0 <= l < level implies siblings_after(nodes, q, l)
                == siblings_after(nodes, pos, l) by {
                assert(q.take(l) =~= pos.take(l));
                assert(q[l] == pos[l]);
            }
            assert(q[level] == pos[level] + 1);
            assert(siblings_after(nodes, q, level) < siblings_after(nodes, pos, level));
        } else {
            lemma_following(nodes, parent);
            assert forall|l: int| 0 <= l < 3 implies siblings_after(nodes, parent, l)
                == siblings_after(nodes, pos, l) by {
                if l < level {
                    assert(parent.take(l) =~= pos.take(l));
                    assert(parent[l] == pos[l]);
                } else if l == level {
                    assert(siblings_after(nodes, pos, l) == 0);
                }
            }
        }
    }
}

/// The hunk of a line is a node, as visible as the line, with as many
/// siblings left to go at every level above the lines.
pub proof fn lemma_hunk_of(nodes: Seq<NodeView>, pos: Seq<usize>)
    requires
        well_formed(nodes, 0),
        node_at(nodes, pos).is_some(),
    ensures
        node_at(nodes, hunk_of(pos)).is_some(),
        0 < hunk_of(pos).len() <= DIFF_HUNK_LINE_IDX,
        hunk_of(pos)[0] == pos[0],
        visible(nodes, pos) ==> visible(nodes, hunk_of(pos)),
        forall|l: int|
            0 <= l < 3 ==> siblings_after(nodes, hunk_of(pos), l) == #[trigger] siblings_after(
                nodes,
                pos,
                l,
            ),
{
    lemma_node_in_tree(nodes, 0, pos);
    if pos.len() == DIFF_HUNK_LINE_IDX + 1 {
        let hunk = pos.drop_last();
        lemma_parent_of_node(nodes, pos);
        assert forall|l: int| 0 <= l < 3 implies siblings_after(nodes, hunk, l) == siblings_after(
            nodes,
            pos,
            l,
        ) by {
            assert(hunk.take(l) =~= pos.take(l));
            assert(hunk[l] == pos[l]);
        }
    }
}

/// One step of "next sibling" from a node leads to a node that is as
/// visible.
pub proof fn lemma_next_sibling(nodes: Seq<NodeView>, pos: Seq<usize>)
    requires
        well_formed(nodes, 0),
        node_at(nodes, pos).is_some(),
    ensures
        node_at(nodes, next_sibling_position(nodes, pos)).is_some(),
        visible(nodes, pos) ==> visible(nodes, next_sibling_position(nodes, pos)),
{
    lemma_hunk_of(nodes, pos);
    lemma_following(nodes, hunk_of(pos));
}

/// Repeating "next sibling" from any node comes to a node from which the
/// step leads nowhere else, and which is as visible as the first.
pub proof fn lemma_next_sibling_settles(nodes: Seq<NodeView>, pos: Seq<usize>) -> (k: nat)
    requires
        well_formed(nodes, 0),
        node_at(nodes, pos).is_some(),
    ensures
        node_at(nodes, next_sibling_steps(nodes, pos, k)).is_some(),
        visible(nodes, pos) ==> visible(nodes, next_sibling_steps(nodes, pos, k)),
        next_sibling_position(nodes, next_sibling_steps(nodes, pos, k)) == next_sibling_steps(
            nodes,
            pos,
            k,
        ),
    decreases
            siblings_after(nodes, pos, 0),
            siblings_after(nodes, pos, 1),
            siblings_after(nodes, pos, 2),
{
    lemma_hunk_of(nodes, pos);
    lemma_following(nodes, hunk_of(pos));
    if following(nodes, hunk_of(pos)).is_none() {
        0
    } else {
        let q = next_sibling_position(nodes, pos);
        lemma_siblings_after(nodes, q, 0);
        if q.len() > 1 {
            lemma_siblings_after(nodes, q, 1);
        }
        if q.len() > 2 {
            lemma_siblings_after(nodes, q, 2);
        }
        assert(siblings_after(nodes, hunk_of(pos), 0) == siblings_after(nodes, pos, 0));
        assert(siblings_after(nodes, hunk_of(pos), 1) == siblings_after(nodes, pos, 1));
        assert(siblings_after(nodes, hunk_of(pos), 2) == siblings_after(nodes, pos, 2));
        let k = lemma_next_sibling_settles(nodes, q);
        (k + 1) as nat
    }
}

/// The last node of the flattened list is the last visible node.
pub proof fn lemma_flat_last(nodes: Seq<NodeView>, prefix: Seq<usize>)
    requires
        nodes.len() > 0,
    ensures
        flat_positions(nodes, prefix).len() > 0,
        flat_positions(nodes, prefix).last() == last_shown(nodes, prefix),
    decreases nodes,
{
    let pos = prefix.push((nodes.len() - 1) as usize);
    let front = flat_positions(nodes.drop_last(), prefix) + seq![pos];
    assert(front.last() == pos);
    if nodes.last().unfolded && nodes.last().children.len() > 0 {
        lemma_flat_last(nodes.last().children, pos);
        let below = flat_positions(nodes.last().children, pos);
        assert((front + below).last() == below.last());
    } else {
        let below = if nodes.last().unfolded {
            flat_positions(nodes.last().children, pos)
        } else {
            Seq::empty()
        };
        assert(below =~= Seq::empty());
        assert(front + below =~= front);
    }
}

/// Nothing follows the last visible node below a node but what follows
/// that node, and the same holds of the position above the last visible
/// node.
pub proof fn lemma_last_shown(root: Seq<NodeView>, nodes: Seq<NodeView>, prefix: Seq<usize>, level: nat)
    requires
        nodes.len() > 0,
        well_formed(nodes, level),
        prefix.len() == 0 ==> nodes == root,
        prefix.len() > 0 ==> node_at(root, prefix).is_some() && node_at(
            root,
            prefix,
        ).unwrap().children == nodes,
    ensures
        last_shown(nodes, prefix).len() > prefix.len(),
        node_at(root, last_shown(nodes, prefix)).is_some(),
        following(root, last_shown(nodes, prefix)) == following(root, prefix),
        following(root, last_shown(nodes, prefix).drop_last()) == following(root, prefix),
    decreases nodes,
{
    let last = (nodes.len() - 1) as usize;
    let pos = prefix.push(last);
    assert(pos.drop_last() =~= prefix);
    assert(pos.last() == last);
    if prefix.len() == 0 {
        assert(pos =~= seq![last]);
        assert(node_at(root, pos) == Some(nodes.last()));
    } else {
        lemma_child_of_node(root, prefix, last);
    }
    assert(following(root, pos) == following(root, prefix));
    if nodes.last().unfolded && nodes.last().children.len() > 0 {
        reveal_with_fuel(well_formed, 2);
        lemma_last_shown(root, nodes.last().children, pos, level + 1);
    }
}

/// "Next sibling" on the last node of the flattened list leads nowhere
/// else.
pub proof fn lemma_next_sibling_stays_at_end(nodes: Seq<NodeView>)
    requires
        well_formed(nodes, 0),
        nodes.len() > 0,
    ensures
        flat_positions(nodes, Seq::empty()).len() > 0,
        next_sibling_position(nodes, flat_positions(nodes, Seq::empty()).last()) == flat_positions(
            nodes,
            Seq::empty(),
        ).last(),
{
    lemma_flat_last(nodes, Seq::empty());
    lemma_last_shown(nodes, nodes, Seq::empty(), 0);
}

/// Where the last commit shows no children, repeating "next sibling" from
/// any visible node reaches the last commit.
pub proof fn lemma_next_sibling_reaches_last(nodes: Seq<NodeView>, pos: Seq<usize>) -> (k: nat)
    requires
        well_formed(nodes, 0),
        visible(nodes, pos),
        !nodes.last().unfolded || nodes.last().children.len() == 0,
    ensures
        next_sibling_steps(nodes, pos, k) == seq![(nodes.len() - 1) as usize],
    decreases
            siblings_after(nodes, pos, 0),
            siblings_after(nodes, pos, 1),
            siblings_after(nodes, pos, 2),
{
    let last = seq![(nodes.len() - 1) as usize];
    lemma_visible_is_node(nodes, pos);
    if pos == last {
        0
    } else {
        assert(pos[0] + 1 < nodes.len()) by {
            reveal_with_fuel(visible, 2);
            if pos.len() == 1 {
                assert(pos =~= seq![pos[0]]);
            }
        }
        lemma_hunk_of(nodes, pos);
        lemma_following(nodes, hunk_of(pos));
        let q = next_sibling_position(nodes, pos);
        lemma_siblings_after(nodes, q, 0);
        if q.len() > 1 {
            lemma_siblings_after(nodes, q, 1);
        }
        if q.len() > 2 {
            lemma_siblings_after(nodes, q, 2);
        }
        assert(siblings_after(nodes, hunk_of(pos), 0) == siblings_after(nodes, pos, 0));
        assert(siblings_after(nodes, hunk_of(pos), 1) == siblings_after(nodes, pos, 1));
        assert(siblings_after(nodes, hunk_of(pos), 2) == siblings_after(nodes, pos, 2));
        let k = lemma_next_sibling_reaches_last(nodes, q);
        (k + 1) as nat
    }
}

/// Where the last commit shows no children, repeating "next sibling" from
/// any visible node reaches the last node of the flattened list and stays
/// there.
pub proof fn lemma_next_sibling_reaches_end_of_list(nodes: Seq<NodeView>, pos: Seq<usize>) -> (k: nat)
    requires
        well_formed(nodes, 0),
        visible(nodes, pos),
        !nodes.last().unfolded || nodes.last().children.len() == 0,
    ensures
        flat_positions(nodes, Seq::empty()).len() > 0,
        next_sibling_steps(nodes, pos, k) == flat_positions(nodes, Seq::empty()).last(),
        next_sibling_position(nodes, flat_positions(nodes, Seq::empty()).last()) == flat_positions(
            nodes,
            Seq::empty(),
        ).last(),
{
    let k = lemma_next_sibling_reaches_last(nodes, pos);
    lemma_visible_is_node(nodes, pos);
    lemma_flat_last(nodes, Seq::empty());
    lemma_next_sibling_stays_at_end(nodes);
    assert(Seq::<usize>::empty().push((nodes.len() - 1) as usize) =~= seq![
        (nodes.len() - 1) as usize,
    ]);
    k
}

/// The sum of the indices of a position and of its length.
pub open spec fn position_weight(pos: Seq<usize>) -> nat
    decreases pos.len(),
{
    if pos.len() == 0 {
        0
    } else {
        position_weight(pos.drop_last()) + pos.last() as nat + 1
    }
}

/// What precedes a node is a node that is as visible, and it weighs less
/// unless the node is the first commit.
pub proof fn lemma_preceding(nodes: Seq<NodeView>, pos: Seq<usize>)
    requires
        node_at(nodes, pos).is_some(),
    ensures
        node_at(nodes, preceding(pos)).is_some(),
        visible(nodes, pos) ==> visible(nodes, preceding(pos)),
        position_weight(preceding(pos)) < position_weight(pos) || pos == seq![0usize],
    decreases pos.len(),
{
    let q = preceding(pos);
    if pos.last() > 0 {
        assert(q.drop_last() =~= pos.drop_last());
        assert(q.last() == pos.last() - 1);
        if pos.len() == 1 {
            assert(q[0] < nodes.len());
        } else {
            lemma_parent_of_node(nodes, pos);
            lemma_child_of_node(nodes, pos.drop_last(), (pos.last() - 1) as usize);
        }
    } else if pos.len() == 1 {
        assert(pos =~= seq![0usize]);
    } else {
        lemma_parent_of_node(nodes, pos);
        lemma_preceding(nodes, pos.drop_last());
        if pos.drop_last() == seq![0usize] {
            assert(preceding(seq![0usize]) == seq![0usize]);
        }
    }
}

/// One step of "previous sibling" from a node leads to a node that is as
/// visible, and that weighs less unless the node is the first commit.
pub proof fn lemma_prev_sibling(nodes: Seq<NodeView>, pos: Seq<usize>)
    requires
        node_at(nodes, pos).is_some(),
    ensures
        node_at(nodes, prev_sibling_position(pos)).is_some(),
        visible(nodes, pos) ==> visible(nodes, prev_sibling_position(pos)),
        position_weight(prev_sibling_position(pos)) < position_weight(pos) || pos == seq![0usize],
{
    if pos.len() == DIFF_HUNK_LINE_IDX + 1 {
        lemma_parent_of_node(nodes, pos);
        lemma_preceding(nodes, pos.drop_last());
        if pos.drop_last() == seq![0usize] {
            assert(preceding(seq![0usize]) == seq![0usize]);
        }
    } else {
        lemma_preceding(nodes, pos);
    }
}

/// Repeating "previous sibling" from any node reaches the first commit,
/// which is the first node of the flattened list, and stays there.
pub proof fn lemma_prev_sibling_reaches_first(nodes: Seq<NodeView>, pos: Seq<usize>) -> (k: nat)
    requires
        node_at(nodes, pos).is_some(),
    ensures
        prev_sibling_steps(pos, k) == seq![0usize],
        prev_sibling_position(seq![0usize]) == seq![0usize],
        flat_index(nodes, seq![0usize]) == 0,
        visible(nodes, seq![0usize]),
    decreases position_weight(pos),
{
    assert(nodes.take(0) =~= Seq::empty());
    if pos == seq![0usize] {
        0
    } else {
        lemma_prev_sibling(nodes, pos);
        let k = lemma_prev_sibling_reaches_first(nodes, prev_sibling_position(pos));
        (k + 1) as nat
    }
}

/// Repeating "previous sibling" from any node reaches the first node of the
/// flattened list and stays there.
pub proof fn lemma_prev_sibling_reaches_start_of_list(nodes: Seq<NodeView>, pos: Seq<usize>) -> (k:
    nat)
    requires
        node_at(nodes, pos).is_some(),
    ensures
        flat_positions(nodes, Seq::empty()).len() > 0,
        prev_sibling_steps(pos, k) == flat_positions(nodes, Seq::empty())[0],
        prev_sibling_position(flat_positions(nodes, Seq::empty())[0]) == flat_positions(
            nodes,
            Seq::empty(),
        )[0],
{
    let k = lemma_prev_sibling_reaches_first(nodes, pos);
    lemma_flat_index(nodes, Seq::empty(), seq![0usize]);
    assert(Seq::<usize>::empty() + seq![0usize] =~= seq![0usize]);
    k
}

impl JjLog {
    /// The position that "next sibling" leads to from a node.
    pub fn next_sibling(&self, tree_pos: &TreePosition) -> (r: Result<TreePosition, LogTreeError>)
        ensures
            r.is_ok() == node_at(self@, tree_pos@).is_some(),
            r.is_ok() ==> r.unwrap()@ == next_sibling_position(self@, tree_pos@),
            r.is_err() ==> r == Err::<TreePosition, LogTreeError>(LogTreeError::InvalidPosition),
    {
        if self.get_tree_node(tree_pos).is_err() {
            return Err(LogTreeError::InvalidPosition);
        }
        let mut pos = duplicate_position(tree_pos);
        if pos.len() == DIFF_HUNK_LINE_IDX + 1 {
            proof {
                lemma_parent_of_node(self@, tree_pos@);
            }
            pos.pop();
        }
        assert(pos@ =~= hunk_of(tree_pos@));
        loop
            invariant
                pos.len() >= 1,
                node_at(self@, tree_pos@).is_some(),
                node_at(self@, pos@).is_some(),
                following(self@, pos@) == following(self@, hunk_of(tree_pos@)),
            decreases pos.len(),
        {
            let idx = pos[pos.len() - 1];
            if pos.len() == 1 {
                let n = self.log_tree.len();
                if idx < n && idx + 1 < n {
                    let mut r: Vec<usize> = Vec::new();
                    r.push(idx + 1);
                    assert(Some(r@) =~= following(self@, pos@));
                    return Ok(r);
                }
                return Ok(duplicate_position(tree_pos));
            }
            let ghost here = pos@;
            proof {
                lemma_parent_of_node(self@, here);
            }
            pos.pop();
            assert(pos@ =~= here.drop_last());
            match self.get_tree_node(&pos) {
                Ok(parent) => {
                    proof {
                        lemma_children_view(*parent);
                        assert(idx == here.last());
                        assert(parent@ == node_at(self@, here.drop_last()).unwrap());
                        assert(idx < parent.children@.len());
                    }
                    let count = parent.children.len();
                    if idx < count && idx + 1 < count {
                        pos.push(idx + 1);
                        return Ok(pos);
                    }
                },
                Err(_) => {},
            }
        }
    }

    /// The position that "previous sibling" leads to from a node.
    pub fn prev_sibling(&self, tree_pos: &TreePosition) -> (r: Result<TreePosition, LogTreeError>)
        ensures
            r.is_ok() == node_at(self@, tree_pos@).is_some(),
            r.is_ok() ==> r.unwrap()@ == prev_sibling_position(tree_pos@),
            r.is_err() ==> r == Err::<TreePosition, LogTreeError>(LogTreeError::InvalidPosition),
    {
        if self.get_tree_node(tree_pos).is_err() {
            return Err(LogTreeError::InvalidPosition);
        }
        let mut pos = duplicate_position(tree_pos);
        if pos.len() == DIFF_HUNK_LINE_IDX + 1 {
            pos.pop();
        }
        assert(pos@ =~= hunk_of(tree_pos@));
        loop
            invariant
                pos.len() >= 1,
                node_at(self@, tree_pos@).is_some(),
                preceding(pos@) == prev_sibling_position(tree_pos@),
            decreases pos.len(),
        {
            let idx = pos[pos.len() - 1];
            let ghost here = pos@;
            if idx > 0 {
                pos.pop();
                pos.push(idx - 1);
                assert(pos@ =~= preceding(here));
                return Ok(pos);
            }
            if pos.len() == 1 {
                return Ok(pos);
            }
            pos.pop();
            assert(pos@ =~= here.drop_last());
        }
    }
}

} // verus!
