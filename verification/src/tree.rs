//! The layout tree and the locator for its focused container.
//!
//! The window manager hands over one immutable snapshot of its layout tree.
//! Each container carries a focus-order list whose first entry names the
//! child subtree that currently holds input focus; following that chain from
//! the root leads to the focused container. The locator only reads the
//! snapshot and never assumes more of it than it can check: a node that is
//! not focused and whose focus-order list is empty, or names a child that is
//! in neither child sequence, is a dead end.

use vstd::prelude::*;

verus! {

/// One container of a window-manager layout tree snapshot.
pub struct TreeNode {
    /// Unique identifier of the container.
    pub id: i64,
    /// The container's title, if it has one.
    pub name: Option<String>,
    /// True iff this exact container currently holds input focus.
    pub focused: bool,
    /// Identifiers of children in focus order, most recently focused first.
    pub focus: Vec<i64>,
    /// Normal (tiled) child containers, in layout order.
    pub nodes: Vec<TreeNode>,
    /// Floating child containers, in layout order.
    pub floating_nodes: Vec<TreeNode>,
}

/// The first node of `children` whose identifier is `target`, if any.
pub open spec fn first_match(children: Seq<TreeNode>, target: i64) -> Option<TreeNode>
    decreases children.len(),
{
    if children.len() == 0 {
        None
    } else if children[0].id == target {
        Some(children[0])
    } else {
        first_match(children.drop_first(), target)
    }
}

/// The child subtree that the focus-order list points into: its first entry,
/// resolved among the normal children first and the floating children second.
pub open spec fn focus_child(node: TreeNode) -> Option<TreeNode> {
    if node.focus@.len() == 0 {
        None
    } else {
        match first_match(node.nodes@, node.focus@[0]) {
            Some(c) => Some(c),
            None => first_match(node.floating_nodes@, node.focus@[0]),
        }
    }
}

/// The focused container of the subtree rooted at `node`: the node itself
/// when its focused flag is set, else whatever following the focus-order
/// chain one step down finds; `None` when the chain breaks off.
pub open spec fn locate_focused(node: TreeNode) -> Option<TreeNode>
    decreases node,
    via locate_focused_decreases
{
    if node.focused {
        Some(node)
    } else {
        match focus_child(node) {
            Some(c) => locate_focused(c),
            None => None,
        }
    }
}

/// A matched child is an element of the sequence it was matched in.
proof fn lemma_first_match_is_element(children: Seq<TreeNode>, target: i64)
    ensures
        first_match(children, target) matches Some(c) ==> exists|i: int|
            0 <= i < children.len() && children[i] == c,
    decreases children.len(),
{
    if children.len() > 0 && children[0].id != target {
        lemma_first_match_is_element(children.drop_first(), target);
        if first_match(children, target) is Some {
            let c = first_match(children, target)->0;
            let j = choose|j: int|
                0 <= j < children.drop_first().len() && children.drop_first()[j] == c;
            assert(children[j + 1] == c);
        }
    }
}

/// The child that the focus-order list points into lies structurally below
/// its parent, so descending the chain terminates.
proof fn lemma_focus_child_decreases(node: TreeNode)
    requires
        focus_child(node) is Some,
    ensures
        decreases_to!(node => focus_child(node)->0),
{
    let target = node.focus@[0];
    if first_match(node.nodes@, target) is Some {
        let m = first_match(node.nodes@, target)->0;
        lemma_first_match_is_element(node.nodes@, target);
        let i = choose|i: int| 0 <= i < node.nodes@.len() && node.nodes@[i] == m;
        assert(decreases_to!(node => node.nodes@[i]));
    } else {
        let m = first_match(node.floating_nodes@, target)->0;
        lemma_first_match_is_element(node.floating_nodes@, target);
        let i = choose|i: int|
            0 <= i < node.floating_nodes@.len() && node.floating_nodes@[i] == m;
        assert(decreases_to!(node => node.floating_nodes@[i]));
    }
}

#[via_fn]
proof fn locate_focused_decreases(node: TreeNode) {
    if !node.focused && focus_child(node) is Some {
        lemma_focus_child_decreases(node);
    }
}

/// A subtree leads to `target` along its focus order when its root is the
/// focused `target` itself, or is unfocused while the first entry of its
/// focus-order list names a child — found among its normal or floating
/// children — whose subtree in turn leads to `target`.
pub open spec fn focus_order_leads_to(node: TreeNode, target: TreeNode) -> bool
    decreases node,
    via focus_order_leads_to_decreases
{
    if node.focused {
        node == target
    } else {
        match focus_child(node) {
            Some(c) => focus_order_leads_to(c, target),
            None => false,
        }
    }
}

#[via_fn]
proof fn focus_order_leads_to_decreases(node: TreeNode, target: TreeNode) {
    if !node.focused && focus_child(node) is Some {
        lemma_focus_child_decreases(node);
    }
}

/// Law: in a tree whose focus-order lists correctly name the chain of
/// children down to the one focused container, the locator returns exactly
/// that container, whether each step of the chain descends into a normal or
/// a floating child.
pub proof fn lemma_locate_focused_follows_chain(node: TreeNode, target: TreeNode)
    requires
        focus_order_leads_to(node, target),
    ensures
        locate_focused(node) == Some(target),
        target.focused,
    decreases node,
{
    if !node.focused {
        lemma_focus_child_decreases(node);
        lemma_locate_focused_follows_chain(focus_child(node)->0, target);
    }
}

/// Law: a root that is itself marked focused is returned at once, whatever
/// its focus-order list and children hold.
pub proof fn lemma_focused_root(node: TreeNode)
    requires
        node.focused,
    ensures
        locate_focused(node) == Some(node),
{
}

/// No node of `children` carries the identifier `target`, so the scan for it
/// finds nothing.
proof fn lemma_first_match_none(children: Seq<TreeNode>, target: i64)
    requires
        forall|i: int| 0 <= i < children.len() ==> children[i].id != target,
    ensures
        first_match(children, target) is None,
    decreases children.len(),
{
    if children.len() > 0 {
        assert(forall|i: int|
            0 <= i < children.drop_first().len() ==> children.drop_first()[i] == children[i + 1]);
        lemma_first_match_none(children.drop_first(), target);
    }
}

/// Law: an unfocused node whose focus-order list names a child identifier
/// that is absent from both its normal and its floating children is a dead
/// end: the locator finds nothing in that subtree.
pub proof fn lemma_missing_focus_child(node: TreeNode)
    requires
        !node.focused,
        node.focus@.len() > 0,
        forall|i: int| 0 <= i < node.nodes@.len() ==> node.nodes@[i].id != node.focus@[0],
        forall|i: int|
            0 <= i < node.floating_nodes@.len() ==> node.floating_nodes@[i].id != node.focus@[0],
    ensures
        locate_focused(node) is None,
{
    lemma_first_match_none(node.nodes@, node.focus@[0]);
    lemma_first_match_none(node.floating_nodes@, node.focus@[0]);
}

/// Law: an unfocused node with an empty focus-order list is a dead end, not
/// an out-of-bounds read: the locator finds nothing in that subtree.
pub proof fn lemma_empty_focus_order(node: TreeNode)
    requires
        !node.focused,
        node.focus@.len() == 0,
    ensures
        locate_focused(node) is None,
{
}

/// Returns a reference to the first child of `children` whose identifier is
/// `target`, scanning linearly from the front.
fn find_child<'a>(children: &'a Vec<TreeNode>, target: i64) -> (r: Option<&'a TreeNode>)
    ensures
        match r {
            Some(c) => first_match(children@, target) == Some(*c),
            None => first_match(children@, target) is None,
        },
{
    let mut i: usize = 0;
    proof {
        assert(children@.skip(0) =~= children@);
    }
    while i < children.len()
        invariant
            i <= children@.len(),
            first_match(children@, target) == first_match(children@.skip(i as int), target),
        decreases children@.len() - i,
    {
        if children[i].id == target {
            proof {
                assert(children@.skip(i as int)[0] == children@[i as int]);
            }
            return Some(&children[i]);
        }
        proof {
            assert(children@.skip(i as int).drop_first() =~= children@.skip(i + 1));
            assert(children@.skip(i as int)[0] == children@[i as int]);
        }
        i = i + 1;
    }
    proof {
        assert(children@.skip(i as int).len() == 0);
    }
    None
}

/// Finds the focused container of the snapshot rooted at `node` by recursive
/// descent along the focus-order chain.
pub fn find_focused<'a>(node: &'a TreeNode) -> (r: Option<&'a TreeNode>)
    ensures
        match r {
            Some(n) => locate_focused(*node) == Some(*n),
            None => locate_focused(*node) is None,
        },
    decreases *node,
{
    if node.focused {
        Some(node)
    } else if node.focus.len() == 0 {
        None
    } else {
        let target = node.focus[0];
        let child = match find_child(&node.nodes, target) {
            Some(c) => Some(c),
            None => find_child(&node.floating_nodes, target),
        };
        match child {
            Some(c) => {
                proof {
                    assert(focus_child(*node) == Some(*c));
                    lemma_focus_child_decreases(*node);
                }
                find_focused(c)
            },
            None => None,
        }
    }
}

} // verus!
