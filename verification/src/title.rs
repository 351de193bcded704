//! Renders a container title as one output line, with optional truncation.
//!
//! The display length limit counts characters, not bytes. A limit of zero
//! means "unbounded": the title is never cut. Otherwise a title longer than
//! the limit keeps its first `limit - 3` characters and gains a literal
//! `...` suffix; the limit is therefore required to exceed 3, which the
//! configuration check enforces before this module is reached.

use vstd::prelude::*;

use crate::tree::TreeNode;
use crate::tree::locate_focused;
use crate::tree::find_focused;

verus! {

/// The fixed line shown when no focused container, or no title for it, can
/// be resolved.
pub open spec fn placeholder() -> Seq<char> {
    "?..."@
}

/// The title that one tree snapshot resolves to: the located focused
/// container's name, or the placeholder when no container is located or the
/// located one is nameless.
pub open spec fn snapshot_title(root: TreeNode) -> Seq<char> {
    match locate_focused(root) {
        Some(n) => match n.name {
            Some(s) => s@,
            None => placeholder(),
        },
        None => placeholder(),
    }
}

/// Resolves the title to display for the snapshot rooted at `root`,
/// substituting the placeholder when the focused container cannot be found
/// or has no name.
pub fn focused_title(root: &TreeNode) -> (r: String)
    ensures
        r@ == snapshot_title(*root),
{
    match find_focused(root) {
        Some(node) => match &node.name {
            Some(s) => s.clone(),
            None => String::from_str("?..."),
        },
        None => String::from_str("?..."),
    }
}

/// The line that a title renders to under a character limit (`0` meaning
/// unbounded): the title itself when it fits, else its first `max_len - 3`
/// characters followed by `...`; a terminating newline either way.
pub open spec fn rendered_title(name: Seq<char>, max_len: int) -> Seq<char>
    recommends
        max_len == 0 || max_len > 3,
{
    if max_len == 0 || name.len() <= max_len {
        name.push('\n')
    } else {
        name.subrange(0, max_len - 3) + seq!['.', '.', '.', '\n']
    }
}

/// Builds the output line for `name` under the character limit `max_len`,
/// newline included.
pub fn format_title(name: &str, max_len: usize) -> (r: String)
    requires
        max_len == 0 || max_len > 3,
    ensures
        r@ == rendered_title(name@, max_len as int),
{
    let count = name.unicode_len();
    if max_len == 0 || count <= max_len {
        let mut line = String::from_str(name);
        line.append("\n");
        proof {
            reveal_strlit("\n");
            assert(line@ =~= rendered_title(name@, max_len as int));
        }
        line
    } else {
        let prefix = name.substring_char(0, max_len - 3);
        let mut line = String::from_str(prefix);
        line.append("...\n");
        proof {
            reveal_strlit("...\n");
            assert(line@ =~= rendered_title(name@, max_len as int));
        }
        line
    }
}

} // verus!
