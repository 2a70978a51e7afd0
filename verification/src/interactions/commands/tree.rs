//! The abstract command tree: what a registry holds, how a path is looked up
//! in it, and what registering a command does to it.

use vstd::prelude::*;

verus! {

/// What is registered for one command: its handler, its option schema and its
/// description.
pub struct LeafView<H, O> {
    pub handler: H,
    pub options: Seq<O>,
    pub description: Seq<char>,
}

/// A node of the command tree: a branch with named children, in the order in
/// which they were first registered, or a leaf with a registered command.
pub enum TreeView<H, O> {
    Node(Seq<(Seq<char>, TreeView<H, O>)>),
    Leaf(LeafView<H, O>),
}

/// The position of the first child called `name`, or the number of children
/// where there is none.
pub open spec fn position<H, O>(children: Seq<(Seq<char>, TreeView<H, O>)>, name: Seq<char>) -> int
    decreases children.len(),
{
    if children.len() == 0 {
        0
    } else if children.first().0 == name {
        0
    } else {
        1 + position(children.drop_first(), name)
    }
}

/// No two children have the same name.
pub open spec fn names_unique<H, O>(children: Seq<(Seq<char>, TreeView<H, O>)>) -> bool {
    forall|i: int, j: int|
        0 <= i < j < children.len() ==> (#[trigger] children[i]).0 != (#[trigger] children[j]).0
}

/// `p` is the beginning of `q`, or all of it.
pub open spec fn is_prefix(p: Seq<Seq<char>>, q: Seq<Seq<char>>) -> bool {
    p.len() <= q.len() && q.take(p.len() as int) == p
}

impl<H, O> TreeView<H, O> {
    /// The registry that holds no command.
    pub open spec fn empty() -> TreeView<H, O> {
        TreeView::Node(Seq::empty())
    }

    /// In every branch of the tree, no two children have the same name.
    pub open spec fn wf(self) -> bool
        decreases self,
    {
        match self {
            TreeView::Leaf(_) => true,
            TreeView::Node(children) => {
                &&& names_unique(children)
                &&& forall|i: int| 0 <= i < children.len() ==> (#[trigger] children[i]).1.wf()
            },
        }
    }

    /// The command registered at `path`: the leaf that the exact walk along the
    /// path ends on. There is none where a segment is missing, where the walk
    /// ends on a branch, or where it would have to pass through a leaf.
    pub open spec fn lookup(self, path: Seq<Seq<char>>) -> Option<LeafView<H, O>>
        decreases path.len(),
    {
        match self {
            TreeView::Leaf(_) => None,
            TreeView::Node(children) => {
                if path.len() == 0 {
                    None
                } else {
                    let i = position(children, path[0]);
                    if i == children.len() {
                        None
                    } else if path.len() == 1 {
                        match children[i].1 {
                            TreeView::Leaf(info) => Some(info),
                            TreeView::Node(_) => None,
                        }
                    } else {
                        children[i].1.lookup(path.drop_first())
                    }
                }
            },
        }
    }

    /// Whether a command can be registered at `path`: the walk along the path
    /// passes through no leaf, and the place where it ends is free. A path
    /// that ends on a registered command or on a branch is not admitted, so
    /// that no registration takes the place of another.
    pub open spec fn admits(self, path: Seq<Seq<char>>) -> bool
        decreases path.len(),
    {
        match self {
            TreeView::Leaf(_) => false,
            TreeView::Node(children) => {
                if path.len() == 0 {
                    true
                } else {
                    let i = position(children, path[0]);
                    if i == children.len() {
                        true
                    } else if path.len() == 1 {
                        false
                    } else {
                        children[i].1.admits(path.drop_first())
                    }
                }
            },
        }
    }

    /// The tree after `info` is registered at `path`. Branches that are missing
    /// on the way are created, and the new leaf is put where the path ends,
    /// each as the last child of its parent. An empty path, a walk that meets
    /// a leaf, and a path that ends where something stands change nothing.
    pub open spec fn inserted(self, path: Seq<Seq<char>>, info: LeafView<H, O>) -> TreeView<H, O>
        decreases path.len(),
    {
        match self {
            TreeView::Leaf(_) => self,
            TreeView::Node(children) => {
                if path.len() == 0 {
                    self
                } else {
                    let i = position(children, path[0]);
                    if i == children.len() {
                        TreeView::Node(children.push((path[0], Self::grown(path.drop_first(), info))))
                    } else if path.len() == 1 {
                        self
                    } else {
                        TreeView::Node(
                            children.update(
                                i,
                                (path[0], children[i].1.inserted(path.drop_first(), info)),
                            ),
                        )
                    }
                }
            },
        }
    }

    /// The new subtree that holds `info` at the end of `rest`: the leaf itself
    /// for the empty rest, and else a branch with one child for each segment.
    pub open spec fn grown(rest: Seq<Seq<char>>, info: LeafView<H, O>) -> TreeView<H, O>
        decreases rest.len(),
    {
        if rest.len() == 0 {
            TreeView::Leaf(info)
        } else {
            TreeView::Node(seq![(rest[0], Self::grown(rest.drop_first(), info))])
        }
    }
}

/// The description of the children of a branch: for each, its name and its
/// description, followed by a comma.
pub open spec fn described_children<H, O>(children: Seq<(Seq<char>, TreeView<H, O>)>) -> Seq<char>
    decreases children,
{
    if children.len() == 0 {
        Seq::empty()
    } else {
        described_children(children.drop_last()) + children.last().0 + ": "@
            + children.last().1.described() + ", "@
    }
}

impl<H, O> TreeView<H, O> {
    /// The description of the shape of the tree, for a reader: the names of
    /// the branches, and `Leaf` for every registered command.
    pub open spec fn described(self) -> Seq<char>
        decreases self,
    {
        match self {
            TreeView::Leaf(_) => "Leaf"@,
            TreeView::Node(children) => "Node { "@ + described_children(children) + "}"@,
        }
    }
}

/// How `position` is found by a scan from the front.
pub proof fn lemma_position<H, O>(children: Seq<(Seq<char>, TreeView<H, O>)>, name: Seq<char>, i: int)
    requires
        0 <= i <= children.len(),
        forall|j: int| 0 <= j < i ==> (#[trigger] children[j]).0 != name,
        i < children.len() ==> children[i].0 == name,
    ensures
        position(children, name) == i,
    decreases i,
{
    if i > 0 {
        let rest = children.drop_first();
        assert(children.first() == children[0]);
        assert forall|j: int| 0 <= j < i - 1 implies (#[trigger] rest[j]).0 != name by {
            assert(rest[j] == children[j + 1]);
        }
        lemma_position(rest, name, i - 1);
    }
}

/// What `position` says of the children before and at the position.
pub proof fn lemma_position_found<H, O>(children: Seq<(Seq<char>, TreeView<H, O>)>, name: Seq<char>)
    ensures
        0 <= position(children, name) <= children.len(),
        forall|j: int| 0 <= j < position(children, name) ==> (#[trigger] children[j]).0 != name,
        position(children, name) < children.len() ==> children[position(children, name)].0 == name,
    decreases children.len(),
{
    if children.len() > 0 && children.first().0 != name {
        let rest = children.drop_first();
        lemma_position_found(rest, name);
        assert forall|j: int| 0 <= j < position(children, name) implies (#[trigger] children[j]).0
            != name by {
            if j > 0 {
                assert(children[j] == rest[j - 1]);
            }
        }
    }
}

/// Registering at the name `name` keeps the first child of that name where it
/// is, or makes the new child the first of that name.
proof fn lemma_position_after<H, O>(
    children: Seq<(Seq<char>, TreeView<H, O>)>,
    name: Seq<char>,
    sub: TreeView<H, O>,
)
    ensures
        position(children, name) == children.len() ==> position(children.push((name, sub)), name)
            == children.len(),
        position(children, name) < children.len() ==> position(
            children.update(position(children, name), (name, sub)),
            name,
        ) == position(children, name),
{
    lemma_position_found(children, name);
    let i = position(children, name);
    if i == children.len() {
        let grown = children.push((name, sub));
        assert forall|j: int| 0 <= j < i implies (#[trigger] grown[j]).0 != name by {
            assert(grown[j] == children[j]);
        }
        lemma_position(grown, name, i);
    } else {
        let changed = children.update(i, (name, sub));
        assert forall|j: int| 0 <= j < i implies (#[trigger] changed[j]).0 != name by {
            assert(changed[j] == children[j]);
        }
        lemma_position(changed, name, i);
    }
}

/// Registering at the name `name` leaves the first child of any other name
/// where it is.
proof fn lemma_position_other<H, O>(
    children: Seq<(Seq<char>, TreeView<H, O>)>,
    name: Seq<char>,
    sub: TreeView<H, O>,
    other: Seq<char>,
)
    requires
        other != name,
    ensures
        position(children, name) == children.len() ==> {
            let grown = children.push((name, sub));
            &&& position(grown, other) < grown.len() <==> position(children, other) < children.len()
            &&& position(children, other) < children.len() ==> position(grown, other) == position(
                children,
                other,
            )
        },
        position(children, name) < children.len() ==> position(
            children.update(position(children, name), (name, sub)),
            other,
        ) == position(children, other),
{
    lemma_position_found(children, name);
    lemma_position_found(children, other);
    let i = position(children, name);
    let k = position(children, other);
    if i == children.len() {
        let grown = children.push((name, sub));
        assert forall|j: int| 0 <= j < k implies (#[trigger] grown[j]).0 != other by {
            assert(grown[j] == children[j]);
        }
        if k < children.len() {
            assert(grown[k] == children[k]);
            lemma_position(grown, other, k);
        } else {
            assert(grown[k].0 == name);
            lemma_position(grown, other, k + 1);
        }
    } else {
        let changed = children.update(i, (name, sub));
        assert forall|j: int| 0 <= j < k implies (#[trigger] changed[j]).0 != other by {
            if j != i {
                assert(changed[j] == children[j]);
            }
        }
        if k < children.len() {
            assert(k != i);
            assert(changed[k] == children[k]);
        }
        lemma_position(changed, other, k);
    }
}

/// Registration keeps a branch a branch.
pub proof fn lemma_inserted_is_node<H, O>(tree: TreeView<H, O>, path: Seq<Seq<char>>, info: LeafView<H, O>)
    requires
        tree is Node,
    ensures
        tree.inserted(path, info) is Node,
{
}

/// Registering in a branch without children gives the new subtree.
pub proof fn lemma_inserted_into_empty<H, O>(rest: Seq<Seq<char>>, info: LeafView<H, O>)
    requires
        rest.len() > 0,
    ensures
        TreeView::<H, O>::empty().inserted(rest, info) == TreeView::grown(rest, info),
        TreeView::<H, O>::empty().admits(rest),
{
    let none = Seq::<(Seq<char>, TreeView<H, O>)>::empty();
    assert(none.push((rest[0], TreeView::grown(rest.drop_first(), info))) =~= seq![
        (rest[0], TreeView::grown(rest.drop_first(), info)),
    ]);
}

/// In a new subtree every branch has one child, so its names are distinct.
pub proof fn lemma_grown_wf<H, O>(rest: Seq<Seq<char>>, info: LeafView<H, O>)
    ensures
        TreeView::grown(rest, info).wf(),
    decreases rest.len(),
{
    if rest.len() > 0 {
        lemma_grown_wf(rest.drop_first(), info);
    }
}

/// Registration keeps the names of every branch distinct.
pub proof fn lemma_inserted_wf<H, O>(tree: TreeView<H, O>, path: Seq<Seq<char>>, info: LeafView<H, O>)
    requires
        tree.wf(),
    ensures
        tree.inserted(path, info).wf(),
    decreases path.len(),
{
    if let TreeView::Node(children) = tree {
        if path.len() > 0 {
            let name = path[0];
            let i = position(children, name);
            lemma_position_found(children, name);
            if i == children.len() {
                let sub = TreeView::grown(path.drop_first(), info);
                lemma_grown_wf(path.drop_first(), info);
                let grown = children.push((name, sub));
                assert forall|a: int, b: int| 0 <= a < b < grown.len() implies (#[trigger] grown[a]).0
                    != (#[trigger] grown[b]).0 by {
                    if b < children.len() {
                        assert(grown[a] == children[a] && grown[b] == children[b]);
                    } else {
                        assert(grown[a] == children[a]);
                    }
                }
                assert forall|k: int| 0 <= k < grown.len() implies (#[trigger] grown[k]).1.wf() by {
                    if k < children.len() {
                        assert(grown[k] == children[k]);
                    }
                }
            } else if path.len() > 1 {
                lemma_inserted_wf(children[i].1, path.drop_first(), info);
                let sub = children[i].1.inserted(path.drop_first(), info);
                let changed = children.update(i, (name, sub));
                assert forall|a: int, b: int| 0 <= a < b < changed.len() implies (
                #[trigger] changed[a]).0 != (#[trigger] changed[b]).0 by {
                    assert(changed[a].0 == children[a].0);
                    assert(changed[b].0 == children[b].0);
                }
                assert forall|k: int| 0 <= k < changed.len() implies (#[trigger] changed[k]).1.wf() by {
                    if k != i {
                        assert(changed[k] == children[k]);
                    }
                }
            }
        }
    }
}

/// Two paths with the same first segment and the same rest are the same.
proof fn lemma_same_path(a: Seq<Seq<char>>, b: Seq<Seq<char>>)
    requires
        a.len() > 0,
        b.len() > 0,
        a[0] == b[0],
        a.drop_first() == b.drop_first(),
    ensures
        a == b,
{
    assert(a =~= seq![a[0]] + a.drop_first());
    assert(b =~= seq![b[0]] + b.drop_first());
}

/// In a new subtree the command is found at the end of the path it was grown
/// along, and nowhere else.
pub proof fn lemma_lookup_grown<H, O>(rest: Seq<Seq<char>>, info: LeafView<H, O>, other: Seq<Seq<char>>)
    requires
        rest.len() > 0,
    ensures
        TreeView::grown(rest, info).lookup(other) == if other == rest {
            Some(info)
        } else {
            None
        },
    decreases rest.len(),
{
    let children = seq![(rest[0], TreeView::grown(rest.drop_first(), info))];
    if other.len() > 0 {
        if other[0] == rest[0] {
            lemma_position(children, other[0], 0);
            if rest.len() == 1 {
                if other.len() == 1 {
                    assert(other.drop_first() =~= rest.drop_first());
                    lemma_same_path(other, rest);
                }
            } else {
                if other.len() > 1 {
                    lemma_lookup_grown(rest.drop_first(), info, other.drop_first());
                    if other.drop_first() == rest.drop_first() {
                        lemma_same_path(other, rest);
                    }
                }
            }
        } else {
            lemma_position(children, other[0], 1);
        }
    }
}

/// A command is found at the path at which it was registered.
pub proof fn lemma_lookup_inserted<H, O>(tree: TreeView<H, O>, path: Seq<Seq<char>>, info: LeafView<H, O>)
    requires
        path.len() > 0,
        tree.admits(path),
    ensures
        tree.inserted(path, info).lookup(path) == Some(info),
    decreases path.len(),
{
    let children = tree->Node_0;
    let name = path[0];
    let i = position(children, name);
    lemma_position_found(children, name);
    if i == children.len() {
        let sub = TreeView::grown(path.drop_first(), info);
        lemma_position_after(children, name, sub);
        if path.len() > 1 {
            lemma_lookup_grown(path.drop_first(), info, path.drop_first());
        }
    } else {
        lemma_lookup_inserted(children[i].1, path.drop_first(), info);
        let sub = children[i].1.inserted(path.drop_first(), info);
        lemma_position_after(children, name, sub);
    }
}

/// Nothing is found in the registry that holds no command.
pub proof fn lemma_lookup_empty<H, O>(path: Seq<Seq<char>>)
    ensures
        TreeView::<H, O>::empty().lookup(path) is None,
{
}

/// Where a path is admitted, nothing is registered at it or below it.
pub proof fn lemma_admitted_is_free<H, O>(tree: TreeView<H, O>, path: Seq<Seq<char>>, other: Seq<Seq<char>>)
    requires
        path.len() > 0,
        tree.admits(path),
        is_prefix(path, other),
    ensures
        tree.lookup(other) is None,
    decreases path.len(),
{
    assert(tree is Node);
    let children = tree->Node_0;
    assert(other.len() >= path.len());
    assert(other.take(path.len() as int)[0] == other[0]);
    assert(other[0] == path[0]);
    let i = position(children, path[0]);
    lemma_position_found(children, path[0]);
    if i < children.len() {
        assert(path.len() > 1);
        assert(other.len() > 1);
        assert(is_prefix(path.drop_first(), other.drop_first())) by {
            assert(other.drop_first().take(path.len() - 1) =~= other.take(path.len() as int).drop_first());
        }
        lemma_admitted_is_free(children[i].1, path.drop_first(), other.drop_first());
    }
}

/// Registering a command leaves every other path as it was: a command that
/// was found stays found, and no path but the registered one finds the new
/// command.
pub proof fn lemma_lookup_kept<H, O>(
    tree: TreeView<H, O>,
    path: Seq<Seq<char>>,
    info: LeafView<H, O>,
    other: Seq<Seq<char>>,
)
    requires
        tree.admits(path),
        other != path,
    ensures
        tree.inserted(path, info).lookup(other) == tree.lookup(other),
    decreases path.len(),
{
    assert(tree is Node);
    lemma_inserted_is_node(tree, path, info);
    if path.len() > 0 && other.len() > 0 {
        let children = tree->Node_0;
        let name = path[0];
        let i = position(children, name);
        lemma_position_found(children, name);
        if i == children.len() {
            let sub = TreeView::grown(path.drop_first(), info);
            let after = children.push((name, sub));
            if other[0] != name {
                lemma_position_other(children, name, sub, other[0]);
                lemma_position_found(children, other[0]);
                lemma_position_found(after, other[0]);
                let k = position(children, other[0]);
                if k < children.len() {
                    assert(after[k] == children[k]);
                }
            } else {
                lemma_position_after(children, name, sub);
                if path.len() == 1 {
                    if other.len() == 1 {
                        assert(other.drop_first() =~= path.drop_first());
                        lemma_same_path(other, path);
                    }
                } else {
                    if other.len() > 1 {
                        lemma_lookup_grown(path.drop_first(), info, other.drop_first());
                        if other.drop_first() == path.drop_first() {
                            lemma_same_path(other, path);
                        }
                    }
                }
            }
        } else {
            assert(path.len() > 1);
            assert(children[i].1.admits(path.drop_first()));
            assert(children[i].1 is Node);
            let sub = children[i].1.inserted(path.drop_first(), info);
            let after = children.update(i, (name, sub));
            if other[0] != name {
                lemma_position_other(children, name, sub, other[0]);
                lemma_position_found(children, other[0]);
                let k = position(children, other[0]);
                if k < children.len() {
                    assert(k != i);
                    assert(after[k] == children[k]);
                }
            } else {
                lemma_position_after(children, name, sub);
                if other.len() > 1 {
                    if other.drop_first() == path.drop_first() {
                        lemma_same_path(other, path);
                    }
                    lemma_lookup_kept(children[i].1, path.drop_first(), info, other.drop_first());
                } else {
                    lemma_inserted_is_node(children[i].1, path.drop_first(), info);
                }
            }
        }
    }
}

/// Nothing is found below a leaf: where a command is registered at a path, no
/// command is found at a longer path that begins with it.
pub proof fn lemma_lookup_below_leaf<H, O>(tree: TreeView<H, O>, path: Seq<Seq<char>>, longer: Seq<Seq<char>>)
    requires
        tree.lookup(path) is Some,
        is_prefix(path, longer),
        longer != path,
    ensures
        tree.lookup(longer) is None,
    decreases path.len(),
{
    let children = tree->Node_0;
    assert(longer.take(path.len() as int)[0] == longer[0]);
    if path.len() == 1 {
        assert(longer.len() > 1) by {
            if longer.len() == 1 {
                assert(longer =~= longer.take(1));
            }
        }
        let i = position(children, path[0]);
        assert(children[i].1.lookup(longer.drop_first()) is None);
    } else {
        assert(is_prefix(path.drop_first(), longer.drop_first())) by {
            assert(longer.drop_first().take(path.len() - 1) =~= longer.take(path.len() as int).drop_first());
        }
        assert(longer.drop_first() != path.drop_first()) by {
            if longer.drop_first() == path.drop_first() {
                assert(longer =~= path);
            }
        }
        let i = position(children, path[0]);
        lemma_lookup_below_leaf(children[i].1, path.drop_first(), longer.drop_first());
    }
}

/// Nothing is found on a branch: where a command is registered at a path, no
/// command is found at a shorter path that the path begins with.
pub proof fn lemma_lookup_above_leaf<H, O>(tree: TreeView<H, O>, path: Seq<Seq<char>>, shorter: Seq<Seq<char>>)
    requires
        tree.lookup(path) is Some,
        is_prefix(shorter, path),
        shorter != path,
    ensures
        tree.lookup(shorter) is None,
{
    if tree.lookup(shorter) is Some {
        lemma_lookup_below_leaf(tree, shorter, path);
    }
}

} // verus!
