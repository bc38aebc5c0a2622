//! The menu tree model: submenus, labeled command items, platform-standard
//! actions, and separators, together with the well-formedness rules the
//! builder enforces — every command id is unique across the whole tree, and
//! every accelerator obeys the accelerator grammar.

use vstd::prelude::*;
use crate::accel::{accelerator_is_valid, str_eq, valid_accelerator};

verus! {

/// A platform-standard menu action: an opaque capability reference that the
/// host runtime implements; such an entry carries no command id and is never
/// routed through the command dispatcher.
#[derive(Clone, Copy, Debug, PartialEq, Eq, Structural)]
pub enum PlatformActionKind {
    About,
    Services,
    Hide,
    HideOthers,
    ShowAll,
    Quit,
    CloseWindow,
    Undo,
    Redo,
    Cut,
    CopyItem,
    Paste,
    SelectAll,
    Minimize,
    Maximize,
    Fullscreen,
}

/// Why menu construction failed. Construction errors are fatal to startup;
/// `HostRegistrationFailed` is reported by the host layer when the finished
/// tree is rejected by the platform menu surface.
#[derive(Clone, Copy, Debug, PartialEq, Eq, Structural)]
pub enum MenuBuildError {
    InvalidAccelerator,
    DuplicateId,
    HostRegistrationFailed,
}

/// One node of the menu tree.
pub enum MenuNode {
    Submenu { label: String, children: Vec<MenuNode> },
    CommandItem { id: String, label: String, enabled: bool, accelerator: Option<String> },
    PlatformAction { kind: PlatformActionKind },
    Separator,
}

/// The command ids below `n`, left to right.
pub open spec fn node_ids(n: MenuNode) -> Seq<Seq<char>>
    decreases n,
{
    match n {
        MenuNode::Submenu { children, .. } => ids_in(children@),
        MenuNode::CommandItem { id, .. } => seq![id@],
        MenuNode::PlatformAction { .. } => seq![],
        MenuNode::Separator => seq![],
    }
}

/// The command ids below a forest of nodes, left to right.
pub open spec fn ids_in(nodes: Seq<MenuNode>) -> Seq<Seq<char>>
    decreases nodes,
{
    if nodes.len() == 0 {
        seq![]
    } else {
        ids_in(nodes.drop_last()) + node_ids(nodes[nodes.len() - 1])
    }
}

/// The accelerator strings below `n`, left to right.
pub open spec fn node_accels(n: MenuNode) -> Seq<Seq<char>>
    decreases n,
{
    match n {
        MenuNode::Submenu { children, .. } => accels_in(children@),
        MenuNode::CommandItem { accelerator, .. } => match accelerator {
            Some(a) => seq![a@],
            None => seq![],
        },
        MenuNode::PlatformAction { .. } => seq![],
        MenuNode::Separator => seq![],
    }
}

/// The accelerator strings below a forest of nodes, left to right.
pub open spec fn accels_in(nodes: Seq<MenuNode>) -> Seq<Seq<char>>
    decreases nodes,
{
    if nodes.len() == 0 {
        seq![]
    } else {
        accels_in(nodes.drop_last()) + node_accels(nodes[nodes.len() - 1])
    }
}

/// No two entries of `s` are equal.
pub open spec fn unique_seq(s: Seq<Seq<char>>) -> bool {
    forall|i: int, j: int| 0 <= i < j < s.len() ==> s[i] != s[j]
}

/// Every accelerator in the forest obeys the accelerator grammar.
pub open spec fn all_accels_valid(nodes: Seq<MenuNode>) -> bool {
    forall|k: int|
        0 <= k < accels_in(nodes).len() ==> valid_accelerator(#[trigger] accels_in(nodes)[k])
}

/// Every command id in the forest is unique.
pub open spec fn unique_ids(nodes: Seq<MenuNode>) -> bool {
    unique_seq(ids_in(nodes))
}

/// The views of a sequence of strings.
pub open spec fn views_of(s: Seq<String>) -> Seq<Seq<char>> {
    s.map_values(|x: String| x@)
}

pub proof fn lemma_accels_in_take_step(s: Seq<MenuNode>, i: int)
    requires
        0 <= i < s.len(),
    ensures
        accels_in(s.take(i + 1)) == accels_in(s.take(i)) + node_accels(s[i]),
{
    let t = s.take(i + 1);
    assert(t.drop_last() =~= s.take(i));
    assert(t[t.len() - 1] == s[i]);
    assert(accels_in(t) == accels_in(t.drop_last()) + node_accels(t[t.len() - 1]));
}

pub proof fn lemma_accels_in_take_prefix(s: Seq<MenuNode>, i: int)
    requires
        0 <= i <= s.len(),
    ensures
        accels_in(s.take(i)).len() <= accels_in(s).len(),
        forall|k: int|
            0 <= k < accels_in(s.take(i)).len() ==> accels_in(s.take(i))[k] == accels_in(s)[k],
    decreases s.len() - i,
{
    if i == s.len() {
        assert(s.take(i) =~= s);
    } else {
        lemma_accels_in_take_step(s, i);
        lemma_accels_in_take_prefix(s, i + 1);
        assert(forall|k: int|
            0 <= k < accels_in(s.take(i)).len() ==> accels_in(s.take(i))[k] == accels_in(
                s.take(i + 1),
            )[k]);
    }
}

pub proof fn lemma_ids_in_take_step(s: Seq<MenuNode>, i: int)
    requires
        0 <= i < s.len(),
    ensures
        ids_in(s.take(i + 1)) == ids_in(s.take(i)) + node_ids(s[i]),
{
    let t = s.take(i + 1);
    assert(t.drop_last() =~= s.take(i));
    assert(t[t.len() - 1] == s[i]);
    assert(ids_in(t) == ids_in(t.drop_last()) + node_ids(t[t.len() - 1]));
}

/// Unrolls `ids_in` over the prefixes of a forest, one node at a time; on a
/// forest of known length the equations chain down to the empty prefix.
pub proof fn lemma_ids_in_unroll(s: Seq<MenuNode>)
    ensures
        ids_in(s.take(0)) == Seq::<Seq<char>>::empty(),
        ids_in(s) == ids_in(s.take(s.len() as int)),
        forall|i: int|
            0 < i <= s.len() ==> #[trigger] ids_in(s.take(i)) == ids_in(s.take(i - 1)) + node_ids(
                s[i - 1],
            ),
{
    assert(s.take(0) =~= Seq::<MenuNode>::empty());
    assert(ids_in(s.take(0)) =~= Seq::<Seq<char>>::empty());
    assert(s.take(s.len() as int) =~= s);
    assert forall|i: int| 0 < i <= s.len() implies #[trigger] ids_in(s.take(i)) == ids_in(
        s.take(i - 1),
    ) + node_ids(s[i - 1]) by {
        lemma_ids_in_take_step(s, i - 1);
    }
}

/// Unrolls `accels_in` over the prefixes of a forest, one node at a time.
pub proof fn lemma_accels_in_unroll(s: Seq<MenuNode>)
    ensures
        accels_in(s.take(0)) == Seq::<Seq<char>>::empty(),
        accels_in(s) == accels_in(s.take(s.len() as int)),
        forall|i: int|
            0 < i <= s.len() ==> #[trigger] accels_in(s.take(i)) == accels_in(s.take(i - 1))
                + node_accels(s[i - 1]),
{
    assert(s.take(0) =~= Seq::<MenuNode>::empty());
    assert(accels_in(s.take(0)) =~= Seq::<Seq<char>>::empty());
    assert(s.take(s.len() as int) =~= s);
    assert forall|i: int| 0 < i <= s.len() implies #[trigger] accels_in(s.take(i)) == accels_in(
        s.take(i - 1),
    ) + node_accels(s[i - 1]) by {
        lemma_accels_in_take_step(s, i - 1);
    }
}

/// Checks every accelerator in the forest against the grammar.
pub fn nodes_accels_valid(nodes: &Vec<MenuNode>) -> (r: bool)
    ensures
        r == all_accels_valid(nodes@),
    decreases nodes@,
{
    let n = nodes.len();
    let mut idx: usize = 0;
    while idx < n
        invariant
            n == nodes@.len(),
            0 <= idx <= n,
            forall|k: int|
                0 <= k < accels_in(nodes@.take(idx as int)).len() ==> valid_accelerator(
                    #[trigger] accels_in(nodes@.take(idx as int))[k],
                ),
        decreases n - idx,
    {
        let ghost prefix = accels_in(nodes@.take(idx as int));
        proof {
            lemma_accels_in_take_step(nodes@, idx as int);
            lemma_accels_in_take_prefix(nodes@, idx as int + 1);
        }
        let node = &nodes[idx];
        match node {
            MenuNode::Submenu { children, .. } => {
                proof {
                    assert(decreases_to!(nodes@ => nodes@[idx as int]));
                    assert(decreases_to!(nodes@[idx as int] => *children));
                    assert(decreases_to!(*children => children@));
                }
                let sub_ok = nodes_accels_valid(children);
                if !sub_ok {
                    proof {
                        let cs = children@;
                        let k = choose|k: int|
                            0 <= k < accels_in(cs).len() && !valid_accelerator(accels_in(cs)[k]);
                        let pos = prefix.len() + k;
                        assert(accels_in(nodes@.take(idx as int + 1))[pos] == accels_in(cs)[k]);
                        assert(accels_in(nodes@)[pos] == accels_in(cs)[k]);
                    }
                    return false;
                }
            },
            MenuNode::CommandItem { accelerator, .. } => {
                match accelerator {
                    Some(acc) => {
                        let ok = accelerator_is_valid(acc.as_str());
                        if !ok {
                            proof {
                                let pos = prefix.len() as int;
                                assert(accels_in(nodes@.take(idx as int + 1))[pos] == acc@);
                                assert(accels_in(nodes@)[pos] == acc@);
                            }
                            return false;
                        }
                    },
                    None => {},
                }
            },
            MenuNode::PlatformAction { .. } => {},
            MenuNode::Separator => {},
        }
        proof {
            assert forall|k: int|
                0 <= k < accels_in(nodes@.take(idx as int + 1)).len() implies valid_accelerator(
                #[trigger] accels_in(nodes@.take(idx as int + 1))[k],
            ) by {
                if k < prefix.len() {
                    assert(accels_in(nodes@.take(idx as int + 1))[k] == prefix[k]);
                } else {
                    assert(accels_in(nodes@.take(idx as int + 1))[k] == node_accels(
                        nodes@[idx as int],
                    )[k - prefix.len()]);
                }
            }
        }
        idx = idx + 1;
    }
    proof {
        assert(nodes@.take(n as int) =~= nodes@);
    }
    true
}

/// Appends every command id in the forest to `out`, left to right.
pub fn collect_ids(nodes: &Vec<MenuNode>, out: &mut Vec<String>)
    ensures
        views_of(final(out)@) == views_of(old(out)@) + ids_in(nodes@),
    decreases nodes@,
{
    let n = nodes.len();
    let mut idx: usize = 0;
    while idx < n
        invariant
            n == nodes@.len(),
            0 <= idx <= n,
            views_of(out@) == views_of(old(out)@) + ids_in(nodes@.take(idx as int)),
        decreases n - idx,
    {
        proof {
            lemma_ids_in_take_step(nodes@, idx as int);
        }
        let ghost prev = out@;
        let node = &nodes[idx];
        match node {
            MenuNode::Submenu { children, .. } => {
                proof {
                    assert(decreases_to!(nodes@ => nodes@[idx as int]));
                    assert(decreases_to!(nodes@[idx as int] => *children));
                    assert(decreases_to!(*children => children@));
                }
                collect_ids(children, out);
                proof {
                    assert(node_ids(nodes@[idx as int]) == ids_in(children@));
                }
            },
            MenuNode::CommandItem { id, .. } => {
                out.push(id.clone());
                proof {
                    assert(node_ids(nodes@[idx as int]) =~= seq![id@]);
                    assert(views_of(out@) =~= views_of(prev) + seq![id@]);
                }
            },
            MenuNode::PlatformAction { .. } => {
                proof {
                    assert(node_ids(nodes@[idx as int]) =~= seq![]);
                }
            },
            MenuNode::Separator => {
                proof {
                    assert(node_ids(nodes@[idx as int]) =~= seq![]);
                }
            },
        }
        proof {
            assert(views_of(out@) =~= views_of(old(out)@) + ids_in(nodes@.take(idx as int + 1)));
        }
        idx = idx + 1;
    }
    proof {
        assert(nodes@.take(n as int) =~= nodes@);
    }
}

/// Decides whether the strings in `ids` are pairwise distinct.
pub fn ids_distinct(ids: &Vec<String>) -> (r: bool)
    ensures
        r == unique_seq(views_of(ids@)),
{
    let n = ids.len();
    let mut i: usize = 0;
    while i < n
        invariant
            n == ids@.len(),
            0 <= i <= n,
            forall|p: int, q: int|
                0 <= p < q < n && p < i ==> views_of(ids@)[p] != views_of(ids@)[q],
        decreases n - i,
    {
        let mut j: usize = i + 1;
        while j < n
            invariant
                n == ids@.len(),
                0 <= i < n,
                i < j <= n,
                forall|p: int, q: int|
                    0 <= p < q < n && p < i ==> views_of(ids@)[p] != views_of(ids@)[q],
                forall|q: int| i < q < j ==> views_of(ids@)[i as int] != views_of(ids@)[q],
            decreases n - j,
        {
            if str_eq(ids[i].as_str(), ids[j].as_str()) {
                proof {
                    assert(views_of(ids@)[i as int] == views_of(ids@)[j as int]);
                }
                return false;
            }
            proof {
                assert(views_of(ids@)[i as int] == ids@[i as int]@);
                assert(views_of(ids@)[j as int] == ids@[j as int]@);
            }
            j = j + 1;
        }
        i = i + 1;
    }
    true
}

/// The finished menu tree: the ordered sequence of top-level nodes, built
/// once and immutable thereafter. Its view is that sequence.
pub struct MenuTree {
    roots: Vec<MenuNode>,
}

impl View for MenuTree {
    type V = Seq<MenuNode>;

    closed spec fn view(&self) -> Seq<MenuNode> {
        self.roots@
    }
}

impl MenuTree {
    /// Well-formedness: every accelerator obeys the grammar and every command
    /// id in the full tree is unique.
    pub open spec fn wf(&self) -> bool {
        all_accels_valid(self@) && unique_ids(self@)
    }

    /// Builds the tree from its top-level nodes. Succeeds exactly when every
    /// accelerator obeys the grammar and no two command items share an id;
    /// a malformed accelerator is reported over a duplicate id.
    pub fn new(roots: Vec<MenuNode>) -> (r: Result<MenuTree, MenuBuildError>)
        ensures
            match r {
                Ok(t) => all_accels_valid(roots@) && unique_ids(roots@) && t@ == roots@ && t.wf(),
                Err(e) => (e == MenuBuildError::InvalidAccelerator && !all_accels_valid(roots@))
                    || (e == MenuBuildError::DuplicateId && all_accels_valid(roots@)
                    && !unique_ids(roots@)),
            },
    {
        if !nodes_accels_valid(&roots) {
            return Err(MenuBuildError::InvalidAccelerator);
        }
        let mut ids: Vec<String> = Vec::new();
        collect_ids(&roots, &mut ids);
        proof {
            assert(views_of(ids@) =~= ids_in(roots@));
        }
        if !ids_distinct(&ids) {
            return Err(MenuBuildError::DuplicateId);
        }
        Ok(MenuTree { roots })
    }

    /// The ordered top-level nodes.
    pub fn roots(&self) -> (r: &Vec<MenuNode>)
        ensures
            r@ == self@,
    {
        &self.roots
    }
}

} // verus!
