//! The layout tree of i3: outputs hold workspaces, workspaces hold
//! windows. What the engine asks of i3 is answered from this tree.

use crate::text::same_text;
use crate::wm::{as_unsigned, to_unsigned, WMConnection};
use vstd::prelude::*;

verus! {

/// The kind of a node of the layout tree.
#[derive(Clone, Copy, Debug, PartialEq, Eq, Structural)]
pub enum NodeType {
    Root,
    Output,
    Con,
    FloatingCon,
    Workspace,
    DockArea,
    Unknown,
}

/// A node of the layout tree, as far as the engine reads it.
#[derive(Debug, PartialEq, Eq)]
pub struct Node {
    pub nodetype: NodeType,
    pub name: Option<String>,
    /// The handle of the window that the node shows, if it shows one.
    pub window: Option<i32>,
    pub focused: bool,
    /// The nodes below this one.
    pub nodes: Vec<Node>,
}

/// The workspaces at or below `node`, in the order of the tree. A
/// workspace is not looked into.
pub open spec fn desks_under(node: Node) -> Seq<Node>
    decreases node, 0int,
{
    if node.nodetype == NodeType::Workspace {
        seq![node]
    } else {
        desks_from(node.nodes@, 0)
    }
}

/// The workspaces at or below the nodes of `nodes` from position `i` on.
pub open spec fn desks_from(nodes: Seq<Node>, i: int) -> Seq<Node>
    decreases nodes, nodes.len() - i,
{
    if 0 <= i < nodes.len() {
        desks_under(nodes[i]) + desks_from(nodes, i + 1)
    } else {
        Seq::empty()
    }
}

/// The nodes that a list of references points to.
pub open spec fn pointed(refs: Seq<&Node>) -> Seq<Node> {
    Seq::new(refs.len(), |k: int| *refs[k])
}

/// The workspaces at or below `node`, in the order of the tree.
pub fn get_subnodes_type_desk(node: &Node) -> (desks: Vec<&Node>)
    ensures
        pointed(desks@) == desks_under(*node),
    decreases node,
{
    let mut desks: Vec<&Node> = Vec::new();
    if node.nodetype == NodeType::Workspace {
        desks.push(node);
        return desks;
    }
    let mut i: usize = 0;
    while i < node.nodes.len()
        invariant
            i <= node.nodes@.len(),
            pointed(desks@) + desks_from(node.nodes@, i as int) == desks_from(node.nodes@, 0),
        decreases node.nodes@.len() - i,
    {
        let below = get_subnodes_type_desk(&node.nodes[i]);
        append_refs(&mut desks, &below);
        i += 1;
    }
    desks
}

/// Appends the references of `more` to `list`.
fn append_refs<'a>(list: &mut Vec<&'a Node>, more: &Vec<&'a Node>)
    ensures
        pointed(final(list)@) == pointed(old(list)@) + pointed(more@),
{
    let ghost before = pointed(list@);
    let mut k: usize = 0;
    while k < more.len()
        invariant
            k <= more@.len(),
            pointed(list@) == before + pointed(more@).take(k as int),
        decreases more@.len() - k,
    {
        let ghost so_far = list@;
        list.push(more[k]);
        k += 1;
        assert(pointed(list@) =~= pointed(so_far).push(*more@[k - 1]));
    }
}

/// The nodes at or below `node` that have no node below them: mostly
/// the windows.
pub open spec fn leaves_under(node: Node) -> Seq<Node>
    decreases node, 0int,
{
    if node.nodes@.len() == 0 {
        seq![node]
    } else {
        leaves_from(node.nodes@, 0)
    }
}

/// The leaves at or below the nodes of `nodes` from position `i` on.
pub open spec fn leaves_from(nodes: Seq<Node>, i: int) -> Seq<Node>
    decreases nodes, nodes.len() - i,
{
    if 0 <= i < nodes.len() {
        leaves_under(nodes[i]) + leaves_from(nodes, i + 1)
    } else {
        Seq::empty()
    }
}

/// The nodes at or below `node` that have no node below them, in the
/// order of the tree.
pub fn get_all_childs(node: &Node) -> (leaves: Vec<&Node>)
    ensures
        pointed(leaves@) == leaves_under(*node),
    decreases node,
{
    let mut leaves: Vec<&Node> = Vec::new();
    if node.nodes.len() == 0 {
        leaves.push(node);
        return leaves;
    }
    let mut i: usize = 0;
    while i < node.nodes.len()
        invariant
            i <= node.nodes@.len(),
            pointed(leaves@) + leaves_from(node.nodes@, i as int) == leaves_from(node.nodes@, 0),
        decreases node.nodes@.len() - i,
    {
        let below = get_all_childs(&node.nodes[i]);
        append_refs(&mut leaves, &below);
        i += 1;
    }
    leaves
}

/// All workspaces of the tree, the scratchpad among them.
pub fn get_all_desktops(tree: &Node) -> (desks: Vec<&Node>)
    ensures
        pointed(desks@) == desks_under(*tree),
{
    get_subnodes_type_desk(tree)
}

/// Whether `node` bears the name `name`.
pub open spec fn is_named(node: Node, name: Seq<char>) -> bool {
    node.name matches Some(text) && text@ == name
}

/// Whether `node` bears the name `name`.
pub fn has_name(node: &Node, name: &str) -> (named: bool)
    ensures
        named == is_named(*node, name@),
{
    match &node.name {
        Some(text) => same_text(text.as_str(), name),
        None => false,
    }
}

/// The position of the first node named `name` among `nodes` from `i`
/// on.
pub open spec fn first_named(nodes: Seq<Node>, name: Seq<char>, i: int) -> Option<int>
    decreases nodes.len() - i,
{
    if !(0 <= i < nodes.len()) {
        None
    } else if is_named(nodes[i], name) {
        Some(i)
    } else {
        first_named(nodes, name, i + 1)
    }
}

/// Finds the first node named `name` among `nodes`.
pub fn find_named(nodes: &Vec<&Node>, name: &str) -> (found: Option<usize>)
    ensures
        match found {
            Some(k) => first_named(pointed(nodes@), name@, 0) == Some(k as int) && k < nodes@.len(),
            None => first_named(pointed(nodes@), name@, 0) is None,
        },
{
    let mut i: usize = 0;
    while i < nodes.len()
        invariant
            i <= nodes@.len(),
            first_named(pointed(nodes@), name@, 0) == first_named(pointed(nodes@), name@, i as int),
        decreases nodes@.len() - i,
    {
        if has_name(nodes[i], name) {
            return Some(i);
        }
        i += 1;
    }
    None
}

/// References to the nodes of `nodes`, one by one.
pub fn refs_of(nodes: &Vec<Node>) -> (refs: Vec<&Node>)
    ensures
        pointed(refs@) == nodes@,
{
    let mut refs: Vec<&Node> = Vec::new();
    let mut i: usize = 0;
    while i < nodes.len()
        invariant
            i <= nodes@.len(),
            pointed(refs@) == nodes@.take(i as int),
        decreases nodes@.len() - i,
    {
        let ghost so_far = refs@;
        refs.push(&nodes[i]);
        i += 1;
        assert(pointed(refs@) =~= pointed(so_far).push(nodes@[i - 1]));
    }
    refs
}

/// The workspaces of the monitor `monitor_name`: those at or below the
/// first node of that name right under the root.
pub open spec fn desks_on_mon(tree: Node, monitor_name: Seq<char>) -> Seq<Node> {
    match first_named(tree.nodes@, monitor_name, 0) {
        Some(k) => desks_under(tree.nodes@[k]),
        None => Seq::empty(),
    }
}

/// The workspaces of the monitor `monitor_name`.
pub fn get_desks_on_mon<'a>(tree: &'a Node, monitor_name: &str) -> (desks: Vec<&'a Node>)
    ensures
        pointed(desks@) == desks_on_mon(*tree, monitor_name@),
{
    let monitors = refs_of(&tree.nodes);
    match find_named(&monitors, monitor_name) {
        Some(k) => {
            get_subnodes_type_desk(monitors[k])
        },
        None => {
            let desks: Vec<&Node> = Vec::new();
            desks
        },
    }
}

/// The number of workspaces of the monitor `monitor_name`.
pub fn get_desktops_number(tree: &Node, monitor_name: &str) -> (count: u32)
    ensures
        count == if desks_on_mon(*tree, monitor_name@).len() <= u32::MAX {
            desks_on_mon(*tree, monitor_name@).len() as u32
        } else {
            u32::MAX
        },
{
    let desks = get_desks_on_mon(tree, monitor_name);
    if desks.len() <= 0xffff_ffff {
        desks.len() as u32
    } else {
        0xffff_ffff
    }
}

/// The nodes right under the nodes of `parents` from position `i` on.
pub open spec fn children_from(parents: Seq<Node>, i: int) -> Seq<Node>
    decreases parents.len() - i,
{
    if 0 <= i < parents.len() {
        parents[i].nodes@ + children_from(parents, i + 1)
    } else {
        Seq::empty()
    }
}

/// The nodes right under the workspaces of the monitor `monitor_name`.
pub fn get_all_nodes_on_mon<'a>(tree: &'a Node, monitor_name: &str) -> (nodes: Vec<&'a Node>)
    ensures
        pointed(nodes@) == children_from(desks_on_mon(*tree, monitor_name@), 0),
{
    let desks = get_desks_on_mon(tree, monitor_name);
    let ghost parents = pointed(desks@);
    let mut nodes: Vec<&Node> = Vec::new();
    let mut i: usize = 0;
    while i < desks.len()
        invariant
            i <= desks@.len(),
            parents == pointed(desks@),
            pointed(nodes@) + children_from(parents, i as int) == children_from(parents, 0),
        decreases desks@.len() - i,
    {
        let children = refs_of(&desks[i].nodes);
        append_refs(&mut nodes, &children);
        i += 1;
    }
    nodes
}

/// The character of a digit.
pub open spec fn digit_char(d: int) -> char {
    (d + 48) as u8 as char
}

/// The digits of `n` in base ten, without leading zeros.
pub open spec fn digits(n: nat) -> Seq<char>
    decreases n,
{
    if n < 10 {
        seq![digit_char(n as int)]
    } else {
        digits(n / 10).push(digit_char((n % 10) as int))
    }
}

/// `n` written in base ten, with a minus sign where it is negative.
pub open spec fn decimal(n: int) -> Seq<char> {
    if n < 0 {
        seq!['-'] + digits((-n) as nat)
    } else {
        digits(n as nat)
    }
}

/// Appends the digits of `n` to `out`.
fn push_digits(out: &mut String, n: u64)
    ensures
        final(out)@ == old(out)@ + digits(n as nat),
    decreases n,
{
    if n >= 10 {
        push_digits(out, n / 10);
    }
    let d: u8 = (n % 10) as u8;
    out.push((d + 48) as char);
}

/// The name that i3 gives the workspace with the number `desktop_id`:
/// the number in base ten.
pub fn desktop_name(desktop_id: i32) -> (name: String)
    ensures
        name@ == decimal(desktop_id as int),
{
    let mut name = String::new();
    if desktop_id < 0 {
        name.push('-');
        push_digits(&mut name, (-(desktop_id as i64)) as u64);
    } else {
        push_digits(&mut name, desktop_id as u64);
    }
    name
}

/// The workspace with the number `desktop_id`: the first workspace of
/// the tree that is named by the number.
pub open spec fn desk_of_id(tree: Node, desktop_id: int) -> Option<Node> {
    match first_named(desks_under(tree), decimal(desktop_id), 0) {
        Some(k) => Some(desks_under(tree)[k]),
        None => None,
    }
}

/// Finds the workspace with the number `desktop_id`.
pub fn convert_desk_id_to_node(tree: &Node, desktop_id: i32) -> (desk: Option<&Node>)
    ensures
        match desk {
            Some(d) => desk_of_id(*tree, desktop_id as int) == Some(*d),
            None => desk_of_id(*tree, desktop_id as int) is None,
        },
{
    let desktops = get_all_desktops(tree);
    let name = desktop_name(desktop_id);
    match find_named(&desktops, name.as_str()) {
        Some(k) => {
            Some(desktops[k])
        },
        None => None,
    }
}

/// The nodes right under the workspace with the number `desktop_id`;
/// none where there is no such workspace.
pub open spec fn windows_of_desk(tree: Node, desktop_id: int) -> Seq<Node> {
    match desk_of_id(tree, desktop_id) {
        Some(d) => d.nodes@,
        None => Seq::empty(),
    }
}

/// The nodes right under the workspace with the number `desktop_id`.
pub fn get_desktop_windows(tree: &Node, desktop_id: i32) -> (windows: Vec<&Node>)
    ensures
        pointed(windows@) == windows_of_desk(*tree, desktop_id as int),
{
    match convert_desk_id_to_node(tree, desktop_id) {
        Some(desk) => refs_of(&desk.nodes),
        None => {
            let windows: Vec<&Node> = Vec::new();
            windows
        },
    }
}

/// Whether the workspace with the number `desktop_id` holds no node;
/// `None` where there is no such workspace.
pub fn is_desk_empty(tree: &Node, desktop_id: i32) -> (empty: Option<bool>)
    ensures
        match desk_of_id(*tree, desktop_id as int) {
            Some(d) => empty == Some(d.nodes@.len() == 0),
            None => empty is None,
        },
{
    match convert_desk_id_to_node(tree, desktop_id) {
        Some(desk) => Some(desk.nodes.len() == 0),
        None => None,
    }
}

/// The position of the first focused node among `nodes` from `i` on.
pub open spec fn first_focused(nodes: Seq<Node>, i: int) -> Option<int>
    decreases nodes.len() - i,
{
    if !(0 <= i < nodes.len()) {
        None
    } else if nodes[i].focused {
        Some(i)
    } else {
        first_focused(nodes, i + 1)
    }
}

/// The handle of an optional window as the engine counts handles.
pub open spec fn window_id_of(window: Option<i32>) -> Option<u32> {
    match window {
        Some(w) => Some(as_unsigned(w)),
        None => None,
    }
}

/// The focused window of the monitor `monitor_name`: the window of the
/// first focused node right under one of its workspaces. A focused node
/// that shows no window gives none.
pub open spec fn focused_window_of(tree: Node, monitor_name: Seq<char>) -> Option<u32> {
    let nodes = children_from(desks_on_mon(tree, monitor_name), 0);
    match first_focused(nodes, 0) {
        Some(k) => window_id_of(nodes[k].window),
        None => None,
    }
}

/// The focused window of the monitor `monitor_name`.
pub fn get_focused_window_id(tree: &Node, monitor_name: &str) -> (window: Option<u32>)
    ensures
        window == focused_window_of(*tree, monitor_name@),
{
    let nodes = get_all_nodes_on_mon(tree, monitor_name);
    let mut i: usize = 0;
    while i < nodes.len()
        invariant
            i <= nodes@.len(),
            pointed(nodes@) == children_from(desks_on_mon(*tree, monitor_name@), 0),
            first_focused(pointed(nodes@), 0) == first_focused(pointed(nodes@), i as int),
        decreases nodes@.len() - i,
    {
        let node = nodes[i];
        if node.focused {
            return match node.window {
                Some(w) => Some(to_unsigned(w)),
                None => None,
            };
        }
        i += 1;
    }
    None
}

/// The first window among `nodes` from `i` on that is called
/// fullscreen, where `answers` holds, node by node, what the window
/// manager says of the node's window.
pub open spec fn first_fullscreen(nodes: Seq<Node>, answers: Seq<bool>, i: int) -> Option<u32>
    decreases nodes.len() - i,
{
    if !(0 <= i < nodes.len()) {
        None
    } else if nodes[i].window is Some && answers[i] {
        window_id_of(nodes[i].window)
    } else {
        first_fullscreen(nodes, answers, i + 1)
    }
}

/// The first fullscreen window does not depend on the answers for the
/// nodes behind it.
proof fn lemma_first_fullscreen_prefix(
    nodes: Seq<Node>,
    given: Seq<bool>,
    padded: Seq<bool>,
    upto: int,
    i: int,
)
    requires
        0 <= i <= upto <= nodes.len(),
        given.len() >= upto,
        padded.len() >= upto,
        forall|k: int| 0 <= k < upto ==> given[k] == padded[k],
    ensures
        upto < nodes.len() && nodes[upto].window is Some && padded[upto] && (forall|k: int|
            i <= k < upto ==> !(nodes[k].window is Some && given[k])) ==> first_fullscreen(
            nodes,
            padded,
            i,
        ) == window_id_of(nodes[upto].window),
        upto == nodes.len() && (forall|k: int|
            i <= k < upto ==> !(nodes[k].window is Some && given[k])) ==> first_fullscreen(
            nodes,
            padded,
            i,
        ) is None,
    decreases upto - i,
{
    if i < upto {
        lemma_first_fullscreen_prefix(nodes, given, padded, upto, i + 1);
    }
}

/// A fullscreen window of the workspace with the number `desktop_id`:
/// the first of its windows that the window manager calls fullscreen.
/// The window manager is asked window by window until it says yes.
pub fn get_fullscreen_window_id<W: WMConnection>(
    conn: &mut W,
    tree: &Node,
    desktop_id: i32,
) -> (window: Option<u32>)
    ensures
        exists|answers: Seq<bool>|
            answers.len() == windows_of_desk(*tree, desktop_id as int).len() && window
                == #[trigger] first_fullscreen(windows_of_desk(*tree, desktop_id as int), answers, 0),
{
    let nodes = get_desktop_windows(tree, desktop_id);
    let ghost windows = windows_of_desk(*tree, desktop_id as int);
    let ghost mut answers: Seq<bool> = Seq::empty();
    let mut i: usize = 0;
    while i < nodes.len()
        invariant
            i <= nodes@.len(),
            pointed(nodes@) == windows,
            windows == windows_of_desk(*tree, desktop_id as int),
            answers.len() == i,
            forall|k: int| 0 <= k < i ==> !(windows[k].window is Some && answers[k]),
        decreases nodes@.len() - i,
    {
        let node = nodes[i];
        if let Some(w) = node.window {
            let id = to_unsigned(w);
            if conn.is_window_fullscreen(id) {
                proof {
                    let padded = Seq::new(
                        windows.len(),
                        |k: int|
                            if k < i {
                                answers[k]
                            } else {
                                true
                            },
                    );
                    lemma_first_fullscreen_prefix(windows, answers, padded, i as int, 0);
                }
                return Some(id);
            }
        }
        proof {
            answers = answers.push(false);
        }
        i += 1;
    }
    proof {
        lemma_first_fullscreen_prefix(windows, answers, answers, i as int, 0);
    }
    None
}

} // verus!
