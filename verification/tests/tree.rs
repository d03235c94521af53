use ixwindow::tree::{
    convert_desk_id_to_node, desktop_name, find_named, get_all_childs, get_all_desktops,
    get_all_nodes_on_mon, get_desks_on_mon, get_desktop_windows, get_desktops_number,
    get_focused_window_id, get_fullscreen_window_id, get_subnodes_type_desk, has_name,
    is_desk_empty, refs_of, Node, NodeType,
};
use ixwindow::wm::WMConnection;

fn node(nodetype: NodeType, name: &str, nodes: Vec<Node>) -> Node {
    Node { nodetype, name: Some(name.to_string()), window: None, focused: false, nodes }
}

fn window(id: i32, focused: bool) -> Node {
    Node {
        nodetype: NodeType::Con,
        name: Some(format!("window {}", id)),
        window: Some(id),
        focused,
        nodes: vec![],
    }
}

fn tree() -> Node {
    node(
        NodeType::Root,
        "root",
        vec![
            node(
                NodeType::Output,
                "__i3",
                vec![node(
                    NodeType::Con,
                    "content",
                    vec![node(NodeType::Workspace, "__i3_scratch", vec![])],
                )],
            ),
            node(
                NodeType::Output,
                "eDP-1",
                vec![
                    node(NodeType::DockArea, "topdock", vec![]),
                    node(
                        NodeType::Con,
                        "content",
                        vec![
                            node(NodeType::Workspace, "1", vec![window(100, false), window(101, true)]),
                            node(NodeType::Workspace, "2", vec![]),
                            node(NodeType::Workspace, "10", vec![window(102, false)]),
                        ],
                    ),
                ],
            ),
            node(
                NodeType::Output,
                "HDMI-1",
                vec![node(
                    NodeType::Con,
                    "content",
                    vec![node(NodeType::Workspace, "3", vec![window(200, false)])],
                )],
            ),
        ],
    )
}

fn names(nodes: &Vec<&Node>) -> Vec<String> {
    nodes.iter().map(|n| n.name.clone().unwrap()).collect()
}

struct Fullscreen(Vec<u32>);

impl WMConnection for Fullscreen {
    fn is_window_fullscreen(&mut self, window_id: u32) -> bool {
        self.0.contains(&window_id)
    }

    fn get_icon_name(&mut self, _window_id: u32) -> Option<String> {
        None
    }

    fn get_focused_desktop_id(&mut self, _monitor_name: &str) -> Option<u32> {
        None
    }

    fn is_desk_empty(&mut self, _desktop_id: u32) -> bool {
        true
    }

    fn get_focused_window_id(&mut self, _monitor_name: &str) -> Option<u32> {
        None
    }

    fn get_fullscreen_window_id(&mut self, _desktop_id: u32) -> Option<u32> {
        None
    }

    fn get_desktops_number(&mut self, _monitor_name: &str) -> u32 {
        0
    }
}

#[test]
fn workspaces_in_tree_order() {
    let tree = tree();
    assert_eq!(names(&get_all_desktops(&tree)), vec!["__i3_scratch", "1", "2", "10", "3"]);
    assert_eq!(names(&get_subnodes_type_desk(&tree.nodes[2])), vec!["3"]);
    // a workspace is not looked into
    let nested = node(NodeType::Workspace, "outer", vec![node(NodeType::Workspace, "inner", vec![])]);
    assert_eq!(names(&get_subnodes_type_desk(&nested)), vec!["outer"]);
    assert!(get_subnodes_type_desk(&window(1, false)).is_empty());
}

#[test]
fn leaves_in_tree_order() {
    let tree = tree();
    assert_eq!(
        names(&get_all_childs(&tree)),
        vec!["__i3_scratch", "topdock", "window 100", "window 101", "2", "window 102", "window 200"]
    );
    assert_eq!(names(&get_all_childs(&window(5, false))), vec!["window 5"]);
}

#[test]
fn workspaces_of_monitor() {
    let tree = tree();
    assert_eq!(names(&get_desks_on_mon(&tree, "eDP-1")), vec!["1", "2", "10"]);
    assert_eq!(names(&get_desks_on_mon(&tree, "HDMI-1")), vec!["3"]);
    assert!(get_desks_on_mon(&tree, "DP-1").is_empty());
    assert_eq!(get_desktops_number(&tree, "eDP-1"), 3);
    assert_eq!(get_desktops_number(&tree, "DP-1"), 0);
    assert_eq!(
        names(&get_all_nodes_on_mon(&tree, "eDP-1")),
        vec!["window 100", "window 101", "window 102"]
    );
    assert!(get_all_nodes_on_mon(&tree, "DP-1").is_empty());
}

#[test]
fn names_and_numbers() {
    assert_eq!(desktop_name(0), "0");
    assert_eq!(desktop_name(7), "7");
    assert_eq!(desktop_name(10), "10");
    assert_eq!(desktop_name(-1), "-1");
    assert_eq!(desktop_name(i32::MAX), "2147483647");
    assert_eq!(desktop_name(i32::MIN), "-2147483648");
    for n in [-100, -9, 5, 99, 100, 12345] {
        assert_eq!(desktop_name(n), n.to_string());
    }
    let tree = tree();
    assert!(has_name(&tree, "root"));
    assert!(!has_name(&tree, "roo"));
    let nameless = Node { nodetype: NodeType::Con, name: None, window: None, focused: false, nodes: vec![] };
    assert!(!has_name(&nameless, ""));
    let refs = refs_of(&tree.nodes);
    assert_eq!(find_named(&refs, "HDMI-1"), Some(2));
    assert_eq!(find_named(&refs, "none"), None);
}

#[test]
fn workspace_by_number() {
    let tree = tree();
    assert_eq!(convert_desk_id_to_node(&tree, 10).unwrap().name, Some("10".to_string()));
    assert_eq!(convert_desk_id_to_node(&tree, 4), None);
    assert_eq!(names(&get_desktop_windows(&tree, 1)), vec!["window 100", "window 101"]);
    assert!(get_desktop_windows(&tree, 2).is_empty());
    assert!(get_desktop_windows(&tree, 4).is_empty());
    assert_eq!(is_desk_empty(&tree, 1), Some(false));
    assert_eq!(is_desk_empty(&tree, 2), Some(true));
    assert_eq!(is_desk_empty(&tree, 4), None);
}

#[test]
fn focused_window_of_monitor() {
    let tree = tree();
    assert_eq!(get_focused_window_id(&tree, "eDP-1"), Some(101));
    assert_eq!(get_focused_window_id(&tree, "HDMI-1"), None);
    assert_eq!(get_focused_window_id(&tree, "DP-1"), None);
    // a focused node without a window ends the search
    let mut split = node(NodeType::Con, "split", vec![window(9, true)]);
    split.focused = true;
    let odd = node(
        NodeType::Root,
        "root",
        vec![node(
            NodeType::Output,
            "eDP-1",
            vec![node(NodeType::Workspace, "1", vec![split, window(10, true)])],
        )],
    );
    assert_eq!(get_focused_window_id(&odd, "eDP-1"), None);
}

#[test]
fn fullscreen_window_of_workspace() {
    let tree = tree();
    assert_eq!(get_fullscreen_window_id(&mut Fullscreen(vec![101, 102]), &tree, 1), Some(101));
    assert_eq!(get_fullscreen_window_id(&mut Fullscreen(vec![101, 102]), &tree, 10), Some(102));
    assert_eq!(get_fullscreen_window_id(&mut Fullscreen(vec![200]), &tree, 1), None);
    assert_eq!(get_fullscreen_window_id(&mut Fullscreen(vec![101]), &tree, 4), None);
}
