use ixwindow::config::WindowInfoType;
use ixwindow::events::{
    handle_bspwm_event, handle_i3_event, handle_window_event, handle_workspace_event,
    intent_of_focus, intents_of_desktop, process_state_change, BspwmEvent, I3Event, Intent,
    NodeState, WindowChange, WorkspaceChange,
};
use ixwindow::state::WindowSnapshot;
use ixwindow::wm::{
    curr_desk_contains_fullscreen, desk_contains_fullscreen, desk_emptiness, desktops_number,
    focused_desktop_id, from_query_result_to_id, is_curr_desk_empty, observe_focus, to_unsigned,
    BspwmConnection, QueryReply, WMConnection, Workspace,
};

/// A window manager that answers from a script and notes what it was asked.
struct Scripted {
    focused_desktop: Option<u32>,
    focused_windows: Vec<Option<u32>>,
    empty_desktops: Vec<u32>,
    fullscreen_on: Vec<(u32, u32)>,
    fullscreen_windows: Vec<u32>,
    desktops: u32,
    asked: Vec<String>,
}

impl Scripted {
    fn new() -> Self {
        Scripted {
            focused_desktop: Some(1),
            focused_windows: vec![],
            empty_desktops: vec![],
            fullscreen_on: vec![],
            fullscreen_windows: vec![],
            desktops: 3,
            asked: vec![],
        }
    }
}

impl WMConnection for Scripted {
    fn is_window_fullscreen(&mut self, window_id: u32) -> bool {
        self.asked.push(format!("fullscreen? {}", window_id));
        self.fullscreen_windows.contains(&window_id)
    }

    fn get_icon_name(&mut self, window_id: u32) -> Option<String> {
        self.asked.push(format!("icon name {}", window_id));
        Some(format!("app{}", window_id))
    }

    fn get_focused_desktop_id(&mut self, monitor_name: &str) -> Option<u32> {
        self.asked.push(format!("focused desktop {}", monitor_name));
        self.focused_desktop
    }

    fn is_desk_empty(&mut self, desktop_id: u32) -> bool {
        self.asked.push(format!("empty? {}", desktop_id));
        self.empty_desktops.contains(&desktop_id)
    }

    fn get_focused_window_id(&mut self, monitor_name: &str) -> Option<u32> {
        self.asked.push(format!("focused window {}", monitor_name));
        if self.focused_windows.is_empty() {
            None
        } else {
            self.focused_windows.remove(0)
        }
    }

    fn get_fullscreen_window_id(&mut self, desktop_id: u32) -> Option<u32> {
        self.asked.push(format!("fullscreen on {}", desktop_id));
        self.fullscreen_on.iter().find(|(d, _)| *d == desktop_id).map(|(_, w)| *w)
    }

    fn get_desktops_number(&mut self, monitor_name: &str) -> u32 {
        self.asked.push(format!("desktops {}", monitor_name));
        self.desktops
    }
}

#[test]
fn query_reply_to_id() {
    assert_eq!(from_query_result_to_id(&QueryReply::Ids(vec![7, 8])), Some(7));
    assert_eq!(from_query_result_to_id(&QueryReply::Ids(vec![9])), Some(9));
    // every reply without an identifier means that nothing was found
    assert_eq!(from_query_result_to_id(&QueryReply::RequestFailed(String::new())), None);
    assert_eq!(
        from_query_result_to_id(&QueryReply::RequestFailed("no such monitor".to_string())),
        None
    );
    assert_eq!(from_query_result_to_id(&QueryReply::Ids(vec![])), None);
    assert_eq!(from_query_result_to_id(&QueryReply::Broken), None);
}

#[test]
fn query_reply_to_count() {
    assert_eq!(desktops_number(&QueryReply::Ids(vec![1, 2, 3])), 3);
    assert_eq!(desktops_number(&QueryReply::Ids(vec![])), 0);
    assert_eq!(desktops_number(&QueryReply::RequestFailed(String::new())), 0);
    assert_eq!(desktops_number(&QueryReply::RequestFailed("failed".to_string())), 0);
    assert_eq!(desktops_number(&QueryReply::Broken), 0);
}

#[test]
fn workspace_numbers() {
    assert_eq!(to_unsigned(3), 3);
    assert_eq!(to_unsigned(0), 0);
    assert_eq!(to_unsigned(-1), u32::MAX);
    assert_eq!(to_unsigned(i32::MIN), 0x8000_0000);
}

#[test]
fn focused_workspace_of_monitor() {
    let ws = |num: i32, focused: bool, output: &str| Workspace {
        num,
        focused,
        output: output.to_string(),
    };
    let list = vec![
        ws(1, false, "eDP-1"),
        ws(2, true, "HDMI-1"),
        ws(3, true, "eDP-1"),
        ws(4, true, "eDP-1"),
    ];
    assert_eq!(focused_desktop_id(&list, "eDP-1"), Some(3));
    assert_eq!(focused_desktop_id(&list, "HDMI-1"), Some(2));
    assert_eq!(focused_desktop_id(&list, "DP-1"), None);
    assert_eq!(focused_desktop_id(&vec![], "eDP-1"), None);
}

#[test]
fn desktop_questions() {
    let mut wm = Scripted::new();
    wm.fullscreen_on = vec![(1, 99)];
    assert!(curr_desk_contains_fullscreen(&mut wm, "eDP-1"));
    assert_eq!(is_curr_desk_empty(&mut wm, "eDP-1"), Some(false));
    wm.empty_desktops = vec![1];
    assert_eq!(is_curr_desk_empty(&mut wm, "eDP-1"), Some(true));
    wm.focused_desktop = None;
    assert!(!curr_desk_contains_fullscreen(&mut wm, "eDP-1"));
    assert_eq!(is_curr_desk_empty(&mut wm, "eDP-1"), None);
    let _ = BspwmConnection::new();
}

#[test]
fn observe_focus_asks_and_passes_on() {
    let mut wm = Scripted::new();
    wm.fullscreen_windows = vec![5];
    let window = WindowSnapshot {
        id: 5,
        display_name: "mpv".to_string(),
        name_type: WindowInfoType::WmClass,
        icon_identity: "mpv".to_string(),
    };
    let obs = observe_focus(&mut wm, "eDP-1", window.clone(), 33, true);
    assert_eq!(obs.window, window);
    assert!(obs.fullscreen);
    assert!(!obs.desktop_has_fullscreen);
    assert_eq!(obs.desktop_count, 3);
    assert_eq!(obs.icon_x, 33);
    assert!(obs.icon_cached);
}

#[test]
fn plain_intents() {
    assert_eq!(intent_of_focus(Some(4)), Intent::WindowFocused(4));
    assert_eq!(intent_of_focus(None), Intent::DesktopEmpty);
    assert_eq!(intents_of_desktop(false, None), vec![]);
    assert_eq!(intents_of_desktop(true, None), vec![Intent::DesktopEmpty]);
    assert_eq!(intents_of_desktop(false, Some(1)), vec![Intent::FullscreenEntered]);
    assert_eq!(
        intents_of_desktop(true, Some(1)),
        vec![Intent::DesktopEmpty, Intent::FullscreenEntered]
    );
    assert_eq!(process_state_change(9, NodeState::Fullscreen), Intent::FullscreenEntered);
    assert_eq!(process_state_change(9, NodeState::Tiled), Intent::WindowFocused(9));
    assert_eq!(process_state_change(9, NodeState::Floating), Intent::WindowFocused(9));
    assert_eq!(process_state_change(9, NodeState::PseudoTiled), Intent::WindowFocused(9));
}

#[test]
fn bspwm_events() {
    let mut wm = Scripted::new();
    assert_eq!(
        handle_bspwm_event(&mut wm, "eDP-1", BspwmEvent::NodeFocus { node_id: 11 }),
        vec![Intent::WindowFocused(11)]
    );
    assert_eq!(
        handle_bspwm_event(&mut wm, "eDP-1", BspwmEvent::NodeState { node_id: 12 }),
        vec![Intent::WindowFocused(12)]
    );
    assert!(wm.asked.is_empty());

    wm.focused_windows = vec![Some(13), None];
    assert_eq!(
        handle_bspwm_event(&mut wm, "eDP-1", BspwmEvent::NodeRemove),
        vec![Intent::WindowFocused(13)]
    );
    assert_eq!(
        handle_bspwm_event(&mut wm, "eDP-1", BspwmEvent::NodeRemove),
        vec![Intent::DesktopEmpty]
    );

    wm.empty_desktops = vec![2];
    assert_eq!(
        handle_bspwm_event(&mut wm, "eDP-1", BspwmEvent::NodeFlag { desktop_id: 2 }),
        vec![Intent::DesktopEmpty]
    );
    assert_eq!(handle_bspwm_event(&mut wm, "eDP-1", BspwmEvent::NodeFlag { desktop_id: 3 }), vec![]);

    wm.fullscreen_on = vec![(3, 77)];
    assert_eq!(
        handle_bspwm_event(&mut wm, "eDP-1", BspwmEvent::DesktopFocus { desktop_id: 3 }),
        vec![Intent::FullscreenEntered]
    );
    assert_eq!(
        handle_bspwm_event(&mut wm, "eDP-1", BspwmEvent::DesktopFocus { desktop_id: 2 }),
        vec![Intent::DesktopEmpty]
    );
    assert_eq!(
        handle_bspwm_event(&mut wm, "eDP-1", BspwmEvent::DesktopFocus { desktop_id: 4 }),
        vec![]
    );
}

#[test]
fn i3_window_events() {
    let mut wm = Scripted::new();
    assert_eq!(
        handle_window_event(&mut wm, "eDP-1", WindowChange::Focus, Some(5)),
        vec![Intent::WindowFocused(5)]
    );
    assert_eq!(
        handle_window_event(&mut wm, "eDP-1", WindowChange::FullscreenMode, Some(5)),
        vec![Intent::WindowFocused(5)]
    );
    assert_eq!(handle_window_event(&mut wm, "eDP-1", WindowChange::Other, Some(5)), vec![]);
    assert!(wm.asked.is_empty());

    wm.focused_windows = vec![Some(6), None];
    assert_eq!(
        handle_window_event(&mut wm, "eDP-1", WindowChange::Close, Some(5)),
        vec![Intent::WindowFocused(6)]
    );
    assert_eq!(
        handle_window_event(&mut wm, "eDP-1", WindowChange::Close, Some(5)),
        vec![Intent::DesktopEmpty]
    );

    // a window sent to the scratchpad has no handle
    wm.focused_windows = vec![Some(8)];
    assert_eq!(
        handle_window_event(&mut wm, "eDP-1", WindowChange::Focus, None),
        vec![Intent::WindowFocused(8)]
    );
    wm.focused_windows = vec![None];
    assert_eq!(
        handle_window_event(&mut wm, "eDP-1", WindowChange::Other, None),
        vec![Intent::DesktopEmpty]
    );
    wm.focused_windows = vec![Some(8), Some(9)];
    assert_eq!(
        handle_window_event(&mut wm, "eDP-1", WindowChange::Close, None),
        vec![Intent::WindowFocused(9)]
    );
}

#[test]
fn i3_workspace_and_general_events() {
    let mut wm = Scripted::new();
    wm.empty_desktops = vec![1];
    assert_eq!(
        handle_workspace_event(&mut wm, "eDP-1", WorkspaceChange::Focus),
        vec![Intent::DesktopEmpty]
    );
    wm.empty_desktops = vec![];
    wm.fullscreen_on = vec![(1, 4)];
    assert_eq!(
        handle_workspace_event(&mut wm, "eDP-1", WorkspaceChange::Focus),
        vec![Intent::FullscreenEntered]
    );
    wm.focused_desktop = None;
    assert_eq!(handle_workspace_event(&mut wm, "eDP-1", WorkspaceChange::Focus), vec![]);
    assert_eq!(
        handle_workspace_event(&mut wm, "eDP-1", WorkspaceChange::Init),
        vec![Intent::DesktopEmpty]
    );
    assert_eq!(handle_workspace_event(&mut wm, "eDP-1", WorkspaceChange::Other), vec![]);

    wm.focused_windows = vec![Some(3), None];
    assert_eq!(handle_i3_event(&mut wm, "eDP-1", I3Event::General), vec![Intent::WindowFocused(3)]);
    assert_eq!(handle_i3_event(&mut wm, "eDP-1", I3Event::General), vec![Intent::DesktopEmpty]);
    assert_eq!(
        handle_i3_event(
            &mut wm,
            "eDP-1",
            I3Event::Window { change: WindowChange::Focus, window: Some(2) }
        ),
        vec![Intent::WindowFocused(2)]
    );
    assert_eq!(
        handle_i3_event(&mut wm, "eDP-1", I3Event::Workspace { shift: WorkspaceChange::Init }),
        vec![Intent::DesktopEmpty]
    );
}

#[test]
fn desktop_answers_read() {
    assert!(desk_contains_fullscreen(Some(1), Some(99)));
    assert!(!desk_contains_fullscreen(Some(1), None));
    assert!(!desk_contains_fullscreen(None, Some(99)));
    assert!(!desk_contains_fullscreen(None, None));
    assert_eq!(desk_emptiness(Some(1), true), Some(true));
    assert_eq!(desk_emptiness(Some(1), false), Some(false));
    assert_eq!(desk_emptiness(None, true), None);
    assert_eq!(desk_emptiness(None, false), None);
}

#[test]
fn desktop_questions_ask_only_what_is_needed() {
    let mut wm = Scripted::new();
    wm.focused_desktop = None;
    assert!(!curr_desk_contains_fullscreen(&mut wm, "eDP-1"));
    assert_eq!(is_curr_desk_empty(&mut wm, "eDP-1"), None);
    assert_eq!(wm.asked, vec!["focused desktop eDP-1", "focused desktop eDP-1"]);
    wm.asked.clear();
    wm.focused_desktop = Some(4);
    wm.fullscreen_on = vec![(4, 7)];
    assert!(curr_desk_contains_fullscreen(&mut wm, "eDP-1"));
    assert_eq!(wm.asked, vec!["focused desktop eDP-1", "fullscreen on 4"]);
}
