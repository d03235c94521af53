//! From the events of a window manager to what the engine is told: a
//! window gained the focus, the desktop is empty, a window is
//! fullscreen.

use crate::wm::WMConnection;
use vstd::prelude::*;

verus! {

/// What the engine is told.
#[derive(Clone, Copy, Debug, PartialEq, Eq, Structural)]
pub enum Intent {
    /// The window gained the focus.
    WindowFocused(u32),
    /// The focused desktop holds no window.
    DesktopEmpty,
    /// A window of the focused desktop is fullscreen.
    FullscreenEntered,
}

/// The state that bspwm reports for a node.
#[derive(Clone, Copy, Debug, PartialEq, Eq, Structural)]
pub enum NodeState {
    Tiled,
    PseudoTiled,
    Floating,
    Fullscreen,
}

/// An event of bspwm, as far as the engine cares.
#[derive(Clone, Copy, Debug, PartialEq, Eq, Structural)]
pub enum BspwmEvent {
    /// A node gained the focus.
    NodeFocus { node_id: u32 },
    /// A node was removed.
    NodeRemove,
    /// A flag of a node on the desktop changed; the node may have been
    /// hidden.
    NodeFlag { desktop_id: u32 },
    /// The state of a node changed.
    NodeState { node_id: u32 },
    /// A desktop gained the focus.
    DesktopFocus { desktop_id: u32 },
}

/// What a window event of i3 reports.
#[derive(Clone, Copy, Debug, PartialEq, Eq, Structural)]
pub enum WindowChange {
    Focus,
    Close,
    FullscreenMode,
    Other,
}

/// What a workspace event of i3 reports.
#[derive(Clone, Copy, Debug, PartialEq, Eq, Structural)]
pub enum WorkspaceChange {
    Focus,
    Init,
    Other,
}

/// An event of i3, as far as the engine cares.
#[derive(Clone, Copy, Debug, PartialEq, Eq, Structural)]
pub enum I3Event {
    /// Something happened to a window; `window` is its handle, absent
    /// where the window was sent to the scratchpad.
    Window { change: WindowChange, window: Option<u32> },
    /// Something happened to a workspace.
    Workspace { shift: WorkspaceChange },
    /// The binding mode changed or an output came or went.
    General,
}

/// What the focused window, or the lack of one, tells the engine.
pub open spec fn focus_intent(focused_window: Option<u32>) -> Intent {
    match focused_window {
        Some(id) => Intent::WindowFocused(id),
        None => Intent::DesktopEmpty,
    }
}

/// What a desktop that gained the focus tells the engine: that it is
/// empty, if it is, and that a window is fullscreen, if one is.
pub open spec fn desktop_intents(desk_empty: bool, fullscreen_window: Option<u32>) -> Seq<Intent> {
    let first = if desk_empty {
        seq![Intent::DesktopEmpty]
    } else {
        Seq::<Intent>::empty()
    };
    if fullscreen_window is Some {
        first.push(Intent::FullscreenEntered)
    } else {
        first
    }
}

/// What an event of bspwm tells the engine, given the focused window
/// of the monitor, whether the event's desktop is empty, and the
/// fullscreen window of that desktop.
pub open spec fn bspwm_intents(
    event: BspwmEvent,
    focused_window: Option<u32>,
    desk_empty: bool,
    fullscreen_window: Option<u32>,
) -> Seq<Intent> {
    match event {
        BspwmEvent::NodeFocus { node_id } => seq![Intent::WindowFocused(node_id)],
        BspwmEvent::NodeRemove => seq![focus_intent(focused_window)],
        BspwmEvent::NodeFlag { desktop_id } => if desk_empty {
            seq![Intent::DesktopEmpty]
        } else {
            Seq::<Intent>::empty()
        },
        BspwmEvent::NodeState { node_id } => seq![Intent::WindowFocused(node_id)],
        BspwmEvent::DesktopFocus { desktop_id } => desktop_intents(desk_empty, fullscreen_window),
    }
}

/// What a window event of i3 tells the engine. `stand_in` is the
/// focused window of the monitor as asked for an event without a
/// handle, `focused_window` the focused window as asked after a close.
pub open spec fn i3_window_intents(
    change: WindowChange,
    window: Option<u32>,
    stand_in: Option<u32>,
    focused_window: Option<u32>,
) -> Seq<Intent> {
    let id = match window {
        Some(w) => Some(w),
        None => stand_in,
    };
    match id {
        None => seq![Intent::DesktopEmpty],
        Some(w) => match change {
            WindowChange::Focus => seq![Intent::WindowFocused(w)],
            WindowChange::Close => seq![focus_intent(focused_window)],
            WindowChange::FullscreenMode => seq![Intent::WindowFocused(w)],
            WindowChange::Other => Seq::<Intent>::empty(),
        },
    }
}

/// What a workspace event of i3 tells the engine, given the focused
/// desktop of the monitor, whether it is empty, and its fullscreen
/// window.
pub open spec fn i3_workspace_intents(
    change: WorkspaceChange,
    focused_desktop: Option<u32>,
    desk_empty: bool,
    fullscreen_window: Option<u32>,
) -> Seq<Intent> {
    match change {
        WorkspaceChange::Focus => match focused_desktop {
            Some(_) => desktop_intents(desk_empty, fullscreen_window),
            None => Seq::<Intent>::empty(),
        },
        WorkspaceChange::Init => seq![Intent::DesktopEmpty],
        WorkspaceChange::Other => Seq::<Intent>::empty(),
    }
}

/// What the focused window, or the lack of one, tells the engine.
pub fn intent_of_focus(focused_window: Option<u32>) -> (intent: Intent)
    ensures
        intent == focus_intent(focused_window),
{
    match focused_window {
        Some(id) => Intent::WindowFocused(id),
        None => Intent::DesktopEmpty,
    }
}

/// What a desktop that gained the focus tells the engine.
pub fn intents_of_desktop(desk_empty: bool, fullscreen_window: Option<u32>) -> (intents: Vec<
    Intent,
>)
    ensures
        intents@ == desktop_intents(desk_empty, fullscreen_window),
{
    let mut intents: Vec<Intent> = Vec::new();
    if desk_empty {
        intents.push(Intent::DesktopEmpty);
    }
    if fullscreen_window.is_some() {
        intents.push(Intent::FullscreenEntered);
    }
    intents
}

/// One intent as a list.
fn single(intent: Intent) -> (intents: Vec<Intent>)
    ensures
        intents@ == seq![intent],
{
    let mut intents: Vec<Intent> = Vec::new();
    intents.push(intent);
    intents
}

/// What a change of a node's state asks of the engine: a node that
/// went fullscreen takes the icon off, any other state has the window
/// handled as focused.
pub fn process_state_change(window_id: u32, state: NodeState) -> (intent: Intent)
    ensures
        intent == if state == NodeState::Fullscreen {
            Intent::FullscreenEntered
        } else {
            Intent::WindowFocused(window_id)
        },
{
    match state {
        NodeState::Fullscreen => Intent::FullscreenEntered,
        _ => Intent::WindowFocused(window_id),
    }
}

/// Turns an event of bspwm into what the engine is told. The window
/// manager is asked only what the event calls for: the focused window
/// after a removal, the emptiness of the desktop after a flag, both
/// the emptiness and the fullscreen window of a desktop that gained
/// the focus.
pub fn handle_bspwm_event<W: WMConnection>(
    conn: &mut W,
    monitor_name: &str,
    event: BspwmEvent,
) -> (intents: Vec<Intent>)
    ensures
        exists|focused_window: Option<u32>, desk_empty: bool, fullscreen_window: Option<u32>|
            intents@ == bspwm_intents(event, focused_window, desk_empty, fullscreen_window),
{
    match event {
        BspwmEvent::NodeFocus { node_id } => {
            let intents = single(Intent::WindowFocused(node_id));
            assert(intents@ == bspwm_intents(event, None, false, None));
            intents
        },
        BspwmEvent::NodeRemove => {
            let focused_window = conn.get_focused_window_id(monitor_name);
            let intents = single(intent_of_focus(focused_window));
            assert(intents@ == bspwm_intents(event, focused_window, false, None));
            intents
        },
        BspwmEvent::NodeFlag { desktop_id } => {
            let desk_empty = conn.is_desk_empty(desktop_id);
            let intents = intents_of_desktop(desk_empty, None);
            assert(intents@ == bspwm_intents(event, None, desk_empty, None));
            intents
        },
        BspwmEvent::NodeState { node_id } => {
            let intents = single(Intent::WindowFocused(node_id));
            assert(intents@ == bspwm_intents(event, None, false, None));
            intents
        },
        BspwmEvent::DesktopFocus { desktop_id } => {
            let desk_empty = conn.is_desk_empty(desktop_id);
            let fullscreen_window = conn.get_fullscreen_window_id(desktop_id);
            let intents = intents_of_desktop(desk_empty, fullscreen_window);
            assert(intents@ == bspwm_intents(event, None, desk_empty, fullscreen_window));
            intents
        },
    }
}

/// Turns a window event of i3 into what the engine is told. A window
/// without a handle was sent to the scratchpad: the focused window of
/// the monitor stands in for it, and without one the desktop is
/// empty. After a close the focused window is asked for.
pub fn handle_window_event<W: WMConnection>(
    conn: &mut W,
    monitor_name: &str,
    change: WindowChange,
    window: Option<u32>,
) -> (intents: Vec<Intent>)
    ensures
        exists|stand_in: Option<u32>, focused_window: Option<u32>|
            intents@ == i3_window_intents(change, window, stand_in, focused_window),
{
    let stand_in = match window {
        Some(_) => None,
        None => conn.get_focused_window_id(monitor_name),
    };
    let id: u32 = match (window, stand_in) {
        (Some(w), _) => w,
        (None, Some(w)) => w,
        (None, None) => {
            let intents = single(Intent::DesktopEmpty);
            assert(intents@ == i3_window_intents(change, window, stand_in, None));
            return intents;
        },
    };
    match change {
        WindowChange::Focus => {
            let intents = single(Intent::WindowFocused(id));
            assert(intents@ == i3_window_intents(change, window, stand_in, None));
            intents
        },
        WindowChange::Close => {
            let focused_window = conn.get_focused_window_id(monitor_name);
            let intents = single(intent_of_focus(focused_window));
            assert(intents@ == i3_window_intents(change, window, stand_in, focused_window));
            intents
        },
        WindowChange::FullscreenMode => {
            let intents = single(Intent::WindowFocused(id));
            assert(intents@ == i3_window_intents(change, window, stand_in, None));
            intents
        },
        WindowChange::Other => {
            let intents: Vec<Intent> = Vec::new();
            assert(intents@ == i3_window_intents(change, window, stand_in, None));
            intents
        },
    }
}

/// Turns a workspace event of i3 into what the engine is told.
pub fn handle_workspace_event<W: WMConnection>(
    conn: &mut W,
    monitor_name: &str,
    change: WorkspaceChange,
) -> (intents: Vec<Intent>)
    ensures
        exists|focused_desktop: Option<u32>, desk_empty: bool, fullscreen_window: Option<u32>|
            intents@ == i3_workspace_intents(
                change,
                focused_desktop,
                desk_empty,
                fullscreen_window,
            ),
{
    match change {
        WorkspaceChange::Focus => {
            match conn.get_focused_desktop_id(monitor_name) {
                Some(desktop) => {
                    let desk_empty = conn.is_desk_empty(desktop);
                    let fullscreen_window = conn.get_fullscreen_window_id(desktop);
                    let intents = intents_of_desktop(desk_empty, fullscreen_window);
                    assert(intents@ == i3_workspace_intents(
                        change,
                        Some(desktop),
                        desk_empty,
                        fullscreen_window,
                    ));
                    intents
                },
                None => {
                    let intents: Vec<Intent> = Vec::new();
                    assert(intents@ == i3_workspace_intents(change, None, false, None));
                    intents
                },
            }
        },
        WorkspaceChange::Init => {
            let intents = single(Intent::DesktopEmpty);
            assert(intents@ == i3_workspace_intents(change, None, false, None));
            intents
        },
        WorkspaceChange::Other => {
            let intents: Vec<Intent> = Vec::new();
            assert(intents@ == i3_workspace_intents(change, None, false, None));
            intents
        },
    }
}

/// Turns an event of i3 into what the engine is told. A change of the
/// binding mode or of the outputs has the focused window looked up
/// again.
pub fn handle_i3_event<W: WMConnection>(conn: &mut W, monitor_name: &str, event: I3Event) -> (intents:
    Vec<Intent>)
    ensures
        match event {
            I3Event::Window { change, window } => exists|
                stand_in: Option<u32>,
                focused_window: Option<u32>,
            |
                intents@ == i3_window_intents(change, window, stand_in, focused_window),
            I3Event::Workspace { shift } => exists|
                focused_desktop: Option<u32>,
                desk_empty: bool,
                fullscreen_window: Option<u32>,
            |
                intents@ == i3_workspace_intents(
                    shift,
                    focused_desktop,
                    desk_empty,
                    fullscreen_window,
                ),
            I3Event::General => exists|focused_window: Option<u32>|
                intents@ == seq![focus_intent(focused_window)],
        },
{
    match event {
        I3Event::Window { change, window } => handle_window_event(
            conn,
            monitor_name,
            change,
            window,
        ),
        I3Event::Workspace { shift } => handle_workspace_event(conn, monitor_name, shift),
        I3Event::General => {
            let focused_window = conn.get_focused_window_id(monitor_name);
            single(intent_of_focus(focused_window))
        },
    }
}

} // verus!
