//! The window manager as the engine sees it: the questions it can be
//! asked, and what its answers mean.

use crate::engine::FocusObservation;
use crate::state::WindowSnapshot;
use crate::text::same_text;
use vstd::prelude::*;

verus! {

/// The questions that a window manager answers. The answers come from
/// outside and nothing is known of them beforehand.
pub trait WMConnection {
    /// Whether the window is fullscreen.
    fn is_window_fullscreen(&mut self, window_id: u32) -> bool;

    /// The icon name of the window, if it can be read.
    fn get_icon_name(&mut self, window_id: u32) -> Option<String>;

    /// The focused desktop of the monitor, if it has one.
    fn get_focused_desktop_id(&mut self, monitor_name: &str) -> Option<u32>;

    /// Whether the desktop holds no window.
    fn is_desk_empty(&mut self, desktop_id: u32) -> bool;

    /// The focused window of the monitor, if it has one.
    fn get_focused_window_id(&mut self, monitor_name: &str) -> Option<u32>;

    /// A fullscreen window of the desktop, if it has one.
    fn get_fullscreen_window_id(&mut self, desktop_id: u32) -> Option<u32>;

    /// The number of desktops of the monitor.
    fn get_desktops_number(&mut self, monitor_name: &str) -> u32;
}

/// The connection to bspwm. Every question opens a connection of its
/// own, so there is nothing to hold.
#[derive(Debug)]
pub struct BspwmConnection;

impl BspwmConnection {
    pub fn new() -> (connection: Self) {
        BspwmConnection
    }
}

/// Whether the focused desktop of the monitor holds a fullscreen window.
/// A monitor without a focused desktop holds none.
pub fn curr_desk_contains_fullscreen<W: WMConnection>(conn: &mut W, monitor_name: &str) -> bool {
    match conn.get_focused_desktop_id(monitor_name) {
        Some(d) => desk_contains_fullscreen(Some(d), conn.get_fullscreen_window_id(d)),
        None => desk_contains_fullscreen(None, None),
    }
}

/// Whether the focused desktop of the monitor is empty; `None` where the
/// monitor has no focused desktop.
pub fn is_curr_desk_empty<W: WMConnection>(conn: &mut W, monitor_name: &str) -> Option<bool> {
    match conn.get_focused_desktop_id(monitor_name) {
        Some(d) => desk_emptiness(Some(d), conn.is_desk_empty(d)),
        None => desk_emptiness(None, false),
    }
}

/// Whether a monitor's focused desktop holds a fullscreen window, given
/// the focused desktop of the monitor and the fullscreen window that
/// the window manager names for it. Without a focused desktop there is
/// none, whatever window is named.
pub fn desk_contains_fullscreen(focused_desktop: Option<u32>, fullscreen_window: Option<u32>) -> (contains:
    bool)
    ensures
        contains == (focused_desktop is Some && fullscreen_window is Some),
{
    focused_desktop.is_some() && fullscreen_window.is_some()
}

/// Whether a monitor's focused desktop is empty, given the focused
/// desktop of the monitor and what the window manager says of its
/// emptiness. Without a focused desktop the question has no answer.
pub fn desk_emptiness(focused_desktop: Option<u32>, desk_empty: bool) -> (empty: Option<bool>)
    ensures
        empty == match focused_desktop {
            Some(_) => Some(desk_empty),
            None => None,
        },
{
    match focused_desktop {
        Some(_) => Some(desk_empty),
        None => None,
    }
}

/// Asks the window manager what the engine needs to know about the
/// window that gained the focus. The window, the place of the icon and
/// the state of the cache are passed on as given.
pub fn observe_focus<W: WMConnection>(
    conn: &mut W,
    monitor_name: &str,
    window: WindowSnapshot,
    icon_x: i16,
    icon_cached: bool,
) -> (obs: FocusObservation)
    ensures
        obs.window == window,
        obs.icon_x == icon_x,
        obs.icon_cached == icon_cached,
{
    let fullscreen = conn.is_window_fullscreen(window.id);
    let desktop_has_fullscreen = curr_desk_contains_fullscreen(conn, monitor_name);
    let desktop_count = conn.get_desktops_number(monitor_name);
    FocusObservation { window, fullscreen, desktop_has_fullscreen, desktop_count, icon_x, icon_cached }
}

/// What bspwm answers to a query for nodes or desktops.
#[derive(Debug)]
pub enum QueryReply {
    /// The identifiers found.
    Ids(Vec<u32>),
    /// The request failed with this message.
    RequestFailed(String),
    /// The connection failed in another way.
    Broken,
}

/// The one identifier that a reply stands for: the first one of a list
/// that is not empty. Every other reply stands for none.
pub open spec fn reply_id(reply: QueryReply) -> Option<u32> {
    match reply {
        QueryReply::Ids(ids) => if ids@.len() > 0 {
            Some(ids@[0])
        } else {
            None
        },
        _ => None,
    }
}

/// Reads a reply as one identifier: the first one found. A request
/// that failed, with a message or without, a connection that broke and
/// a list without identifiers all mean that nothing was found, so that
/// no reply can stop the engine.
pub fn from_query_result_to_id(query_result: &QueryReply) -> (id: Option<u32>)
    ensures
        id == reply_id(*query_result),
{
    match query_result {
        QueryReply::Ids(ids) => {
            if ids.len() > 0 {
                Some(ids[0])
            } else {
                None
            }
        },
        _ => None,
    }
}

/// The number of desktops that a reply lists; none where the request
/// failed or the connection broke.
pub open spec fn reply_count(reply: QueryReply) -> u32 {
    match reply {
        QueryReply::Ids(ids) => if ids@.len() <= u32::MAX {
            ids@.len() as u32
        } else {
            u32::MAX
        },
        _ => 0,
    }
}

/// Reads a reply as a number of desktops: as many as it lists. A reply
/// that lists nothing, because the request failed or the connection
/// broke, counts as no desktop.
pub fn desktops_number(query_result: &QueryReply) -> (count: u32)
    ensures
        count == reply_count(*query_result),
{
    match query_result {
        QueryReply::Ids(ids) => {
            if ids.len() <= 0xffff_ffff {
                ids.len() as u32
            } else {
                0xffff_ffff
            }
        },
        _ => 0,
    }
}

/// A workspace as i3 lists it.
#[derive(Debug)]
pub struct Workspace {
    pub num: i32,
    pub focused: bool,
    pub output: String,
}

/// A signed number of i3 as an unsigned identifier: what the number
/// is modulo 2^32. A workspace without a number, which i3 lists as -1,
/// wraps around.
pub open spec fn as_unsigned(num: i32) -> u32 {
    if num >= 0 {
        num as u32
    } else {
        (num + 0x1_0000_0000) as u32
    }
}

/// A signed number of i3 as an unsigned identifier.
pub fn to_unsigned(num: i32) -> (id: u32)
    ensures
        id == as_unsigned(num),
{
    if num >= 0 {
        num as u32
    } else {
        (num as i64 + 0x1_0000_0000) as u32
    }
}

/// Whether `k` is the first focused workspace on the output
/// `monitor_name`.
pub open spec fn is_focused_workspace(
    workspaces: Seq<Workspace>,
    monitor_name: Seq<char>,
    k: int,
) -> bool {
    &&& 0 <= k < workspaces.len()
    &&& workspaces[k].focused && workspaces[k].output@ == monitor_name
    &&& forall|j: int|
        0 <= j < k ==> !((#[trigger] workspaces[j]).focused && workspaces[j].output@
            == monitor_name)
}

/// The focused desktop of a monitor among the workspaces that i3 lists:
/// the first focused workspace on the monitor's output.
pub fn focused_desktop_id(workspaces: &Vec<Workspace>, monitor_name: &str) -> (id: Option<u32>)
    ensures
        match id {
            Some(d) => exists|k: int|
                #[trigger] is_focused_workspace(workspaces@, monitor_name@, k) && d
                    == as_unsigned(workspaces@[k].num),
            None => forall|j: int|
                0 <= j < workspaces@.len() ==> !((#[trigger] workspaces@[j]).focused
                    && workspaces@[j].output@ == monitor_name@),
        },
{
    let mut i: usize = 0;
    while i < workspaces.len()
        invariant
            i <= workspaces@.len(),
            forall|j: int|
                0 <= j < i ==> !((#[trigger] workspaces@[j]).focused && workspaces@[j].output@
                    == monitor_name@),
        decreases workspaces@.len() - i,
    {
        let desktop = &workspaces[i];
        if desktop.focused && same_text(monitor_name, desktop.output.as_str()) {
            assert(is_focused_workspace(workspaces@, monitor_name@, i as int));
            return Some(to_unsigned(desktop.num));
        }
        i += 1;
    }
    None
}

} // verus!
