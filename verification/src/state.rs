//! What the engine remembers between events: the focused window and the
//! one before it, the fullscreen flags, and the icon on screen.

use crate::config::WindowInfoType;
use crate::property::WindowInfo;
use crate::text::same_text;
use vstd::prelude::*;

verus! {

/// The characters of an optional text.
pub open spec fn text_of(text: Option<String>) -> Option<Seq<char>> {
    match text {
        Some(t) => Some(t@),
        None => None,
    }
}

/// Whether two optional texts are both absent or hold the same characters.
pub fn same_optional_text(a: &Option<String>, b: &Option<String>) -> (same: bool)
    ensures
        same == (text_of(*a) == text_of(*b)),
{
    match (a, b) {
        (None, None) => true,
        (Some(x), Some(y)) => same_text(x.as_str(), y.as_str()),
        _ => false,
    }
}

/// The icon names of the focused application and of the one before it,
/// with the horizontal position of the icon.
#[derive(Debug, PartialEq, Eq)]
pub struct State {
    pub curr_icon: Option<String>,
    pub prev_icon: Option<String>,
    pub dyn_x: i16,
}

impl State {
    /// A state without icons, its icon at `dyn_x`.
    pub fn init(dyn_x: i16) -> (state: Self)
        ensures
            state.curr_icon is None,
            state.prev_icon is None,
            state.dyn_x == dyn_x,
    {
        State { curr_icon: None, prev_icon: None, dyn_x }
    }

    /// Makes `icon_name` the current icon; the icon that was current
    /// becomes the previous one.
    pub fn update_icon(&mut self, icon_name: &str)
        ensures
            final(self).prev_icon == old(self).curr_icon,
            text_of(final(self).curr_icon) == Some(icon_name@),
            final(self).dyn_x == old(self).dyn_x,
    {
        self.prev_icon = self.curr_icon.take();
        self.curr_icon = Some(icon_name.to_owned());
    }

    /// Forgets both icons, so that the next icon counts as new.
    pub fn reset_icons(&mut self)
        ensures
            final(self).prev_icon is None,
            final(self).curr_icon is None,
            final(self).dyn_x == old(self).dyn_x,
    {
        self.prev_icon = None;
        self.curr_icon = None;
    }

    /// Whether the current icon differs from the previous one.
    pub fn icon_changed(&self) -> (changed: bool)
        ensures
            changed == (text_of(self.prev_icon) != text_of(self.curr_icon)),
    {
        !same_optional_text(&self.prev_icon, &self.curr_icon)
    }
}

/// The icon of the focused window: its name and the name before it, the
/// overlay window that shows it, and its horizontal position.
#[derive(Debug, PartialEq, Eq)]
pub struct IconState {
    pub curr_name: Option<String>,
    pub prev_name: Option<String>,
    pub prev_id: Option<u32>,
    pub curr_x: i16,
}

impl IconState {
    /// An icon without a name and without an overlay.
    pub fn new() -> (icon: Self)
        ensures
            icon.curr_name is None,
            icon.prev_name is None,
            icon.prev_id is None,
            icon.curr_x == 0,
    {
        IconState { curr_name: None, prev_name: None, prev_id: None, curr_x: 0 }
    }

    /// Makes `icon_name` the current name; the name that was current
    /// becomes the previous one.
    pub fn update_name(&mut self, icon_name: &str)
        ensures
            final(self).prev_name == old(self).curr_name,
            text_of(final(self).curr_name) == Some(icon_name@),
            final(self).prev_id == old(self).prev_id,
            final(self).curr_x == old(self).curr_x,
    {
        self.prev_name = self.curr_name.take();
        self.curr_name = Some(icon_name.to_owned());
    }

    /// The current name. There must be one.
    pub fn get_curr_name(&self) -> (name: &str)
        requires
            self.curr_name is Some,
        ensures
            Some(name@) == text_of(self.curr_name),
    {
        match &self.curr_name {
            Some(name) => name.as_str(),
            None => "",
        }
    }

    /// The current name, if there is one.
    pub fn curr_name(&self) -> (name: Option<&str>)
        ensures
            match name {
                Some(text) => Some(text@) == text_of(self.curr_name),
                None => self.curr_name is None,
            },
    {
        match &self.curr_name {
            Some(name) => Some(name.as_str()),
            None => None,
        }
    }
}

/// A window as the engine saw it when it gained the focus.
#[derive(Debug, PartialEq, Eq)]
pub struct WindowSnapshot {
    /// The window's handle. It names the window only while the window
    /// lives.
    pub id: u32,
    /// The name shown for the window, as read from its properties.
    pub display_name: String,
    /// The kind of property that gave the name.
    pub name_type: WindowInfoType,
    /// The key of the application's icon; it names the cache file.
    pub icon_identity: String,
}

impl Clone for WindowSnapshot {
    fn clone(&self) -> (copy: Self)
        ensures
            copy == *self,
    {
        WindowSnapshot {
            id: self.id,
            display_name: self.display_name.clone(),
            name_type: self.name_type,
            icon_identity: self.icon_identity.clone(),
        }
    }
}

impl WindowSnapshot {
    /// A snapshot of window `id` with the name `info` and the icon
    /// identity `icon_identity`.
    pub fn new(id: u32, info: WindowInfo, icon_identity: String) -> (window: Self)
        ensures
            window.id == id,
            window.display_name == info.info,
            window.name_type == info.info_type,
            window.icon_identity == icon_identity,
    {
        WindowSnapshot {
            id,
            display_name: info.info,
            name_type: info.info_type,
            icon_identity,
        }
    }
}

/// The icon identity of an optional window.
pub open spec fn identity_of(window: Option<WindowSnapshot>) -> Option<Seq<char>> {
    match window {
        Some(w) => Some(w.icon_identity@),
        None => None,
    }
}

/// The handle of an optional window.
pub open spec fn id_of(window: Option<WindowSnapshot>) -> Option<u32> {
    match window {
        Some(w) => Some(w.id),
        None => None,
    }
}

/// Whether the icon must be built anew. In this order: coming back from
/// fullscreen always rebuilds; else a changed number of desktops does;
/// else a changed icon identity does; else nothing is rebuilt.
pub open spec fn must_rebuild(
    previous_fullscreen: Option<bool>,
    current_fullscreen: Option<bool>,
    desktop_count_changed: bool,
    identity_changed: bool,
) -> bool {
    if previous_fullscreen == Some(true) && current_fullscreen == Some(false) {
        true
    } else if desktop_count_changed {
        true
    } else {
        identity_changed
    }
}

/// Decides whether the icon must be built anew.
pub fn rebuild_decision(
    previous_fullscreen: Option<bool>,
    current_fullscreen: Option<bool>,
    desktop_count_changed: bool,
    identity_changed: bool,
) -> (rebuild: bool)
    ensures
        rebuild == must_rebuild(
            previous_fullscreen,
            current_fullscreen,
            desktop_count_changed,
            identity_changed,
        ),
{
    let back_from_fullscreen = match (previous_fullscreen, current_fullscreen) {
        (Some(true), Some(false)) => true,
        _ => false,
    };
    if back_from_fullscreen {
        true
    } else if desktop_count_changed {
        true
    } else {
        identity_changed
    }
}

/// The decision is a function of its four inputs alone, and amounts to
/// this: rebuild when coming back from fullscreen, or when the number of
/// desktops changed, or when the identity changed.
pub proof fn rebuild_rule_is_disjunction(
    previous_fullscreen: Option<bool>,
    current_fullscreen: Option<bool>,
    desktop_count_changed: bool,
    identity_changed: bool,
)
    ensures
        must_rebuild(
            previous_fullscreen,
            current_fullscreen,
            desktop_count_changed,
            identity_changed,
        ) == ((previous_fullscreen == Some(true) && current_fullscreen == Some(false))
            || desktop_count_changed || identity_changed),
{
}

/// The focus of one monitor: the focused window and the one before it,
/// the fullscreen flag of each, and the number of desktops at the last
/// count. The `previous` fields hold what the `current` fields held
/// before the latest update.
#[derive(Debug, PartialEq, Eq)]
pub struct FocusState {
    pub previous_window: Option<WindowSnapshot>,
    pub current_window: Option<WindowSnapshot>,
    pub previous_fullscreen: Option<bool>,
    pub current_fullscreen: Option<bool>,
    pub desktop_count: u32,
}

impl FocusState {
    /// The state before any event: no window, no flag, no desktop counted.
    pub fn new() -> (state: Self)
        ensures
            state.previous_window is None,
            state.current_window is None,
            state.previous_fullscreen is None,
            state.current_fullscreen is None,
            state.desktop_count == 0,
    {
        FocusState {
            previous_window: None,
            current_window: None,
            previous_fullscreen: None,
            current_fullscreen: None,
            desktop_count: 0,
        }
    }

    /// Whether the desktop counts as empty.
    pub open spec fn is_empty(self) -> bool {
        self.current_window is None
    }

    /// Whether the icon identity changed with the latest window.
    pub open spec fn identity_changed(self) -> bool {
        identity_of(self.previous_window) != identity_of(self.current_window)
    }

    /// Makes `new_window` the current window; the window that was
    /// current becomes the previous one.
    pub fn update_window(&mut self, new_window: WindowSnapshot)
        ensures
            final(self).previous_window == old(self).current_window,
            final(self).current_window == Some(new_window),
            final(self).previous_fullscreen == old(self).previous_fullscreen,
            final(self).current_fullscreen == old(self).current_fullscreen,
            final(self).desktop_count == old(self).desktop_count,
    {
        self.previous_window = self.current_window.take();
        self.current_window = Some(new_window);
    }

    /// Leaves no window current; the window that was current becomes the
    /// previous one.
    pub fn update_empty(&mut self)
        ensures
            final(self).previous_window == old(self).current_window,
            final(self).current_window is None,
            final(self).previous_fullscreen == old(self).previous_fullscreen,
            final(self).current_fullscreen == old(self).current_fullscreen,
            final(self).desktop_count == old(self).desktop_count,
    {
        self.previous_window = self.current_window.take();
        self.current_window = None;
    }

    /// Records whether the focused window is fullscreen; the flag that
    /// was current becomes the previous one.
    pub fn update_fullscreen_state(&mut self, flag: bool)
        ensures
            final(self).previous_fullscreen == old(self).current_fullscreen,
            final(self).current_fullscreen == Some(flag),
            final(self).previous_window == old(self).previous_window,
            final(self).current_window == old(self).current_window,
            final(self).desktop_count == old(self).desktop_count,
    {
        self.previous_fullscreen = self.current_fullscreen;
        self.current_fullscreen = Some(flag);
    }

    /// Whether the icon identity changed with the latest window.
    pub fn has_identity_changed(&self) -> (changed: bool)
        ensures
            changed == self.identity_changed(),
    {
        match (&self.previous_window, &self.current_window) {
            (None, None) => false,
            (Some(p), Some(c)) => !same_text(p.icon_identity.as_str(), c.icon_identity.as_str()),
            _ => true,
        }
    }

    /// Decides whether the icon must be built anew, given the number of
    /// desktops counted now. The count is compared with the one
    /// remembered and then remembered in its place, whatever is decided,
    /// so that the same count does not ask for a rebuild twice.
    pub fn need_update_icon(&mut self, desktop_count: u32) -> (rebuild: bool)
        ensures
            rebuild == must_rebuild(
                old(self).previous_fullscreen,
                old(self).current_fullscreen,
                old(self).desktop_count != desktop_count,
                old(self).identity_changed(),
            ),
            final(self).desktop_count == desktop_count,
            final(self).previous_window == old(self).previous_window,
            final(self).current_window == old(self).current_window,
            final(self).previous_fullscreen == old(self).previous_fullscreen,
            final(self).current_fullscreen == old(self).current_fullscreen,
    {
        let count_changed = self.desktop_count != desktop_count;
        self.desktop_count = desktop_count;
        let identity_changed = self.has_identity_changed();
        rebuild_decision(
            self.previous_fullscreen,
            self.current_fullscreen,
            count_changed,
            identity_changed,
        )
    }
}

/// The icon of the focused application as it stands on screen.
#[derive(Debug, PartialEq, Eq)]
pub struct IconRecord {
    /// The file that caches the icon.
    pub cache_path: String,
    /// The overlay window that shows the icon; `None` while none is shown.
    pub overlay_window_id: Option<u32>,
    pub x: i16,
    pub y: i16,
    pub size: u16,
    /// `false` exactly when the focused desktop holds a fullscreen window.
    pub visible: bool,
}

} // verus!
