//! The focus engine: it takes what the window manager reports (a window
//! gained the focus, the desktop is empty, a window went fullscreen),
//! keeps the focus state, and answers with what is to be done on screen.
//!
//! The engine does nothing by itself. Each entry point takes what the
//! caller observed and returns the effects the caller is to carry out,
//! in the order of the fields of [`Effects`].

use crate::config::{CommonConfig, WindowInfoType};
use crate::icon::{cache_path, cache_path_tells_identities_apart, icon_path};
use crate::state::{id_of, identity_of, must_rebuild, FocusState, IconRecord, WindowSnapshot};
use crate::text::same_text;
use vstd::prelude::*;

verus! {

/// What is to be done about the icon.
#[derive(Debug, PartialEq, Eq)]
pub enum IconCommand {
    /// Nothing: the icon on screen, if any, stays as it is.
    Keep,
    /// Show the cached picture at `path` in an overlay of `size` by
    /// `size` at `x`, `y` on the monitor.
    Show { path: String, x: i16, y: i16, size: u16 },
    /// The picture is not cached yet: extract the icon of `window_id` in
    /// the background, store it at `path`, and report back under
    /// `identity`.
    Generate { window_id: u32, identity: String, path: String },
}

/// What the caller is to do after an event, field by field in this order.
#[derive(Debug, PartialEq, Eq)]
pub struct Effects {
    /// A line to print.
    pub print: Option<String>,
    /// The window whose name watcher is to be stopped.
    pub stop_watcher: Option<u32>,
    /// The overlay window to destroy.
    pub destroy_overlay: Option<u32>,
    /// What to do about the icon.
    pub icon: IconCommand,
    /// The window whose name is to be watched from now on.
    pub start_watcher: Option<u32>,
}

/// What the caller found out about the window that gained the focus.
#[derive(Debug)]
pub struct FocusObservation {
    pub window: WindowSnapshot,
    /// Whether the window itself is fullscreen.
    pub fullscreen: bool,
    /// Whether the focused desktop holds a fullscreen window.
    pub desktop_has_fullscreen: bool,
    /// The number of desktops on the monitor.
    pub desktop_count: u32,
    /// Where the icon goes horizontally.
    pub icon_x: i16,
    /// Whether the cache holds a picture for the window's icon identity.
    pub icon_cached: bool,
}

/// One monitor: its name, its focus, the icon shown on it, the window
/// whose name is watched, and the name last printed.
#[derive(Debug)]
pub struct Monitor {
    pub name: String,
    pub state: FocusState,
    pub icon: Option<IconRecord>,
    pub watched_window: Option<u32>,
    pub shown_info: String,
}

/// The engine of one monitor.
#[derive(Debug)]
pub struct Core {
    pub config: CommonConfig,
    pub monitor: Monitor,
}

/// Whether `print` is the line `expected`, or absent where none is expected.
pub open spec fn prints(print: Option<String>, expected: Option<Seq<char>>) -> bool {
    match expected {
        Some(line) => print matches Some(text) && text@ == line,
        None => print is None,
    }
}

/// Whether `command` asks to show the picture at `path` at the given place.
pub open spec fn is_show(command: IconCommand, path: Seq<char>, x: i16, y: i16, size: u16) -> bool {
    command matches IconCommand::Show { path: p, x: cx, y: cy, size: cs } && p@ == path && cx == x
        && cy == y && cs == size
}

/// Whether `command` asks to extract the icon of `window_id` under
/// `identity` into `path`.
pub open spec fn is_generate(
    command: IconCommand,
    window_id: u32,
    identity: Seq<char>,
    path: Seq<char>,
) -> bool {
    command matches IconCommand::Generate { window_id: w, identity: i, path: p } && w == window_id
        && i@ == identity && p@ == path
}

/// `icon` with its overlay gone and its visibility set.
pub open spec fn without_overlay(icon: Option<IconRecord>, visible: bool) -> Option<IconRecord> {
    match icon {
        Some(r) => Some(
            IconRecord {
                cache_path: r.cache_path,
                overlay_window_id: None,
                x: r.x,
                y: r.y,
                size: r.size,
                visible,
            },
        ),
        None => None,
    }
}

/// `icon` with its visibility set.
pub open spec fn with_visibility(icon: Option<IconRecord>, visible: bool) -> Option<IconRecord> {
    match icon {
        Some(r) => Some(
            IconRecord {
                cache_path: r.cache_path,
                overlay_window_id: r.overlay_window_id,
                x: r.x,
                y: r.y,
                size: r.size,
                visible,
            },
        ),
        None => None,
    }
}

/// `icon` shown by the overlay `overlay`.
pub open spec fn with_overlay(icon: Option<IconRecord>, overlay: u32) -> Option<IconRecord> {
    match icon {
        Some(r) => Some(
            IconRecord {
                cache_path: r.cache_path,
                overlay_window_id: Some(overlay),
                x: r.x,
                y: r.y,
                size: r.size,
                visible: r.visible,
            },
        ),
        None => None,
    }
}

impl Core {
    /// The overlay window that is live, if any.
    pub open spec fn overlay(self) -> Option<u32> {
        match self.monitor.icon {
            Some(r) => r.overlay_window_id,
            None => None,
        }
    }

    /// What always holds of an engine that is driven through its entry
    /// points: an icon belongs to a focused window, and the watched
    /// window is the focused one.
    pub open spec fn wf(self) -> bool {
        &&& self.monitor.icon is Some ==> self.monitor.state.current_window is Some
        &&& self.monitor.watched_window == id_of(self.monitor.state.current_window)
    }

    /// The line printed for a label: for a window's name, the gap and the
    /// name formatted for its kind; for an empty desktop, the gap and
    /// the label as it stands.
    pub open spec fn label_line(self, text: Seq<char>, kind: Option<WindowInfoType>) -> Seq<char> {
        match kind {
            Some(t) => self.config.line(self.config.print_info_settings.formatted(text, Some(t))),
            None => self.config.line(text),
        }
    }

    /// Whether the visible icon is looked at when `obs` gains the focus:
    /// the window is not fullscreen and its desktop holds no fullscreen
    /// window.
    pub open spec fn looks_at_icon(obs: FocusObservation) -> bool {
        !obs.fullscreen && !obs.desktop_has_fullscreen
    }

    /// Whether the icon is built anew when `obs` gains the focus.
    pub open spec fn rebuilds_for(self, obs: FocusObservation) -> bool {
        Self::looks_at_icon(obs) && must_rebuild(
            self.monitor.state.current_fullscreen,
            Some(false),
            self.monitor.state.desktop_count != obs.desktop_count,
            identity_of(self.monitor.state.current_window) != Some(obs.window.icon_identity@),
        )
    }

    /// Whether `record` is a fresh icon for `obs`: cached under the
    /// window's identity, placed as configured, visible, not yet shown.
    pub open spec fn is_fresh_record(self, obs: FocusObservation, record: IconRecord) -> bool {
        &&& record.cache_path@ == cache_path(self.config.cache_dir@, obs.window.icon_identity@)
        &&& record.overlay_window_id is None
        &&& record.x == obs.icon_x
        &&& record.y == self.config.y
        &&& record.size == self.config.size
        &&& record.visible
    }

    /// The step that a window gaining the focus makes: from the engine
    /// `self` and the observation `obs` to the engine `post` and the
    /// effects `fx`.
    pub open spec fn focus_step(self, obs: FocusObservation, post: Core, fx: Effects) -> bool {
        let state = self.monitor.state;
        let path = cache_path(self.config.cache_dir@, obs.window.icon_identity@);
        &&& post.config == self.config
        &&& post.monitor.name == self.monitor.name
        &&& post.monitor.shown_info@ == obs.window.display_name@
        &&& prints(
            fx.print,
            if self.monitor.shown_info@ == obs.window.display_name@ {
                None
            } else {
                Some(self.label_line(obs.window.display_name@, Some(obs.window.name_type)))
            },
        )
        &&& post.monitor.state.previous_window == state.current_window
        &&& post.monitor.state.current_window == Some(obs.window)
        &&& post.monitor.state.previous_fullscreen == state.current_fullscreen
        &&& post.monitor.state.current_fullscreen == Some(obs.fullscreen)
        &&& post.monitor.state.desktop_count == if Self::looks_at_icon(obs) {
            obs.desktop_count
        } else {
            state.desktop_count
        }
        &&& fx.stop_watcher == self.monitor.watched_window
        &&& fx.start_watcher == Some(obs.window.id)
        &&& post.monitor.watched_window == Some(obs.window.id)
        &&& if obs.fullscreen {
            &&& fx.destroy_overlay == self.overlay()
            &&& fx.icon is Keep
            &&& post.monitor.icon == without_overlay(self.monitor.icon, false)
        } else if self.rebuilds_for(obs) {
            &&& fx.destroy_overlay == self.overlay()
            &&& post.monitor.icon matches Some(record) && self.is_fresh_record(obs, record)
            &&& if obs.icon_cached {
                is_show(fx.icon, path, obs.icon_x, self.config.y, self.config.size)
            } else {
                is_generate(fx.icon, obs.window.id, obs.window.icon_identity@, path)
            }
        } else {
            &&& fx.destroy_overlay is None
            &&& fx.icon is Keep
            &&& post.monitor.icon == with_visibility(
                self.monitor.icon,
                !obs.desktop_has_fullscreen,
            )
        }
    }

    /// The step that an empty desktop makes.
    pub open spec fn empty_step(self, post: Core, fx: Effects) -> bool {
        let label = self.config.print_info_settings.empty_label();
        &&& post.config == self.config
        &&& post.monitor.name == self.monitor.name
        &&& post.monitor.shown_info@ == label
        &&& prints(
            fx.print,
            if self.monitor.shown_info@ == label {
                None
            } else {
                Some(self.label_line(label, None))
            },
        )
        &&& post.monitor.state.previous_window == self.monitor.state.current_window
        &&& post.monitor.state.current_window is None
        &&& post.monitor.state.previous_fullscreen == self.monitor.state.previous_fullscreen
        &&& post.monitor.state.current_fullscreen == self.monitor.state.current_fullscreen
        &&& post.monitor.state.desktop_count == self.monitor.state.desktop_count
        &&& fx.stop_watcher == self.monitor.watched_window
        &&& fx.start_watcher is None
        &&& post.monitor.watched_window is None
        &&& fx.destroy_overlay == self.overlay()
        &&& fx.icon is Keep
        &&& post.monitor.icon is None
    }

    /// The step that a window going fullscreen makes.
    pub open spec fn fullscreen_step(self, post: Core, fx: Effects) -> bool {
        &&& post.config == self.config
        &&& post.monitor.name == self.monitor.name
        &&& post.monitor.shown_info == self.monitor.shown_info
        &&& fx.print is None
        &&& post.monitor.state.previous_window == self.monitor.state.previous_window
        &&& post.monitor.state.current_window == self.monitor.state.current_window
        &&& post.monitor.state.previous_fullscreen == self.monitor.state.current_fullscreen
        &&& post.monitor.state.current_fullscreen == Some(true)
        &&& post.monitor.state.desktop_count == self.monitor.state.desktop_count
        &&& fx.stop_watcher is None
        &&& fx.start_watcher is None
        &&& post.monitor.watched_window == self.monitor.watched_window
        &&& fx.destroy_overlay == self.overlay()
        &&& fx.icon is Keep
        &&& post.monitor.icon == without_overlay(self.monitor.icon, false)
    }

    /// Whether a picture extracted under `identity` is still wanted: the
    /// focused window has this identity, and its icon is visible, not
    /// yet shown, and cached where the picture was stored.
    pub open spec fn wants_generated(self, identity: Seq<char>) -> bool {
        &&& identity_of(self.monitor.state.current_window) == Some(identity)
        &&& self.monitor.icon matches Some(record) && record.visible
            && record.overlay_window_id is None && record.cache_path@ == cache_path(
            self.config.cache_dir@,
            identity,
        )
    }

    /// An engine for the monitor `monitor_name`, before any event.
    pub fn init(monitor_name: String, config: CommonConfig) -> (core: Self)
        ensures
            core.wf(),
            core.config == config,
            core.monitor.name == monitor_name,
            core.monitor.state.current_window is None,
            core.monitor.state.previous_window is None,
            core.monitor.state.current_fullscreen is None,
            core.monitor.state.previous_fullscreen is None,
            core.monitor.state.desktop_count == 0,
            core.monitor.icon is None,
            core.monitor.watched_window is None,
            core.monitor.shown_info@ == Seq::<char>::empty(),
    {
        Core {
            config,
            monitor: Monitor {
                name: monitor_name,
                state: FocusState::new(),
                icon: None,
                watched_window: None,
                shown_info: String::new(),
            },
        }
    }

    /// Handles the first sight of the monitor: a focused window if there
    /// is one, an empty desktop otherwise.
    pub fn process_start(&mut self, focused: Option<FocusObservation>) -> (fx: Effects)
        ensures
            match focused {
                Some(obs) => old(self).focus_step(obs, *final(self), fx),
                None => old(self).empty_step(*final(self), fx),
            },
            old(self).wf() ==> final(self).wf(),
    {
        match focused {
            Some(obs) => self.process_focused_window(obs),
            None => self.process_empty_desktop(),
        }
    }

    /// Prints the label `text` if it is not the one printed last, and
    /// remembers it. `kind` is the kind of name for a window, `None` for
    /// the label of an empty desktop.
    fn announce(&mut self, text: &str, kind: Option<WindowInfoType>) -> (print: Option<String>)
        ensures
            final(self).config == old(self).config,
            final(self).monitor.name == old(self).monitor.name,
            final(self).monitor.state == old(self).monitor.state,
            final(self).monitor.icon == old(self).monitor.icon,
            final(self).monitor.watched_window == old(self).monitor.watched_window,
            final(self).monitor.shown_info@ == text@,
            prints(
                print,
                if old(self).monitor.shown_info@ == text@ {
                    None
                } else {
                    Some(old(self).label_line(text@, kind))
                },
            ),
    {
        if same_text(self.monitor.shown_info.as_str(), text) {
            return None;
        }
        self.monitor.shown_info = text.to_owned();
        let gap = self.config.gap();
        let line = match kind {
            Some(t) => {
                let label = self.config.print_info_settings.format_info(text, Some(t));
                gap.concat(label.as_str())
            },
            None => gap.concat(text),
        };
        Some(line)
    }

    /// Prints the name of `window`, or the label of an empty desktop
    /// where there is no window, unless it was printed last.
    pub fn print_info(&mut self, window: Option<&WindowSnapshot>) -> (print: Option<String>)
        ensures
            final(self).config == old(self).config,
            final(self).monitor.name == old(self).monitor.name,
            final(self).monitor.state == old(self).monitor.state,
            final(self).monitor.icon == old(self).monitor.icon,
            final(self).monitor.watched_window == old(self).monitor.watched_window,
            match window {
                Some(w) => final(self).monitor.shown_info@ == w.display_name@ && prints(
                    print,
                    if old(self).monitor.shown_info@ == w.display_name@ {
                        None
                    } else {
                        Some(old(self).label_line(w.display_name@, Some(w.name_type)))
                    },
                ),
                None => final(self).monitor.shown_info@
                    == old(self).config.print_info_settings.empty_label() && prints(
                    print,
                    if old(self).monitor.shown_info@
                        == old(self).config.print_info_settings.empty_label() {
                        None
                    } else {
                        Some(
                            old(self).label_line(
                                old(self).config.print_info_settings.empty_label(),
                                None,
                            ),
                        )
                    },
                ),
            },
    {
        match window {
            Some(w) => self.announce(w.display_name.as_str(), Some(w.name_type)),
            None => {
                let label = self.config.print_info_settings.get_empty_desk_info().to_owned();
                self.announce(label.as_str(), None)
            },
        }
    }

    /// Whether an icon is to be seen at all: not while the focused
    /// desktop holds a fullscreen window.
    pub fn is_icon_visible(desktop_has_fullscreen: bool) -> (visible: bool)
        ensures
            visible == !desktop_has_fullscreen,
    {
        !desktop_has_fullscreen
    }

    /// Decides whether the icon must be built anew, given the number of
    /// desktops counted now, and remembers the count where it was looked
    /// at.
    pub fn need_update_icon(&mut self, desktop_count: u32) -> (rebuild: bool)
        ensures
            rebuild == must_rebuild(
                old(self).monitor.state.previous_fullscreen,
                old(self).monitor.state.current_fullscreen,
                old(self).monitor.state.desktop_count != desktop_count,
                old(self).monitor.state.identity_changed(),
            ),
            final(self).config == old(self).config,
            final(self).monitor.name == old(self).monitor.name,
            final(self).monitor.icon == old(self).monitor.icon,
            final(self).monitor.watched_window == old(self).monitor.watched_window,
            final(self).monitor.shown_info == old(self).monitor.shown_info,
            final(self).monitor.state.previous_window == old(self).monitor.state.previous_window,
            final(self).monitor.state.current_window == old(self).monitor.state.current_window,
            final(self).monitor.state.previous_fullscreen == old(
                self,
            ).monitor.state.previous_fullscreen,
            final(self).monitor.state.current_fullscreen == old(
                self,
            ).monitor.state.current_fullscreen,
            final(self).monitor.state.desktop_count == desktop_count,
    {
        self.monitor.state.need_update_icon(desktop_count)
    }

    /// Takes the live overlay off the record and hands it out for
    /// destruction.
    pub fn destroy_prev_icon(&mut self) -> (overlay: Option<u32>)
        ensures
            overlay == old(self).overlay(),
            final(self).config == old(self).config,
            final(self).monitor.name == old(self).monitor.name,
            final(self).monitor.state == old(self).monitor.state,
            final(self).monitor.watched_window == old(self).monitor.watched_window,
            final(self).monitor.shown_info == old(self).monitor.shown_info,
            final(self).monitor.icon == match old(self).monitor.icon {
                Some(r) => without_overlay(old(self).monitor.icon, r.visible),
                None => None,
            },
    {
        match self.monitor.icon.take() {
            Some(record) => {
                let overlay = record.overlay_window_id;
                self.monitor.icon = Some(
                    IconRecord {
                        cache_path: record.cache_path,
                        overlay_window_id: None,
                        x: record.x,
                        y: record.y,
                        size: record.size,
                        visible: record.visible,
                    },
                );
                overlay
            },
            None => None,
        }
    }

    /// Sets whether the icon is to be seen.
    fn set_icon_visible(&mut self, visible: bool)
        ensures
            final(self).config == old(self).config,
            final(self).monitor.name == old(self).monitor.name,
            final(self).monitor.state == old(self).monitor.state,
            final(self).monitor.watched_window == old(self).monitor.watched_window,
            final(self).monitor.shown_info == old(self).monitor.shown_info,
            final(self).monitor.icon == with_visibility(old(self).monitor.icon, visible),
    {
        match self.monitor.icon.take() {
            Some(record) => {
                self.monitor.icon = Some(
                    IconRecord {
                        cache_path: record.cache_path,
                        overlay_window_id: record.overlay_window_id,
                        x: record.x,
                        y: record.y,
                        size: record.size,
                        visible,
                    },
                );
            },
            None => {},
        }
    }

    /// The request to show the cached picture at `icon_path` where the
    /// icon of the focused window belongs. `Keep` where there is no icon
    /// and where the icon is not to be seen, because the desktop holds a
    /// fullscreen window.
    pub fn display_icon(&self, icon_path: &str) -> (command: IconCommand)
        ensures
            match self.monitor.icon {
                Some(r) => if r.visible {
                    is_show(command, icon_path@, r.x, r.y, r.size)
                } else {
                    command is Keep
                },
                None => command is Keep,
            },
    {
        match &self.monitor.icon {
            Some(record) => {
                if record.visible {
                    IconCommand::Show {
                        path: icon_path.to_owned(),
                        x: record.x,
                        y: record.y,
                        size: record.size,
                    }
                } else {
                    IconCommand::Keep
                }
            },
            None => IconCommand::Keep,
        }
    }

    /// The request to extract the icon of `window_id` in the background,
    /// store it at `icon_path`, and report back under
    /// `initial_icon_name`.
    pub fn generate_and_display_icon(
        window_id: u32,
        icon_path: &str,
        initial_icon_name: &str,
    ) -> (command: IconCommand)
        ensures
            is_generate(command, window_id, initial_icon_name@, icon_path@),
    {
        IconCommand::Generate {
            window_id,
            identity: initial_icon_name.to_owned(),
            path: icon_path.to_owned(),
        }
    }

    /// Builds the icon of the focused window anew: the live overlay goes,
    /// a fresh record takes the place of the old one, and the picture is
    /// shown from the cache or, where the cache has none, extracted
    /// first. Without a focused window nothing happens.
    pub fn update_icon(&mut self, icon_x: i16, icon_cached: bool) -> (result: (
        Option<u32>,
        IconCommand,
    ))
        ensures
            final(self).config == old(self).config,
            final(self).monitor.name == old(self).monitor.name,
            final(self).monitor.state == old(self).monitor.state,
            final(self).monitor.watched_window == old(self).monitor.watched_window,
            final(self).monitor.shown_info == old(self).monitor.shown_info,
            match old(self).monitor.state.current_window {
                Some(w) => {
                    let path = cache_path(old(self).config.cache_dir@, w.icon_identity@);
                    &&& result.0 == old(self).overlay()
                    &&& final(self).monitor.icon matches Some(record) && record.cache_path@ == path
                        && record.overlay_window_id is None && record.x == icon_x && record.y
                        == old(self).config.y && record.size == old(self).config.size
                        && record.visible
                    &&& if icon_cached {
                        is_show(result.1, path, icon_x, old(self).config.y, old(self).config.size)
                    } else {
                        is_generate(result.1, w.id, w.icon_identity@, path)
                    }
                },
                None => {
                    &&& result.0 is None
                    &&& result.1 is Keep
                    &&& final(self).monitor.icon == old(self).monitor.icon
                },
            },
    {
        let (window_id, identity) = match &self.monitor.state.current_window {
            Some(w) => (w.id, w.icon_identity.clone()),
            None => {
                return (None, IconCommand::Keep);
            },
        };
        let path = icon_path(self.config.cache_dir(), identity.as_str());
        let overlay = self.destroy_prev_icon();
        self.monitor.icon = Some(
            IconRecord {
                cache_path: path.clone(),
                overlay_window_id: None,
                x: icon_x,
                y: self.config.y(),
                size: self.config.size(),
                visible: true,
            },
        );
        let command = if icon_cached {
            self.display_icon(path.as_str())
        } else {
            Self::generate_and_display_icon(window_id, path.as_str(), identity.as_str())
        };
        (overlay, command)
    }

    /// Hands the watching of names over to `window`: the watcher of the
    /// window watched so far is to stop.
    fn watch(&mut self, window: Option<u32>) -> (stopped: Option<u32>)
        ensures
            stopped == old(self).monitor.watched_window,
            final(self).monitor.watched_window == window,
            final(self).config == old(self).config,
            final(self).monitor.name == old(self).monitor.name,
            final(self).monitor.state == old(self).monitor.state,
            final(self).monitor.icon == old(self).monitor.icon,
            final(self).monitor.shown_info == old(self).monitor.shown_info,
    {
        let stopped = self.monitor.watched_window;
        self.monitor.watched_window = window;
        stopped
    }

    /// A window gained the focus. The name is printed if it is new, the
    /// window becomes the current one, and its name is watched from now
    /// on. A fullscreen window takes the icon off the screen. Otherwise
    /// the icon is built anew exactly when it is to be seen and the
    /// rebuild rule asks for it.
    pub fn process_focused_window(&mut self, obs: FocusObservation) -> (fx: Effects)
        ensures
            old(self).focus_step(obs, *final(self), fx),
            old(self).wf() ==> final(self).wf(),
    {
        let window_id = obs.window.id;
        let print = self.print_info(Some(&obs.window));
        self.monitor.state.update_window(obs.window);
        let stop_watcher = self.watch(Some(window_id));
        if obs.fullscreen {
            self.monitor.state.update_fullscreen_state(true);
            let destroy_overlay = self.destroy_prev_icon();
            self.set_icon_visible(false);
            return Effects {
                print,
                stop_watcher,
                destroy_overlay,
                icon: IconCommand::Keep,
                start_watcher: Some(window_id),
            };
        }
        self.monitor.state.update_fullscreen_state(false);
        let visible = Self::is_icon_visible(obs.desktop_has_fullscreen);
        if visible && self.need_update_icon(obs.desktop_count) {
            let (destroy_overlay, icon) = self.update_icon(obs.icon_x, obs.icon_cached);
            Effects { print, stop_watcher, destroy_overlay, icon, start_watcher: Some(window_id) }
        } else {
            self.set_icon_visible(visible);
            Effects {
                print,
                stop_watcher,
                destroy_overlay: None,
                icon: IconCommand::Keep,
                start_watcher: Some(window_id),
            }
        }
    }

    /// A window on the focused desktop went fullscreen. The icon leaves
    /// the screen; the current window and its name stay, so that the
    /// icon can come back without being looked up again.
    pub fn process_fullscreen_window(&mut self) -> (fx: Effects)
        ensures
            old(self).fullscreen_step(*final(self), fx),
            old(self).wf() ==> final(self).wf(),
    {
        self.monitor.state.update_fullscreen_state(true);
        let destroy_overlay = self.destroy_prev_icon();
        self.set_icon_visible(false);
        Effects {
            print: None,
            stop_watcher: None,
            destroy_overlay,
            icon: IconCommand::Keep,
            start_watcher: None,
        }
    }

    /// The focused desktop has no window. The icon and its overlay go,
    /// no window is current, no name is watched, and the label of the
    /// empty desktop is printed if it is new.
    pub fn process_empty_desktop(&mut self) -> (fx: Effects)
        ensures
            old(self).empty_step(*final(self), fx),
            final(self).monitor.state.current_window is None,
            final(self).overlay() is None,
            final(self).wf(),
    {
        let destroy_overlay = self.destroy_prev_icon();
        self.monitor.icon = None;
        let print = self.print_info(None);
        self.monitor.state.update_empty();
        let stop_watcher = self.watch(None);
        Effects {
            print,
            stop_watcher,
            destroy_overlay,
            icon: IconCommand::Keep,
            start_watcher: None,
        }
    }

    /// The background extraction that was started under `identity` has
    /// stored its picture. The picture is shown only if it is still
    /// wanted; an extraction that another focus has overtaken is passed
    /// over. The engine stays as it is.
    pub fn process_generated_icon(&self, identity: &str) -> (command: IconCommand)
        ensures
            if self.wants_generated(identity@) {
                self.monitor.icon matches Some(r) && is_show(
                    command,
                    cache_path(self.config.cache_dir@, identity@),
                    r.x,
                    r.y,
                    r.size,
                )
            } else {
                command is Keep
            },
    {
        let current = match &self.monitor.state.current_window {
            Some(w) => w,
            None => {
                return IconCommand::Keep;
            },
        };
        if !same_text(current.icon_identity.as_str(), identity) {
            return IconCommand::Keep;
        }
        let record = match &self.monitor.icon {
            Some(r) => r,
            None => {
                return IconCommand::Keep;
            },
        };
        let path = icon_path(self.config.cache_dir(), identity);
        if record.visible && record.overlay_window_id.is_none() && same_text(
            record.cache_path.as_str(),
            path.as_str(),
        ) {
            self.display_icon(path.as_str())
        } else {
            IconCommand::Keep
        }
    }

    /// Whether the overlay `overlay`, just created, can be taken on: an
    /// icon is to be seen and none is shown yet.
    pub open spec fn takes_overlay(self) -> bool {
        self.monitor.icon matches Some(r) && r.visible && r.overlay_window_id is None
    }

    /// The caller has shown the icon in the overlay window `overlay`.
    /// The engine takes the overlay on if it has an icon to be seen that
    /// is not shown yet; otherwise it hands the overlay back, to be
    /// destroyed.
    pub fn overlay_shown(&mut self, overlay: u32) -> (stale: Option<u32>)
        ensures
            final(self).config == old(self).config,
            final(self).monitor.name == old(self).monitor.name,
            final(self).monitor.state == old(self).monitor.state,
            final(self).monitor.watched_window == old(self).monitor.watched_window,
            final(self).monitor.shown_info == old(self).monitor.shown_info,
            if old(self).takes_overlay() {
                stale is None && final(self).monitor.icon == with_overlay(
                    old(self).monitor.icon,
                    overlay,
                )
            } else {
                stale == Some(overlay) && final(self).monitor.icon == old(self).monitor.icon
            },
            old(self).wf() ==> final(self).wf(),
    {
        match self.monitor.icon.take() {
            Some(record) => {
                if record.visible && record.overlay_window_id.is_none() {
                    self.monitor.icon = Some(
                        IconRecord {
                            cache_path: record.cache_path,
                            overlay_window_id: Some(overlay),
                            x: record.x,
                            y: record.y,
                            size: record.size,
                            visible: record.visible,
                        },
                    );
                    None
                } else {
                    self.monitor.icon = Some(record);
                    Some(overlay)
                }
            },
            None => Some(overlay),
        }
    }
}

/// After an empty desktop the engine has no current window and no live
/// overlay, whatever it held before.
pub proof fn empty_desktop_clears(pre: Core, post: Core, fx: Effects)
    requires
        pre.empty_step(post, fx),
    ensures
        post.monitor.state.current_window is None,
        post.overlay() is None,
        post.monitor.watched_window is None,
        fx.destroy_overlay == pre.overlay(),
{
}

/// Whether `later` is `earlier` but for the overlay that shows its icon.
pub open spec fn same_but_overlay(earlier: Core, later: Core) -> bool {
    &&& later.config == earlier.config
    &&& later.monitor.name == earlier.monitor.name
    &&& later.monitor.state == earlier.monitor.state
    &&& later.monitor.watched_window == earlier.monitor.watched_window
    &&& later.monitor.shown_info == earlier.monitor.shown_info
    &&& match earlier.monitor.icon {
        Some(r) => later.monitor.icon matches Some(l) && l.cache_path == r.cache_path && l.x == r.x
            && l.y == r.y && l.size == r.size && l.visible == r.visible,
        None => later.monitor.icon is None,
    }
}

/// The same window gaining the focus twice in a row: the second time
/// nothing is printed and the icon is not built anew. Between the two,
/// the caller may have shown the icon that the first time asked for.
/// Where the window is not fullscreen, the second time destroys no
/// overlay either, and the overlay on screen stays the one it was.
pub proof fn refocus_is_idle(
    pre: Core,
    obs: FocusObservation,
    mid: Core,
    first: Effects,
    shown: Core,
    post: Core,
    second: Effects,
)
    requires
        pre.focus_step(obs, mid, first),
        same_but_overlay(mid, shown),
        shown.focus_step(obs, post, second),
    ensures
        !shown.rebuilds_for(obs),
        second.icon is Keep,
        second.print is None,
        first.print is None || second.print is None,
        !obs.fullscreen ==> second.destroy_overlay is None && post.overlay() == shown.overlay(),
{
}

/// An extraction overtaken by another focus shows nothing: once a
/// window of another identity has gained the focus, the picture stored
/// under `identity` is passed over.
pub proof fn overtaken_extraction_is_dropped(
    pre: Core,
    obs: FocusObservation,
    post: Core,
    fx: Effects,
    identity: Seq<char>,
)
    requires
        pre.focus_step(obs, post, fx),
        obs.window.icon_identity@ != identity,
    ensures
        !post.wants_generated(identity),
{
}

/// A picture is only ever shown for the identity it was cached under:
/// where the engine wants the picture of `identity`, the record on
/// display belongs to no other identity.
pub proof fn wanted_picture_is_of_identity(core: Core, identity: Seq<char>, other: Seq<char>)
    requires
        core.wants_generated(identity),
        core.wants_generated(other),
    ensures
        identity == other,
{
    cache_path_tells_identities_apart(core.config.cache_dir@, identity, other);
}

} // verus!
