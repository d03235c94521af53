//! Watching the name of the focused window: a background task asks for
//! the name again and again and prints it whenever it has changed.
//!
//! The task itself, its pauses and its stop signal belong to the
//! caller. Here is what the task decides at each turn.

use crate::config::PrintInfoSettings;
use crate::property::WindowInfo;
use crate::text::same_text;
use vstd::prelude::*;

verus! {

/// The watcher of one window: the window and the name printed last.
#[derive(Debug)]
pub struct InfoWatcher {
    pub window_id: u32,
    pub last_printed: String,
}

/// What the watching task does after a turn.
#[derive(Debug, PartialEq, Eq)]
pub enum WatchStep {
    /// End the task: the stop signal has come.
    Stop,
    /// Nothing to print; pause and ask again.
    Idle,
    /// Print this line, then pause and ask again.
    Print(String),
}

impl InfoWatcher {
    /// The pause between two turns, in milliseconds.
    pub fn interval_ms() -> (pause: u32)
        ensures
            pause == 100,
    {
        100
    }

    /// A watcher for `window_id`, the name `shown` having been printed
    /// for it already.
    pub fn start(window_id: u32, shown: String) -> (watcher: Self)
        ensures
            watcher.window_id == window_id,
            watcher.last_printed == shown,
    {
        InfoWatcher { window_id, last_printed: shown }
    }

    /// One turn of the task. `stop` tells whether the stop signal has
    /// come; `reading` is the name just read, `None` where it could not
    /// be read. After a stop signal the task ends. A name that could not
    /// be read, or that is the one printed last, prints nothing. Any
    /// other name is printed, formatted for its kind after the gap, and
    /// remembered.
    pub fn poll(
        &mut self,
        stop: bool,
        reading: Option<WindowInfo>,
        gap: &str,
        settings: &PrintInfoSettings,
    ) -> (step: WatchStep)
        ensures
            final(self).window_id == old(self).window_id,
            if stop {
                step is Stop && final(self).last_printed == old(self).last_printed
            } else {
                match reading {
                    None => step is Idle && final(self).last_printed == old(self).last_printed,
                    Some(info) => if info.info@ == old(self).last_printed@ {
                        step is Idle && final(self).last_printed == old(self).last_printed
                    } else {
                        &&& step matches WatchStep::Print(line) && line@ == gap@
                            + settings.formatted(info.info@, Some(info.info_type))
                        &&& final(self).last_printed == info.info
                    },
                }
            },
    {
        if stop {
            return WatchStep::Stop;
        }
        match reading {
            None => WatchStep::Idle,
            Some(info) => {
                if same_text(info.info.as_str(), self.last_printed.as_str()) {
                    WatchStep::Idle
                } else {
                    let line = info.print(gap, settings);
                    self.last_printed = info.info;
                    WatchStep::Print(line)
                }
            },
        }
    }
}

} // verus!
