//! The monitor: what to do about each window event, and the state that is
//! kept between events.

use crate::corrector::{
    correction_plan, correction_resizes, plan_correction, Placement, TargetBounds,
};
use crate::diagnostics::{
    after_layout_resizes, after_popup_removal, initial_diagnostics, not_decreased, Diagnostics,
};
use crate::matcher::RemoveAdLayoutTarget;
use crate::names::{
    normalized_class, same_text, strip_sandbox_prefix, CLASS_POPUP, TITLE_EDGE,
};
use crate::timestamp::{is_civil_time, Timestamp};
use crate::window::{Rect, WindowDetail, WindowDetailView};
use vstd::prelude::*;

verus! {

/// Event code: a window was moved or resized, and the user let go.
pub const EVENT_SYSTEM_MOVESIZEEND: u32 = 0x000B;

/// Event code: a window was created.
pub const EVENT_OBJECT_CREATE: u32 = 0x8000;

/// Event code: a window changed its place or size.
pub const EVENT_OBJECT_LOCATIONCHANGE: u32 = 0x800B;

/// Event code: a live region of a window changed.
pub const EVENT_OBJECT_LIVEREGIONCHANGED: u32 = 0x8019;

/// Command-line argument that switches the logging of created windows on.
pub const DEBUG_FLAG: &'static str = "--debug";

/// Settings of the monitor.
#[derive(Debug, Clone, Copy, PartialEq, Eq)]
pub struct Config {
    /// Log every window that is created.
    pub debug: bool,
}

/// What is to be done about an event.
#[derive(Debug, Clone, Copy, PartialEq, Eq)]
pub enum EventAction {
    /// Nothing.
    Ignore,
    /// Ask the window to close.
    ClosePopup { hwnd: usize },
    /// Scan the desktop for the banner layout and correct it.
    RescanLayout,
}

/// What the monitor answers to an event.
#[derive(Debug, Clone, Copy, PartialEq, Eq)]
pub struct EventOutcome {
    pub action: EventAction,
    /// The event's window is to be logged.
    pub log: bool,
}

/// The monitor's state: its settings and its counters.
#[derive(Debug, Clone, Copy, PartialEq, Eq)]
pub struct ShellMonitor {
    diagnostics: Diagnostics,
    config: Config,
}

/// The monitor asks to be told of events with this code.
pub open spec fn is_watched_event(code: u32) -> bool {
    ||| code == EVENT_OBJECT_CREATE
    ||| code == EVENT_SYSTEM_MOVESIZEEND
    ||| code == EVENT_OBJECT_LOCATIONCHANGE
    ||| code == EVENT_OBJECT_LIVEREGIONCHANGED
}

/// The window is an advertising popup: it has no title and the popup class.
pub open spec fn is_ad_popup(window: WindowDetailView) -> bool {
    window.title.len() == 0 && normalized_class(window.class_name) == CLASS_POPUP@
}

/// What is to be done about an event of the given code at the given window.
/// An event whose window has no readable bounds is passed over. A popup is
/// closed when it is created. An event at the window with the edge title asks
/// for a rescan, whatever its code.
pub open spec fn event_action(code: u32, window: WindowDetailView, bounds_readable: bool) -> EventAction {
    if !bounds_readable {
        EventAction::Ignore
    } else if code == EVENT_OBJECT_CREATE && is_ad_popup(window) {
        EventAction::ClosePopup { hwnd: window.hwnd }
    } else if window.title == TITLE_EDGE@ {
        EventAction::RescanLayout
    } else {
        EventAction::Ignore
    }
}

/// Whether the event's window is logged: only with logging switched on, for
/// a created window whose bounds could be read.
pub open spec fn event_is_logged(config: Config, code: u32, bounds_readable: bool) -> bool {
    config.debug && bounds_readable && code == EVENT_OBJECT_CREATE
}

/// The counters after the action was taken at `now`.
pub open spec fn after_action(before: Diagnostics, action: EventAction, now: Timestamp) -> Diagnostics {
    match action {
        EventAction::ClosePopup { .. } => after_popup_removal(before, now),
        _ => before,
    }
}

/// Some argument is the debug flag.
pub open spec fn has_debug_flag(args: Seq<String>) -> bool {
    exists|i: int| 0 <= i < args.len() && (#[trigger] args[i])@ == DEBUG_FLAG@
}

/// The smaller of two codes.
fn lower(a: u32, b: u32) -> (least: u32)
    ensures
        least <= a,
        least <= b,
        least == a || least == b,
{
    if a <= b {
        a
    } else {
        b
    }
}

/// The larger of two codes.
fn higher(a: u32, b: u32) -> (most: u32)
    ensures
        most >= a,
        most >= b,
        most == a || most == b,
{
    if a >= b {
        a
    } else {
        b
    }
}

/// The range of event codes to subscribe to: from the lowest watched code to
/// the highest. Codes in between that are not watched arrive as well.
pub fn watched_event_range() -> (range: (u32, u32))
    ensures
        is_watched_event(range.0),
        is_watched_event(range.1),
        forall|code: u32| is_watched_event(code) ==> range.0 <= code <= range.1,
{
    let least = lower(
        lower(EVENT_OBJECT_CREATE, EVENT_SYSTEM_MOVESIZEEND),
        lower(EVENT_OBJECT_LOCATIONCHANGE, EVENT_OBJECT_LIVEREGIONCHANGED),
    );
    let most = higher(
        higher(EVENT_OBJECT_CREATE, EVENT_SYSTEM_MOVESIZEEND),
        higher(EVENT_OBJECT_LOCATIONCHANGE, EVENT_OBJECT_LIVEREGIONCHANGED),
    );
    (least, most)
}

/// Decides what is to be done about an event.
pub fn classify_event(code: u32, window: &WindowDetail, bounds: Option<Rect>) -> (action: EventAction)
    ensures
        action == event_action(code, window@, bounds is Some),
{
    if bounds.is_none() {
        return EventAction::Ignore;
    }
    let title = window.title.as_str();
    if code == EVENT_OBJECT_CREATE && title.unicode_len() == 0 && same_text(
        strip_sandbox_prefix(window.class_name.as_str()),
        CLASS_POPUP,
    ) {
        EventAction::ClosePopup { hwnd: window.hwnd }
    } else if same_text(title, TITLE_EDGE) {
        EventAction::RescanLayout
    } else {
        EventAction::Ignore
    }
}

impl Config {
    /// Settings as the command line asks for them: logging is on where the
    /// debug flag is among the arguments.
    pub fn from_args(args: &Vec<String>) -> (config: Config)
        ensures
            config.debug == has_debug_flag(args@),
    {
        let mut i: usize = 0;
        while i < args.len()
            invariant
                i <= args.len(),
                forall|j: int| 0 <= j < i ==> (#[trigger] args@[j])@ != DEBUG_FLAG@,
            decreases args.len() - i,
        {
            if same_text(args[i].as_str(), DEBUG_FLAG) {
                return Config { debug: true };
            }
            i += 1;
        }
        Config { debug: false }
    }
}

impl ShellMonitor {
    /// The counters kept so far.
    pub closed spec fn diagnostics(&self) -> Diagnostics {
        self.diagnostics
    }

    /// The settings in force.
    pub closed spec fn config(&self) -> Config {
        self.config
    }

    /// A monitor that has done nothing yet and does not log.
    pub fn new() -> (monitor: ShellMonitor)
        ensures
            monitor.diagnostics() == initial_diagnostics(),
            !monitor.config().debug,
    {
        ShellMonitor { diagnostics: Diagnostics::new(), config: Config { debug: false } }
    }

    /// Answers an event that happened at `now`.
    pub fn handle_event_at(
        &mut self,
        code: u32,
        window: &WindowDetail,
        bounds: Option<Rect>,
        now: Timestamp,
    ) -> (outcome: EventOutcome)
        ensures
            outcome.action == event_action(code, window@, bounds is Some),
            outcome.log == event_is_logged(old(self).config(), code, bounds is Some),
            final(self).config() == old(self).config(),
            final(self).diagnostics() == after_action(old(self).diagnostics(), outcome.action, now),
            not_decreased(old(self).diagnostics(), final(self).diagnostics()),
    {
        let action = classify_event(code, window, bounds);
        match action {
            EventAction::ClosePopup { .. } => {
                self.diagnostics.record_popup_removal(now);
            },
            _ => {},
        }
        EventOutcome {
            action,
            log: self.config.debug && bounds.is_some() && code == EVENT_OBJECT_CREATE,
        }
    }

    /// Answers an event, reading the clock where a popup is closed.
    pub fn handle_event(&mut self, code: u32, window: &WindowDetail, bounds: Option<Rect>) -> (outcome:
        EventOutcome)
        ensures
            outcome.action == event_action(code, window@, bounds is Some),
            outcome.log == event_is_logged(old(self).config(), code, bounds is Some),
            final(self).config() == old(self).config(),
            outcome.action is ClosePopup ==> exists|now: Timestamp|
                is_civil_time(now@) && final(self).diagnostics() == after_popup_removal(
                    old(self).diagnostics(),
                    now,
                ),
            !(outcome.action is ClosePopup) ==> final(self).diagnostics() == old(
                self,
            ).diagnostics(),
            not_decreased(old(self).diagnostics(), final(self).diagnostics()),
    {
        let action = classify_event(code, window, bounds);
        match action {
            EventAction::ClosePopup { .. } => {
                let now = Timestamp::now();
                self.handle_event_at(code, window, bounds, now)
            },
            _ => EventOutcome {
                action,
                log: self.config.debug && bounds.is_some() && code == EVENT_OBJECT_CREATE,
            },
        }
    }

    /// Corrects a banner layout at `now`: plans the placements for the bounds
    /// that were read and counts the resizes among them.
    pub fn remove_ad_layout_at(
        &mut self,
        target: &RemoveAdLayoutTarget,
        bounds: &TargetBounds,
        now: Timestamp,
    ) -> (placements: Vec<Placement>)
        ensures
            placements@ == correction_plan(*target, *bounds),
            final(self).config() == old(self).config(),
            final(self).diagnostics() == after_layout_resizes(
                old(self).diagnostics(),
                correction_resizes(*target, *bounds),
                now,
            ),
            not_decreased(old(self).diagnostics(), final(self).diagnostics()),
    {
        let correction = plan_correction(target, bounds);
        self.diagnostics.record_layout_resizes(correction.resizes, now);
        correction.placements
    }
}

/// The counters the monitor has kept so far.
pub fn get_diagnostics(monitor: &ShellMonitor) -> (diagnostics: Diagnostics)
    ensures
        diagnostics == monitor.diagnostics(),
{
    monitor.diagnostics
}

/// Puts new settings in force.
pub fn set_config(monitor: &mut ShellMonitor, config: Config)
    ensures
        final(monitor).config() == config,
        final(monitor).diagnostics() == old(monitor).diagnostics(),
{
    monitor.config = config;
}

/// Corrects a banner layout, reading the clock where a window is resized.
pub fn remove_ad_layout(
    monitor: &mut ShellMonitor,
    target: &RemoveAdLayoutTarget,
    bounds: &TargetBounds,
) -> (placements: Vec<Placement>)
    ensures
        placements@ == correction_plan(*target, *bounds),
        final(monitor).config() == old(monitor).config(),
        correction_resizes(*target, *bounds) > 0 ==> exists|now: Timestamp|
            is_civil_time(now@) && final(monitor).diagnostics() == after_layout_resizes(
                old(monitor).diagnostics(),
                correction_resizes(*target, *bounds),
                now,
            ),
        correction_resizes(*target, *bounds) == 0 ==> final(monitor).diagnostics() == old(
            monitor,
        ).diagnostics(),
        not_decreased(old(monitor).diagnostics(), final(monitor).diagnostics()),
{
    let correction = plan_correction(target, bounds);
    if correction.resizes > 0 {
        let now = Timestamp::now();
        monitor.diagnostics.record_layout_resizes(correction.resizes, now);
    }
    correction.placements
}

} // verus!
