//! Counters of what the utility has done since it started.

use crate::timestamp::Timestamp;
use vstd::prelude::*;

verus! {

/// How often the banner layout was corrected and how many popups were closed,
/// each with the time of the last such action.
#[derive(Debug, Clone, Copy, PartialEq, Eq)]
pub struct Diagnostics {
    pub remove_ad_layout_count: u32,
    pub remove_ad_layout_last: Option<Timestamp>,
    pub remove_ad_popup_count: u32,
    pub remove_ad_popup_last: Option<Timestamp>,
}

/// A counter after `more` further actions. It stops at the largest value it
/// can hold rather than start over.
pub open spec fn counted(count: u32, more: nat) -> u32 {
    if count + more <= u32::MAX {
        (count + more) as u32
    } else {
        u32::MAX
    }
}

/// The counters before anything was done.
pub open spec fn initial_diagnostics() -> Diagnostics {
    Diagnostics {
        remove_ad_layout_count: 0,
        remove_ad_layout_last: None,
        remove_ad_popup_count: 0,
        remove_ad_popup_last: None,
    }
}

/// The counters after `resizes` windows of the layout were resized at `now`.
pub open spec fn after_layout_resizes(before: Diagnostics, resizes: nat, now: Timestamp) -> Diagnostics {
    if resizes == 0 {
        before
    } else {
        Diagnostics {
            remove_ad_layout_count: counted(before.remove_ad_layout_count, resizes),
            remove_ad_layout_last: Some(now),
            ..before
        }
    }
}

/// The counters after a popup was closed at `now`.
pub open spec fn after_popup_removal(before: Diagnostics, now: Timestamp) -> Diagnostics {
    Diagnostics {
        remove_ad_popup_count: counted(before.remove_ad_popup_count, 1),
        remove_ad_popup_last: Some(now),
        ..before
    }
}

/// No counter of `after` is below its value in `before`.
pub open spec fn not_decreased(before: Diagnostics, after: Diagnostics) -> bool {
    &&& before.remove_ad_layout_count <= after.remove_ad_layout_count
    &&& before.remove_ad_popup_count <= after.remove_ad_popup_count
}

impl Diagnostics {
    /// Counters that have counted nothing yet.
    pub fn new() -> (diagnostics: Diagnostics)
        ensures
            diagnostics == initial_diagnostics(),
    {
        Diagnostics {
            remove_ad_layout_count: 0,
            remove_ad_layout_last: None,
            remove_ad_popup_count: 0,
            remove_ad_popup_last: None,
        }
    }

    /// Notes that `resizes` windows of the layout were resized at `now`.
    pub fn record_layout_resizes(&mut self, resizes: u32, now: Timestamp)
        ensures
            *final(self) == after_layout_resizes(*old(self), resizes as nat, now),
            not_decreased(*old(self), *final(self)),
    {
        if resizes > 0 {
            self.remove_ad_layout_count = self.remove_ad_layout_count.saturating_add(resizes);
            self.remove_ad_layout_last = Some(now);
        }
    }

    /// Notes that a popup was closed at `now`.
    pub fn record_popup_removal(&mut self, now: Timestamp)
        ensures
            *final(self) == after_popup_removal(*old(self), now),
            not_decreased(*old(self), *final(self)),
    {
        self.remove_ad_popup_count = self.remove_ad_popup_count.saturating_add(1);
        self.remove_ad_popup_last = Some(now);
    }
}

} // verus!
