//! What holds of the monitor whatever the desktop looks like.

use crate::corrector::{
    ad_is_visible, are_extents, correction_plan, correction_resizes, is_corrected, lock_is_short,
    main_is_short, placements_for, resizes_for, sizes_after, sizes_of, LayoutSizes, Placement,
    TargetBounds,
};
use crate::diagnostics::{
    after_layout_resizes, after_popup_removal, not_decreased, Diagnostics,
};
use crate::matcher::{
    adopted, first_in_role, has_role, is_application_window, lemma_first_in_role, matched_target,
    plays_role, snapshot_of, RemoveAdLayoutTarget, ViewRole,
};
use crate::names::{has_prefix, normalized_class, CLASS_AD_VIEW, SANDBOX_PREFIX};
use crate::shell_monitor::{
    after_action, event_action, is_ad_popup, EventAction, EVENT_OBJECT_CREATE,
};
use crate::timestamp::Timestamp;
use crate::window::WindowDetailView;
use vstd::prelude::*;

verus! {

/// The placements of a whole pass over the desktop: those that correct the
/// layout matched among the windows, for the bounds read of it, and none
/// where no layout is matched.
pub open spec fn pass_plan(windows: Seq<WindowDetailView>, bounds: TargetBounds) -> Seq<Placement> {
    match matched_target(windows) {
        Some(target) => correction_plan(target, bounds),
        None => Seq::<Placement>::empty(),
    }
}

/// The lock overlay is measured only where the layout has one.
pub open spec fn sizes_fit(target: RemoveAdLayoutTarget, sizes: LayoutSizes) -> bool {
    are_extents(sizes) && (sizes.lock is Some ==> target.lock_view_hwnd is Some)
}

/// A layout that is already corrected is left alone: no window is placed and
/// the counters stay as they are.
pub proof fn lemma_corrected_layout_is_left_alone(
    target: RemoveAdLayoutTarget,
    bounds: TargetBounds,
    diagnostics: Diagnostics,
    now: Timestamp,
)
    requires
        sizes_of(target, bounds) matches Some(sizes) && is_corrected(sizes),
    ensures
        correction_plan(target, bounds) == Seq::<Placement>::empty(),
        correction_resizes(target, bounds) == 0,
        after_layout_resizes(diagnostics, correction_resizes(target, bounds), now) == diagnostics,
{
    let sizes = sizes_of(target, bounds).unwrap();
    assert(placements_for(target, sizes) =~= Seq::<Placement>::empty());
}

/// Once the placements for a layout have been carried out, the layout is
/// corrected: every window the plan placed has the size it was given, and that
/// size is the one the plan looks for.
pub proof fn lemma_placements_correct_the_layout(target: RemoveAdLayoutTarget, sizes: LayoutSizes)
    requires
        sizes_fit(target, sizes),
    ensures
        is_corrected(sizes_after(target, sizes)),
        placements_for(target, sizes_after(target, sizes)) == Seq::<Placement>::empty(),
        resizes_for(target, sizes_after(target, sizes)) == 0,
{
    let after = sizes_after(target, sizes);
    assert(!ad_is_visible(after));
    assert(!main_is_short(after));
    assert(!lock_is_short(after));
    assert(placements_for(target, after) =~= Seq::<Placement>::empty());
}

/// Correcting twice in a row is correcting once: where the second correction
/// finds the windows as the first one placed them, it places no window and
/// leaves the counters as the first one left them.
pub proof fn lemma_second_correction_does_nothing(
    target: RemoveAdLayoutTarget,
    first: TargetBounds,
    second: TargetBounds,
    diagnostics: Diagnostics,
    first_time: Timestamp,
    second_time: Timestamp,
)
    requires
        sizes_of(target, first) matches Some(sizes) && sizes_of(target, second) == Some(
            sizes_after(target, sizes),
        ),
    ensures
        correction_plan(target, second) == Seq::<Placement>::empty(),
        correction_resizes(target, second) == 0,
        ({
            let once = after_layout_resizes(
                diagnostics,
                correction_resizes(target, first),
                first_time,
            );
            after_layout_resizes(once, correction_resizes(target, second), second_time) == once
        }),
{
    let sizes = sizes_of(target, first).unwrap();
    assert(sizes_fit(target, sizes));
    lemma_placements_correct_the_layout(target, sizes);
}

/// Among windows of which none is a content window, or none a banner, no
/// layout is matched, and a pass over them places no window.
pub proof fn lemma_no_layout_without_main_or_ad(
    windows: Seq<WindowDetailView>,
    bounds: TargetBounds,
)
    requires
        !has_role(windows, ViewRole::Main) || !has_role(windows, ViewRole::Ad),
    ensures
        matched_target(windows) is None,
        pass_plan(windows, bounds) == Seq::<Placement>::empty(),
{
    lemma_first_in_role(windows, ViewRole::Main);
    lemma_first_in_role(windows, ViewRole::Ad);
}

/// A layout is matched exactly where the first content window and the first
/// banner are children of one window.
pub proof fn lemma_layout_is_matched_when(windows: Seq<WindowDetailView>)
    ensures
        matched_target(windows) is Some <==> exists|main: int, ad: int|
            first_in_role(windows, ViewRole::Main) == Some(main) && first_in_role(
                windows,
                ViewRole::Ad,
            ) == Some(ad) && windows[main].parent is Some && windows[main].parent
                == windows[ad].parent,
{
    lemma_first_in_role(windows, ViewRole::Main);
    lemma_first_in_role(windows, ViewRole::Ad);
}

/// In the list a scan puts together, a layout is matched exactly when some
/// child of the application's window is a content window and some child is a
/// banner, and the layout's parent is the application's window.
pub proof fn lemma_layout_of_a_scan(top: WindowDetailView, children: Seq<WindowDetailView>)
    requires
        is_application_window(top),
    ensures
        matched_target(snapshot_of(top, children)) is Some <==> has_role(children, ViewRole::Main)
            && has_role(children, ViewRole::Ad),
        matched_target(snapshot_of(top, children)) matches Some(target)
            ==> target.parent_view_hwnd == top.hwnd,
{
    let windows = snapshot_of(top, children);
    reveal_strlit("카카오톡");
    reveal_strlit("OnlineMainView");
    assert(!plays_role(top, ViewRole::Main));
    assert(!plays_role(top, ViewRole::Ad));
    assert forall|i: int| 0 <= i < children.len() implies (#[trigger] windows[i]).parent == Some(
        top.hwnd,
    ) && (plays_role(windows[i], ViewRole::Main) <==> plays_role(children[i], ViewRole::Main))
        && (plays_role(windows[i], ViewRole::Ad) <==> plays_role(children[i], ViewRole::Ad)) by {
        assert(windows[i] == adopted(children[i], top.hwnd));
    }
    assert(windows[children.len() as int] == top);
    lemma_first_in_role(windows, ViewRole::Main);
    lemma_first_in_role(windows, ViewRole::Ad);
    if has_role(children, ViewRole::Main) {
        let i = choose|i: int| 0 <= i < children.len() && plays_role(#[trigger] children[i], ViewRole::Main);
        assert(plays_role(windows[i], ViewRole::Main));
    }
    if has_role(children, ViewRole::Ad) {
        let i = choose|i: int| 0 <= i < children.len() && plays_role(#[trigger] children[i], ViewRole::Ad);
        assert(plays_role(windows[i], ViewRole::Ad));
    }
    if let Some(main) = first_in_role(windows, ViewRole::Main) {
        assert(main < children.len());
        assert(plays_role(children[main], ViewRole::Main));
    }
    if let Some(ad) = first_in_role(windows, ViewRole::Ad) {
        assert(ad < children.len());
        assert(plays_role(children[ad], ViewRole::Ad));
    }
}

/// A popup is closed exactly when a window is created that has readable
/// bounds, no title and the popup class; the request names that window; and
/// each such request adds one to the count of closed popups and nothing to
/// the other counter. Any other event leaves the counters as they are. The
/// count is taken to be below the largest it can hold.
pub proof fn lemma_popup_is_closed_and_counted_once(
    diagnostics: Diagnostics,
    code: u32,
    window: WindowDetailView,
    bounds_readable: bool,
    now: Timestamp,
)
    requires
        diagnostics.remove_ad_popup_count < u32::MAX,
    ensures
        event_action(code, window, bounds_readable) is ClosePopup <==> bounds_readable && code
            == EVENT_OBJECT_CREATE && is_ad_popup(window),
        event_action(code, window, bounds_readable) is ClosePopup ==> {
            let after = after_action(
                diagnostics,
                event_action(code, window, bounds_readable),
                now,
            );
            &&& event_action(code, window, bounds_readable) == (EventAction::ClosePopup {
                hwnd: window.hwnd,
            })
            &&& after.remove_ad_popup_count == diagnostics.remove_ad_popup_count + 1
            &&& after.remove_ad_popup_last == Some(now)
            &&& after.remove_ad_layout_count == diagnostics.remove_ad_layout_count
            &&& after.remove_ad_layout_last == diagnostics.remove_ad_layout_last
        },
        !(event_action(code, window, bounds_readable) is ClosePopup) ==> after_action(
            diagnostics,
            event_action(code, window, bounds_readable),
            now,
        ) == diagnostics,
{
}

/// The counters never go down, whatever is recorded.
pub proof fn lemma_counters_never_decrease(diagnostics: Diagnostics, resizes: nat, now: Timestamp)
    ensures
        not_decreased(diagnostics, after_layout_resizes(diagnostics, resizes, now)),
        not_decreased(diagnostics, after_popup_removal(diagnostics, now)),
{
}

/// A class name is compared as it is without the sandbox prefix: putting the
/// prefix in front of a name changes nothing about what it matches.
pub proof fn lemma_sandbox_prefix_is_stripped(class_name: Seq<char>)
    ensures
        normalized_class(SANDBOX_PREFIX@ + class_name) == class_name,
        !has_prefix(class_name, SANDBOX_PREFIX@) ==> normalized_class(class_name) == class_name,
{
    let prefixed = SANDBOX_PREFIX@ + class_name;
    assert(prefixed.subrange(0, SANDBOX_PREFIX@.len() as int) =~= SANDBOX_PREFIX@);
    assert(prefixed.skip(SANDBOX_PREFIX@.len() as int) =~= class_name);
}

/// The banner's window plays its role with and without the sandbox prefix in
/// front of its class.
pub proof fn lemma_banner_is_found_in_sandbox(window: WindowDetailView)
    requires
        window.title.len() == 0,
        window.class_name == CLASS_AD_VIEW@ || window.class_name == SANDBOX_PREFIX@
            + CLASS_AD_VIEW@,
    ensures
        plays_role(window, ViewRole::Ad),
{
    lemma_sandbox_prefix_is_stripped(CLASS_AD_VIEW@);
    if window.class_name == CLASS_AD_VIEW@ {
        reveal_strlit("BannerAdWnd");
        reveal_strlit("Sandbox:DefaultBox:");
        assert(!has_prefix(CLASS_AD_VIEW@, SANDBOX_PREFIX@));
    }
}

} // verus!
