//! Finding the banner layout among the windows of the application: the
//! content window, the banner beside it, and the lock overlay if there is one.

use crate::names::{
    has_prefix, normalized_class, same_text, starts_with, strip_sandbox_prefix, CLASS_AD_VIEW,
    CLASS_LOCK_VIEW, CLASS_MAIN_VIEW, TITLE_APPLICATION, TITLE_LOCK_VIEW, TITLE_MAIN_VIEW,
};
use crate::window::{details_view, WindowDetail, WindowDetailView};
use vstd::prelude::*;

verus! {

/// The part a window can play in the banner layout.
#[derive(Debug, Clone, Copy, PartialEq, Eq)]
pub enum ViewRole {
    /// The window that shows the application's content.
    Main,
    /// The window that hosts the banner.
    Ad,
    /// The overlay shown while the application is locked.
    Lock,
}

/// The windows of one banner layout.
#[derive(Debug, Clone, Copy, PartialEq, Eq)]
pub struct RemoveAdLayoutTarget {
    pub parent_view_hwnd: usize,
    pub main_view_hwnd: usize,
    pub ad_view_hwnd: usize,
    pub lock_view_hwnd: Option<usize>,
}

/// The window is the application's top-level window.
pub open spec fn is_application_window(window: WindowDetailView) -> bool {
    window.title == TITLE_APPLICATION@
}

/// The window has the class and the title of the given role. Classes are
/// compared without the sandbox prefix.
pub open spec fn plays_role(window: WindowDetailView, role: ViewRole) -> bool {
    match role {
        ViewRole::Main => normalized_class(window.class_name) == CLASS_MAIN_VIEW@ && has_prefix(
            window.title,
            TITLE_MAIN_VIEW@,
        ),
        ViewRole::Ad => normalized_class(window.class_name) == CLASS_AD_VIEW@ && window.title.len()
            == 0,
        ViewRole::Lock => normalized_class(window.class_name) == CLASS_LOCK_VIEW@ && has_prefix(
            window.title,
            TITLE_LOCK_VIEW@,
        ),
    }
}

/// Some window of the list plays the role.
pub open spec fn has_role(windows: Seq<WindowDetailView>, role: ViewRole) -> bool {
    exists|i: int| 0 <= i < windows.len() && plays_role(#[trigger] windows[i], role)
}

/// `index` is the place of the first window of the list that plays the role.
pub open spec fn is_first_in_role(windows: Seq<WindowDetailView>, role: ViewRole, index: int) -> bool {
    &&& 0 <= index < windows.len()
    &&& plays_role(windows[index], role)
    &&& forall|j: int| 0 <= j < index ==> !plays_role(#[trigger] windows[j], role)
}

/// Place of the first window of the list that plays the role, if any does.
pub open spec fn first_in_role(windows: Seq<WindowDetailView>, role: ViewRole) -> Option<int>
    decreases windows.len(),
{
    if windows.len() == 0 {
        None
    } else {
        match first_in_role(windows.drop_last(), role) {
            Some(index) => Some(index),
            None => if plays_role(windows.last(), role) {
                Some(windows.len() - 1)
            } else {
                None
            },
        }
    }
}

/// The layout found among the windows. It takes the first content window and
/// the first banner of the list; both must be children of one window. The lock
/// overlay is the first of the list, where there is one.
pub open spec fn matched_target(windows: Seq<WindowDetailView>) -> Option<RemoveAdLayoutTarget> {
    match (first_in_role(windows, ViewRole::Main), first_in_role(windows, ViewRole::Ad)) {
        (Some(main), Some(ad)) => match windows[main].parent {
            Some(parent) if windows[ad].parent == Some(parent) => Some(
                RemoveAdLayoutTarget {
                    parent_view_hwnd: parent,
                    main_view_hwnd: windows[main].hwnd,
                    ad_view_hwnd: windows[ad].hwnd,
                    lock_view_hwnd: match first_in_role(windows, ViewRole::Lock) {
                        Some(lock) => Some(windows[lock].hwnd),
                        None => None,
                    },
                },
            ),
            _ => None,
        },
        _ => None,
    }
}

/// The list a scan hands to the matcher: the children, each with the
/// top-level window as its parent, and then the top-level window itself.
pub open spec fn snapshot_of(top: WindowDetailView, children: Seq<WindowDetailView>) -> Seq<
    WindowDetailView,
> {
    children.map_values(|child: WindowDetailView| adopted(child, top.hwnd)).push(top)
}

/// The window as a child of `parent`.
pub open spec fn adopted(child: WindowDetailView, parent: usize) -> WindowDetailView {
    WindowDetailView { parent: Some(parent), ..child }
}

/// `first_in_role` finds the first window that plays the role, and finds none
/// only where no window plays it.
pub proof fn lemma_first_in_role(windows: Seq<WindowDetailView>, role: ViewRole)
    ensures
        match first_in_role(windows, role) {
            Some(index) => is_first_in_role(windows, role, index),
            None => !has_role(windows, role),
        },
    decreases windows.len(),
{
    if windows.len() > 0 {
        let front = windows.drop_last();
        lemma_first_in_role(front, role);
        assert forall|j: int| 0 <= j < front.len() implies front[j] == windows[j] by {}
        match first_in_role(front, role) {
            Some(index) => {
                assert(front[index] == windows[index]);
                assert forall|j: int| 0 <= j < index implies !plays_role(
                    #[trigger] windows[j],
                    role,
                ) by {
                    assert(front[j] == windows[j]);
                }
            },
            None => {
                if plays_role(windows.last(), role) {
                    assert forall|j: int| 0 <= j < windows.len() - 1 implies !plays_role(
                        #[trigger] windows[j],
                        role,
                    ) by {
                        assert(front[j] == windows[j]);
                    }
                } else {
                    assert forall|j: int| 0 <= j < windows.len() implies !plays_role(
                        #[trigger] windows[j],
                        role,
                    ) by {
                        if j < windows.len() - 1 {
                            assert(front[j] == windows[j]);
                        }
                    }
                }
            },
        }
    }
}

/// The first window in a role is the only place that `is_first_in_role` holds of.
pub proof fn lemma_first_in_role_is_unique(
    windows: Seq<WindowDetailView>,
    role: ViewRole,
    index: int,
)
    requires
        is_first_in_role(windows, role, index),
    ensures
        first_in_role(windows, role) == Some(index),
{
    lemma_first_in_role(windows, role);
    match first_in_role(windows, role) {
        Some(other) => {
            if other < index {
                assert(!plays_role(windows[other], role));
            } else if index < other {
                assert(!plays_role(windows[index], role));
            }
        },
        None => {
            assert(plays_role(windows[index], role));
        },
    }
}

/// Tells whether the window is the application's top-level window.
pub fn is_target_window(window: &WindowDetail) -> (is_target: bool)
    ensures
        is_target == is_application_window(window@),
{
    same_text(window.title.as_str(), TITLE_APPLICATION)
}

/// Makes the window a child of `parent`.
pub fn adopt(child: WindowDetail, parent: usize) -> (adoptee: WindowDetail)
    ensures
        adoptee@ == adopted(child@, parent),
{
    WindowDetail { hwnd: child.hwnd, parent: Some(parent), class_name: child.class_name, title: child.title }
}

/// Puts together what a scan found: the children of the application's
/// top-level window, each marked as its child, followed by that window.
pub fn build_snapshot(top: WindowDetail, children: Vec<WindowDetail>) -> (snapshot: Vec<WindowDetail>)
    ensures
        details_view(snapshot@) == snapshot_of(top@, details_view(children@)),
{
    let ghost all = details_view(children@);
    let mut rest = children;
    let mut snapshot: Vec<WindowDetail> = Vec::new();
    while rest.len() > 0
        invariant
            snapshot@.len() + rest@.len() == all.len(),
            details_view(rest@) =~= all.skip(snapshot@.len() as int),
            details_view(snapshot@) =~= all.take(snapshot@.len() as int).map_values(
                |child: WindowDetailView| adopted(child, top.hwnd),
            ),
        decreases rest.len(),
    {
        let ghost before = rest@;
        let ghost done = snapshot@;
        let child = rest.remove(0);
        assert(child@ == details_view(before)[0]);
        snapshot.push(adopt(child, top.hwnd));
        assert(details_view(rest@) =~= all.skip(snapshot@.len() as int)) by {
            assert forall|j: int| 0 <= j < rest@.len() implies details_view(rest@)[j] == all.skip(
                snapshot@.len() as int,
            )[j] by {
                assert(rest@[j] == before[j + 1]);
                assert(details_view(before)[j + 1] == all.skip(done.len() as int)[j + 1]);
            }
        }
        assert(details_view(snapshot@) =~= all.take(snapshot@.len() as int).map_values(
            |child: WindowDetailView| adopted(child, top.hwnd),
        )) by {
            assert forall|j: int| 0 <= j < snapshot@.len() implies details_view(snapshot@)[j]
                == all.take(snapshot@.len() as int).map_values(
                |child: WindowDetailView| adopted(child, top.hwnd),
            )[j] by {
                if j < done.len() {
                    assert(snapshot@[j] == done[j]);
                    assert(details_view(done)[j] == all.take(done.len() as int).map_values(
                        |child: WindowDetailView| adopted(child, top.hwnd),
                    )[j]);
                }
            }
        }
    }
    assert(all.take(all.len() as int) =~= all);
    let ghost adopted_children = details_view(snapshot@);
    snapshot.push(top);
    assert(details_view(snapshot@) =~= adopted_children.push(top@));
    snapshot
}

/// Tells whether the window has the class and the title of the given role.
pub fn window_plays_role(window: &WindowDetail, role: ViewRole) -> (plays: bool)
    ensures
        plays == plays_role(window@, role),
{
    let class_name = strip_sandbox_prefix(window.class_name.as_str());
    match role {
        ViewRole::Main => same_text(class_name, CLASS_MAIN_VIEW) && starts_with(
            window.title.as_str(),
            TITLE_MAIN_VIEW,
        ),
        ViewRole::Ad => same_text(class_name, CLASS_AD_VIEW) && window.title.as_str().unicode_len()
            == 0,
        ViewRole::Lock => same_text(class_name, CLASS_LOCK_VIEW) && starts_with(
            window.title.as_str(),
            TITLE_LOCK_VIEW,
        ),
    }
}

/// Finds the first window of the list that plays the role.
pub fn find_view(windows: &Vec<WindowDetail>, role: ViewRole) -> (found: Option<usize>)
    ensures
        match found {
            Some(index) => first_in_role(details_view(windows@), role) == Some(index as int),
            None => first_in_role(details_view(windows@), role) is None,
        },
{
    let ghost views = details_view(windows@);
    let mut i: usize = 0;
    while i < windows.len()
        invariant
            i <= windows.len(),
            views == details_view(windows@),
            forall|j: int| 0 <= j < i ==> !plays_role(#[trigger] views[j], role),
        decreases windows.len() - i,
    {
        if window_plays_role(&windows[i], role) {
            proof {
                lemma_first_in_role_is_unique(views, role, i as int);
            }
            return Some(i);
        }
        i += 1;
    }
    proof {
        lemma_first_in_role(views, role);
    }
    None
}

/// Looks for the banner layout among the windows of a scan.
pub fn match_ad_layout(windows: &Vec<WindowDetail>) -> (target: Option<RemoveAdLayoutTarget>)
    ensures
        target == matched_target(details_view(windows@)),
{
    let main = match find_view(windows, ViewRole::Main) {
        Some(index) => index,
        None => { return None; },
    };
    let ad = match find_view(windows, ViewRole::Ad) {
        Some(index) => index,
        None => { return None; },
    };
    let ghost views = details_view(windows@);
    proof {
        lemma_first_in_role(views, ViewRole::Main);
        lemma_first_in_role(views, ViewRole::Ad);
        lemma_first_in_role(views, ViewRole::Lock);
    }
    let parent = match windows[main].parent {
        Some(parent) => parent,
        None => { return None; },
    };
    match windows[ad].parent {
        Some(other) => {
            if other != parent {
                return None;
            }
        },
        None => { return None; },
    }
    let lock_view_hwnd = match find_view(windows, ViewRole::Lock) {
        Some(index) => Some(windows[index].hwnd),
        None => None,
    };
    Some(
        RemoveAdLayoutTarget {
            parent_view_hwnd: parent,
            main_view_hwnd: windows[main].hwnd,
            ad_view_hwnd: windows[ad].hwnd,
            lock_view_hwnd,
        },
    )
}

} // verus!
