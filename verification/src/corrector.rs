//! Planning how the windows of a banner layout have to be moved so that the
//! content window takes the space the banner held.

use crate::matcher::RemoveAdLayoutTarget;
use crate::window::{rect_height, rect_to_size, rect_width, Rect, RectSize};
use vstd::prelude::*;

verus! {

/// Height the content window leaves free of its parent's height.
pub const MAIN_VIEW_MARGIN: i64 = 31;

/// Where the content window is put inside its parent, from the left.
pub const MAIN_VIEW_X: i32 = 1;

/// Where the content window is put inside its parent, from the top.
pub const MAIN_VIEW_Y: i32 = 30;

/// Height the lock overlay leaves free of its parent's height.
pub const LOCK_VIEW_MARGIN: i64 = 2;

/// Where the lock overlay is put inside its parent, from the left.
pub const LOCK_VIEW_X: i32 = 1;

/// Where the lock overlay is put inside its parent, from the top.
pub const LOCK_VIEW_Y: i32 = 1;

/// A request to put a window at a position inside its parent with a size.
#[derive(Debug, Clone, Copy, PartialEq, Eq)]
pub struct Placement {
    pub hwnd: usize,
    pub x: i32,
    pub y: i32,
    pub width: i64,
    pub height: i64,
}

/// The bounds of the windows of a layout as far as they could be read.
#[derive(Debug, Clone, Copy, PartialEq, Eq)]
pub struct TargetBounds {
    pub parent: Option<Rect>,
    pub main: Option<Rect>,
    pub ad: Option<Rect>,
    pub lock: Option<Rect>,
}

/// The extents of the windows of a layout.
#[derive(Debug, Clone, Copy, PartialEq, Eq)]
pub struct LayoutSizes {
    pub parent: RectSize,
    pub main: RectSize,
    pub ad: RectSize,
    pub lock: Option<RectSize>,
}

/// What a correction asks for: the placements in the order they are to be
/// carried out, and how many of them resize a window to fit its parent.
#[derive(Debug, PartialEq, Eq)]
pub struct Correction {
    pub placements: Vec<Placement>,
    pub resizes: u32,
}

/// The extent of a window with the given bounds.
pub open spec fn size_of(rect: Rect) -> RectSize {
    RectSize { width: rect_width(rect) as i64, height: rect_height(rect) as i64 }
}

/// An extent as bounds of 32-bit coordinates can have it.
pub open spec fn is_extent(size: RectSize) -> bool {
    &&& -0x1_0000_0000 < size.width < 0x1_0000_0000
    &&& -0x1_0000_0000 < size.height < 0x1_0000_0000
}

/// Every extent of the layout is one that bounds can have.
pub open spec fn are_extents(sizes: LayoutSizes) -> bool {
    &&& is_extent(sizes.parent)
    &&& is_extent(sizes.main)
    &&& is_extent(sizes.ad)
    &&& sizes.lock matches Some(lock) ==> is_extent(lock)
}

/// The extents of a layout whose parent, content window and banner could all
/// be measured. The lock overlay counts only where the layout has one and its
/// bounds could be read.
pub open spec fn sizes_of(target: RemoveAdLayoutTarget, bounds: TargetBounds) -> Option<LayoutSizes> {
    match (bounds.parent, bounds.main, bounds.ad) {
        (Some(parent), Some(main), Some(ad)) => Some(
            LayoutSizes {
                parent: size_of(parent),
                main: size_of(main),
                ad: size_of(ad),
                lock: match (target.lock_view_hwnd, bounds.lock) {
                    (Some(_), Some(lock)) => Some(size_of(lock)),
                    _ => None,
                },
            },
        ),
        _ => None,
    }
}

/// The banner still takes up height.
pub open spec fn ad_is_visible(sizes: LayoutSizes) -> bool {
    sizes.ad.height != 0
}

/// The content window does not yet reach down to where the banner ended.
pub open spec fn main_is_short(sizes: LayoutSizes) -> bool {
    sizes.main.height != sizes.parent.height - MAIN_VIEW_MARGIN
}

/// There is a lock overlay and it does not yet cover its parent.
pub open spec fn lock_is_short(sizes: LayoutSizes) -> bool {
    sizes.lock matches Some(lock) && lock.height != sizes.parent.height - LOCK_VIEW_MARGIN
}

/// Nothing of the layout is left to correct.
pub open spec fn is_corrected(sizes: LayoutSizes) -> bool {
    !ad_is_visible(sizes) && !main_is_short(sizes) && !lock_is_short(sizes)
}

/// The placement that collapses the banner.
pub open spec fn ad_collapse(target: RemoveAdLayoutTarget) -> Placement {
    Placement { hwnd: target.ad_view_hwnd, x: 0, y: 0, width: 0, height: 0 }
}

/// The placement that lets the content window take the banner's space.
pub open spec fn main_placement(target: RemoveAdLayoutTarget, sizes: LayoutSizes) -> Placement {
    Placement {
        hwnd: target.main_view_hwnd,
        x: MAIN_VIEW_X,
        y: MAIN_VIEW_Y,
        width: sizes.main.width,
        height: (sizes.parent.height - MAIN_VIEW_MARGIN) as i64,
    }
}

/// The placement that lets the lock overlay cover its parent.
pub open spec fn lock_placement(target: RemoveAdLayoutTarget, sizes: LayoutSizes) -> Placement {
    Placement {
        hwnd: target.lock_view_hwnd.unwrap(),
        x: LOCK_VIEW_X,
        y: LOCK_VIEW_Y,
        width: sizes.lock.unwrap().width,
        height: (sizes.parent.height - LOCK_VIEW_MARGIN) as i64,
    }
}

/// The placements that correct a layout of the given extents: the banner's
/// collapse, then the content window, then the lock overlay, each only where
/// it is needed.
pub open spec fn placements_for(target: RemoveAdLayoutTarget, sizes: LayoutSizes) -> Seq<Placement> {
    (if ad_is_visible(sizes) {
        seq![ad_collapse(target)]
    } else {
        Seq::<Placement>::empty()
    }) + (if main_is_short(sizes) {
        seq![main_placement(target, sizes)]
    } else {
        Seq::<Placement>::empty()
    }) + (if lock_is_short(sizes) && target.lock_view_hwnd is Some {
        seq![lock_placement(target, sizes)]
    } else {
        Seq::<Placement>::empty()
    })
}

/// How many placements for the given extents resize a window to fit its
/// parent. Collapsing the banner is not among them.
pub open spec fn resizes_for(target: RemoveAdLayoutTarget, sizes: LayoutSizes) -> nat {
    (if main_is_short(sizes) {
        1nat
    } else {
        0nat
    }) + (if lock_is_short(sizes) && target.lock_view_hwnd is Some {
        1nat
    } else {
        0nat
    })
}

/// The placements that correct the layout, given the bounds that could be
/// read. Where the parent, the content window or the banner could not be
/// measured, nothing is placed.
pub open spec fn correction_plan(target: RemoveAdLayoutTarget, bounds: TargetBounds) -> Seq<Placement> {
    match sizes_of(target, bounds) {
        Some(sizes) => placements_for(target, sizes),
        None => Seq::<Placement>::empty(),
    }
}

/// How many placements of the plan resize a window to fit its parent.
pub open spec fn correction_resizes(target: RemoveAdLayoutTarget, bounds: TargetBounds) -> nat {
    match sizes_of(target, bounds) {
        Some(sizes) => resizes_for(target, sizes),
        None => 0,
    }
}

/// The extents of the layout once every placement for it has been carried
/// out: a placed window has the width and height of its placement.
pub open spec fn sizes_after(target: RemoveAdLayoutTarget, sizes: LayoutSizes) -> LayoutSizes {
    LayoutSizes {
        parent: sizes.parent,
        main: if main_is_short(sizes) {
            RectSize {
                width: main_placement(target, sizes).width,
                height: main_placement(target, sizes).height,
            }
        } else {
            sizes.main
        },
        ad: if ad_is_visible(sizes) {
            RectSize { width: ad_collapse(target).width, height: ad_collapse(target).height }
        } else {
            sizes.ad
        },
        lock: if lock_is_short(sizes) && target.lock_view_hwnd is Some {
            Some(
                RectSize {
                    width: lock_placement(target, sizes).width,
                    height: lock_placement(target, sizes).height,
                },
            )
        } else {
            sizes.lock
        },
    }
}

/// Measures the windows of a layout. Gives nothing where the parent, the
/// content window or the banner could not be measured.
pub fn measure(target: &RemoveAdLayoutTarget, bounds: &TargetBounds) -> (sizes: Option<LayoutSizes>)
    ensures
        sizes == sizes_of(*target, *bounds),
        sizes matches Some(s) ==> are_extents(s),
{
    let main = match bounds.main {
        Some(rect) => rect_to_size(rect),
        None => { return None; },
    };
    let ad = match bounds.ad {
        Some(rect) => rect_to_size(rect),
        None => { return None; },
    };
    let parent = match bounds.parent {
        Some(rect) => rect_to_size(rect),
        None => { return None; },
    };
    let lock = match (target.lock_view_hwnd, bounds.lock) {
        (Some(_), Some(rect)) => Some(rect_to_size(rect)),
        _ => None,
    };
    Some(LayoutSizes { parent, main, ad, lock })
}

/// Plans the correction of a layout whose windows have the given extents.
pub fn correct_sizes(target: &RemoveAdLayoutTarget, sizes: &LayoutSizes) -> (correction: Correction)
    requires
        are_extents(*sizes),
    ensures
        correction.placements@ == placements_for(*target, *sizes),
        correction.resizes == resizes_for(*target, *sizes),
{
    let mut placements: Vec<Placement> = Vec::new();
    let mut resizes: u32 = 0;
    if sizes.ad.height != 0 {
        placements.push(Placement { hwnd: target.ad_view_hwnd, x: 0, y: 0, width: 0, height: 0 });
    }
    if sizes.main.height != sizes.parent.height - MAIN_VIEW_MARGIN {
        placements.push(
            Placement {
                hwnd: target.main_view_hwnd,
                x: MAIN_VIEW_X,
                y: MAIN_VIEW_Y,
                width: sizes.main.width,
                height: sizes.parent.height - MAIN_VIEW_MARGIN,
            },
        );
        resizes = resizes + 1;
    }
    match (target.lock_view_hwnd, sizes.lock) {
        (Some(hwnd), Some(lock)) => {
            if lock.height != sizes.parent.height - LOCK_VIEW_MARGIN {
                placements.push(
                    Placement {
                        hwnd,
                        x: LOCK_VIEW_X,
                        y: LOCK_VIEW_Y,
                        width: lock.width,
                        height: sizes.parent.height - LOCK_VIEW_MARGIN,
                    },
                );
                resizes = resizes + 1;
            }
        },
        _ => {},
    }
    assert(placements@ =~= placements_for(*target, *sizes));
    Correction { placements, resizes }
}

/// Plans the correction of a layout from the bounds that could be read.
pub fn plan_correction(target: &RemoveAdLayoutTarget, bounds: &TargetBounds) -> (correction:
    Correction)
    ensures
        correction.placements@ == correction_plan(*target, *bounds),
        correction.resizes == correction_resizes(*target, *bounds),
{
    match measure(target, bounds) {
        Some(sizes) => correct_sizes(target, &sizes),
        None => Correction { placements: Vec::new(), resizes: 0 },
    }
}

} // verus!
