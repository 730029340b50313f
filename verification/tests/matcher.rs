use kakaotalk_adblock::matcher::{
    adopt, build_snapshot, find_view, is_target_window, match_ad_layout, window_plays_role,
    RemoveAdLayoutTarget, ViewRole,
};
use kakaotalk_adblock::window::WindowDetail;

fn window(hwnd: usize, parent: Option<usize>, class_name: &str, title: &str) -> WindowDetail {
    WindowDetail { hwnd, parent, class_name: class_name.to_string(), title: title.to_string() }
}

fn application(hwnd: usize) -> WindowDetail {
    window(hwnd, None, "EVA_Window_Dblclk", "카카오톡")
}

#[test]
fn banner_class_matches_with_and_without_sandbox_prefix() {
    let sandboxed = window(1, Some(9), "Sandbox:DefaultBox:BannerAdWnd", "");
    let plain = window(2, Some(9), "BannerAdWnd", "");
    assert!(window_plays_role(&sandboxed, ViewRole::Ad));
    assert!(window_plays_role(&plain, ViewRole::Ad));
}

#[test]
fn a_banner_has_no_title() {
    assert!(!window_plays_role(&window(1, Some(9), "BannerAdWnd", "x"), ViewRole::Ad));
    assert!(!window_plays_role(&window(1, Some(9), "BannerAdWndX", ""), ViewRole::Ad));
    assert!(!window_plays_role(&window(1, Some(9), "", ""), ViewRole::Ad));
}

#[test]
fn the_content_window_is_told_by_class_and_start_of_title() {
    assert!(window_plays_role(
        &window(1, Some(9), "EVA_ChildWindow", "OnlineMainView_0x00ab"),
        ViewRole::Main
    ));
    assert!(window_plays_role(
        &window(1, Some(9), "Sandbox:DefaultBox:EVA_ChildWindow", "OnlineMainView"),
        ViewRole::Main
    ));
    assert!(!window_plays_role(
        &window(1, Some(9), "EVA_ChildWindow", "ContactListView"),
        ViewRole::Main
    ));
    assert!(!window_plays_role(
        &window(1, Some(9), "EVA_ChildWindow_Dblclk", "OnlineMainView"),
        ViewRole::Main
    ));
    assert!(!window_plays_role(&window(1, Some(9), "EVA_ChildWindow", ""), ViewRole::Main));
}

#[test]
fn the_lock_overlay_is_told_by_class_and_start_of_title() {
    assert!(window_plays_role(
        &window(1, Some(9), "EVA_ChildWindow_Dblclk", "LockModeView_0x1"),
        ViewRole::Lock
    ));
    assert!(window_plays_role(
        &window(1, Some(9), "Sandbox:DefaultBox:EVA_ChildWindow_Dblclk", "LockModeView_"),
        ViewRole::Lock
    ));
    assert!(!window_plays_role(
        &window(1, Some(9), "EVA_ChildWindow_Dblclk", "LockModeView"),
        ViewRole::Lock
    ));
    assert!(!window_plays_role(
        &window(1, Some(9), "EVA_ChildWindow", "LockModeView_"),
        ViewRole::Lock
    ));
}

#[test]
fn the_application_window_is_told_by_its_title() {
    assert!(is_target_window(&application(1)));
    assert!(!is_target_window(&window(1, None, "EVA_Window_Dblclk", "카카오톡 ")));
    assert!(!is_target_window(&window(1, None, "EVA_Window_Dblclk", "KakaoTalk")));
    assert!(!is_target_window(&window(1, None, "EVA_Window_Dblclk", "")));
}

#[test]
fn adopt_sets_the_parent_and_keeps_the_rest() {
    let child = adopt(window(5, None, "BannerAdWnd", "t"), 9);
    assert_eq!(child, window(5, Some(9), "BannerAdWnd", "t"));
    let moved = adopt(window(5, Some(1), "BannerAdWnd", "t"), 9);
    assert_eq!(moved, window(5, Some(9), "BannerAdWnd", "t"));
}

#[test]
fn a_snapshot_lists_the_children_in_order_and_then_the_top_window() {
    let snapshot = build_snapshot(
        application(9),
        vec![
            window(1, None, "EVA_ChildWindow", "OnlineMainView"),
            window(2, None, "BannerAdWnd", ""),
            window(3, None, "Other", "else"),
        ],
    );
    assert_eq!(
        snapshot,
        vec![
            window(1, Some(9), "EVA_ChildWindow", "OnlineMainView"),
            window(2, Some(9), "BannerAdWnd", ""),
            window(3, Some(9), "Other", "else"),
            application(9),
        ]
    );
}

#[test]
fn a_snapshot_without_children_is_the_top_window() {
    assert_eq!(build_snapshot(application(9), vec![]), vec![application(9)]);
}

#[test]
fn find_view_gives_the_first_window_in_the_role() {
    let windows = vec![
        window(1, Some(9), "Other", ""),
        window(2, Some(9), "BannerAdWnd", ""),
        window(3, Some(9), "Sandbox:DefaultBox:BannerAdWnd", ""),
    ];
    assert_eq!(find_view(&windows, ViewRole::Ad), Some(1));
    assert_eq!(find_view(&windows, ViewRole::Main), None);
    assert_eq!(find_view(&Vec::new(), ViewRole::Ad), None);
}

#[test]
fn matches_the_layout_of_a_scan() {
    let snapshot = build_snapshot(
        application(100),
        vec![
            window(11, None, "EVA_ChildWindow", "OnlineMainView_0x1"),
            window(12, None, "BannerAdWnd", ""),
        ],
    );
    assert_eq!(
        match_ad_layout(&snapshot),
        Some(RemoveAdLayoutTarget {
            parent_view_hwnd: 100,
            main_view_hwnd: 11,
            ad_view_hwnd: 12,
            lock_view_hwnd: None,
        })
    );
}

#[test]
fn matches_the_lock_overlay_where_there_is_one() {
    let snapshot = build_snapshot(
        application(100),
        vec![
            window(13, None, "EVA_ChildWindow_Dblclk", "LockModeView_0x2"),
            window(12, None, "Sandbox:DefaultBox:BannerAdWnd", ""),
            window(11, None, "Sandbox:DefaultBox:EVA_ChildWindow", "OnlineMainView_0x1"),
        ],
    );
    assert_eq!(
        match_ad_layout(&snapshot),
        Some(RemoveAdLayoutTarget {
            parent_view_hwnd: 100,
            main_view_hwnd: 11,
            ad_view_hwnd: 12,
            lock_view_hwnd: Some(13),
        })
    );
}

#[test]
fn takes_the_first_window_of_each_role() {
    let windows = vec![
        window(1, Some(9), "EVA_ChildWindow", "OnlineMainView_a"),
        window(2, Some(9), "EVA_ChildWindow", "OnlineMainView_b"),
        window(3, Some(9), "BannerAdWnd", ""),
        window(4, Some(9), "BannerAdWnd", ""),
    ];
    assert_eq!(
        match_ad_layout(&windows),
        Some(RemoveAdLayoutTarget {
            parent_view_hwnd: 9,
            main_view_hwnd: 1,
            ad_view_hwnd: 3,
            lock_view_hwnd: None,
        })
    );
}

#[test]
fn no_layout_without_a_content_window() {
    let windows = vec![window(3, Some(9), "BannerAdWnd", ""), application(9)];
    assert_eq!(match_ad_layout(&windows), None);
}

#[test]
fn no_layout_without_a_banner() {
    let windows = vec![window(1, Some(9), "EVA_ChildWindow", "OnlineMainView"), application(9)];
    assert_eq!(match_ad_layout(&windows), None);
}

#[test]
fn no_layout_without_the_application_window() {
    assert_eq!(match_ad_layout(&Vec::new()), None);
}

#[test]
fn no_layout_where_content_window_and_banner_have_different_parents() {
    let windows = vec![
        window(1, Some(9), "EVA_ChildWindow", "OnlineMainView"),
        window(3, Some(8), "BannerAdWnd", ""),
    ];
    assert_eq!(match_ad_layout(&windows), None);
}

#[test]
fn no_layout_where_the_first_banner_has_another_parent_though_a_later_one_fits() {
    let windows = vec![
        window(1, Some(9), "EVA_ChildWindow", "OnlineMainView"),
        window(3, Some(8), "BannerAdWnd", ""),
        window(4, Some(9), "BannerAdWnd", ""),
    ];
    assert_eq!(match_ad_layout(&windows), None);
}

#[test]
fn no_layout_where_the_windows_have_no_parent() {
    let windows = vec![
        window(1, None, "EVA_ChildWindow", "OnlineMainView"),
        window(3, None, "BannerAdWnd", ""),
    ];
    assert_eq!(match_ad_layout(&windows), None);
}
