use kakaotalk_adblock::names::{
    same_text, starts_with, strip_sandbox_prefix, CLASS_AD_VIEW, SANDBOX_PREFIX,
};

#[test]
fn strips_the_sandbox_prefix() {
    assert_eq!(strip_sandbox_prefix("Sandbox:DefaultBox:BannerAdWnd"), "BannerAdWnd");
}

#[test]
fn leaves_a_plain_class_name_alone() {
    assert_eq!(strip_sandbox_prefix("BannerAdWnd"), "BannerAdWnd");
}

#[test]
fn strips_the_prefix_only_once() {
    assert_eq!(
        strip_sandbox_prefix("Sandbox:DefaultBox:Sandbox:DefaultBox:X"),
        "Sandbox:DefaultBox:X"
    );
}

#[test]
fn strips_the_prefix_only_at_the_start() {
    assert_eq!(strip_sandbox_prefix("XSandbox:DefaultBox:Y"), "XSandbox:DefaultBox:Y");
}

#[test]
fn the_bare_prefix_strips_to_nothing() {
    assert_eq!(strip_sandbox_prefix(SANDBOX_PREFIX), "");
}

#[test]
fn a_cut_off_prefix_is_no_prefix() {
    assert_eq!(strip_sandbox_prefix("Sandbox:DefaultBox"), "Sandbox:DefaultBox");
    assert_eq!(strip_sandbox_prefix(""), "");
}

#[test]
fn strips_in_front_of_text_beyond_ascii() {
    assert_eq!(strip_sandbox_prefix("Sandbox:DefaultBox:카카오톡"), "카카오톡");
}

#[test]
fn both_spellings_of_the_banner_class_compare_equal() {
    assert!(same_text(strip_sandbox_prefix("Sandbox:DefaultBox:BannerAdWnd"), CLASS_AD_VIEW));
    assert!(same_text(strip_sandbox_prefix("BannerAdWnd"), CLASS_AD_VIEW));
}

#[test]
fn starts_with_tells_prefixes() {
    assert!(starts_with("OnlineMainView_0x1234", "OnlineMainView"));
    assert!(starts_with("OnlineMainView", "OnlineMainView"));
    assert!(starts_with("anything", ""));
    assert!(starts_with("", ""));
    assert!(!starts_with("OnlineMain", "OnlineMainView"));
    assert!(!starts_with("xOnlineMainView", "OnlineMainView"));
    assert!(!starts_with("", "a"));
    assert!(starts_with("카카오톡 창", "카카오"));
    assert!(!starts_with("카카오톡", "카톡"));
}

#[test]
fn same_text_tells_equal_texts() {
    assert!(same_text("", ""));
    assert!(same_text("RichPopWnd", "RichPopWnd"));
    assert!(same_text("카카오톡", "카카오톡"));
    assert!(!same_text("RichPopWnd", "RichPopWnd2"));
    assert!(!same_text("RichPopWnd2", "RichPopWnd"));
    assert!(!same_text("richpopwnd", "RichPopWnd"));
    assert!(!same_text("", "a"));
}
