//! Window class names and titles the utility looks for, and the text
//! comparisons it is built on.

use vstd::prelude::*;

verus! {

/// Prefix a sandboxing tool puts in front of the class name of every window it hosts.
pub const SANDBOX_PREFIX: &'static str = "Sandbox:DefaultBox:";

/// Class of the child window that hosts the advertising banner.
pub const CLASS_AD_VIEW: &'static str = "BannerAdWnd";

/// Class of the overlay shown while the application is locked.
pub const CLASS_LOCK_VIEW: &'static str = "EVA_ChildWindow_Dblclk";

/// Class of the child window that shows the application's content.
pub const CLASS_MAIN_VIEW: &'static str = "EVA_ChildWindow";

/// Class of the advertising popups.
pub const CLASS_POPUP: &'static str = "RichPopWnd";

/// Title of the application's top-level window.
pub const TITLE_APPLICATION: &'static str = "카카오톡";

/// Title of the window whose events ask for the layout to be looked at again.
pub const TITLE_EDGE: &'static str = "KakaoTalkEdgeWnd";

/// How the title of the lock overlay begins.
pub const TITLE_LOCK_VIEW: &'static str = "LockModeView_";

/// How the title of the content window begins.
pub const TITLE_MAIN_VIEW: &'static str = "OnlineMainView";

/// `prefix` occurs at the very start of `text`.
pub open spec fn has_prefix(text: Seq<char>, prefix: Seq<char>) -> bool {
    prefix.is_prefix_of(text)
}

/// A class name as it is compared: without the sandbox prefix, if it carries one.
pub open spec fn normalized_class(class_name: Seq<char>) -> Seq<char> {
    if has_prefix(class_name, SANDBOX_PREFIX@) {
        class_name.skip(SANDBOX_PREFIX@.len() as int)
    } else {
        class_name
    }
}

/// Tells whether `text` begins with `prefix`, character by character.
pub fn starts_with(text: &str, prefix: &str) -> (found: bool)
    ensures
        found == has_prefix(text@, prefix@),
{
    let text_len = text.unicode_len();
    let prefix_len = prefix.unicode_len();
    if prefix_len > text_len {
        return false;
    }
    let mut i: usize = 0;
    while i < prefix_len
        invariant
            i <= prefix_len <= text_len,
            prefix_len == prefix@.len(),
            text_len == text@.len(),
            forall|j: int| 0 <= j < i ==> text@[j] == prefix@[j],
        decreases prefix_len - i,
    {
        if text.get_char(i) != prefix.get_char(i) {
            assert(prefix@[i as int] != text@.subrange(0, prefix@.len() as int)[i as int]);
            return false;
        }
        i += 1;
    }
    assert(prefix@ =~= text@.subrange(0, prefix@.len() as int));
    true
}

/// Tells whether two texts hold the same characters.
pub fn same_text(left: &str, right: &str) -> (same: bool)
    ensures
        same == (left@ == right@),
{
    if left.unicode_len() != right.unicode_len() {
        return false;
    }
    let same = starts_with(left, right);
    assert(left@.subrange(0, left@.len() as int) =~= left@);
    same
}

/// Removes the sandbox prefix from a class name that carries it.
pub fn strip_sandbox_prefix(class_name: &str) -> (stripped: &str)
    ensures
        stripped@ == normalized_class(class_name@),
{
    if starts_with(class_name, SANDBOX_PREFIX) {
        class_name.substring_char(SANDBOX_PREFIX.unicode_len(), class_name.unicode_len())
    } else {
        class_name
    }
}

} // verus!
