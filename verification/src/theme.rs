//! The colour theme the UI derives from the model: red while the timer is
//! expired, blue during focus, green during a break. Each entry is the
//! exact utility class the style sheet knows.

use vstd::prelude::*;

verus! {

/// The six class strings the UI consumes.
pub struct ThemeColors {
    pub bg: String,
    pub bg_hover: String,
    pub bg_inverted: String,
    pub text: String,
    pub text_inverted: String,
    pub icon: String,
}

/// The colour family: red when expired, else blue for focus, green for a
/// break. Each spec function below picks its class from this rule.
pub open spec fn bg_class_seq(timer_expired: bool, is_focus_mode: bool) -> Seq<char> {
    if timer_expired {
        "bg-red-200"@
    } else if is_focus_mode {
        "bg-blue-200"@
    } else {
        "bg-green-200"@
    }
}

pub open spec fn bg_hover_class_seq(timer_expired: bool, is_focus_mode: bool) -> Seq<char> {
    if timer_expired {
        "hover:bg-red-500"@
    } else if is_focus_mode {
        "hover:bg-blue-500"@
    } else {
        "hover:bg-green-500"@
    }
}

pub open spec fn bg_inverted_class_seq(timer_expired: bool, is_focus_mode: bool) -> Seq<char> {
    if timer_expired {
        "bg-red-500"@
    } else if is_focus_mode {
        "bg-blue-500"@
    } else {
        "bg-green-500"@
    }
}

pub open spec fn text_class_seq(timer_expired: bool, is_focus_mode: bool) -> Seq<char> {
    if timer_expired {
        "text-red-500"@
    } else if is_focus_mode {
        "text-blue-500"@
    } else {
        "text-green-500"@
    }
}

pub open spec fn text_inverted_class_seq(timer_expired: bool, is_focus_mode: bool) -> Seq<char> {
    if timer_expired {
        "text-red-200"@
    } else if is_focus_mode {
        "text-blue-200"@
    } else {
        "text-green-200"@
    }
}

pub open spec fn icon_class_seq(timer_expired: bool, is_focus_mode: bool) -> Seq<char> {
    if timer_expired {
        "fill-red-500 stroke-red-500"@
    } else if is_focus_mode {
        "fill-blue-500 stroke-blue-500"@
    } else {
        "fill-green-500 stroke-green-500"@
    }
}

/// Computes the whole theme for a `(timer_expired, is_focus_mode)` pair.
pub fn theme_classes(timer_expired: bool, is_focus_mode: bool) -> (t: ThemeColors)
    ensures
        t.bg@ == bg_class_seq(timer_expired, is_focus_mode),
        t.bg_hover@ == bg_hover_class_seq(timer_expired, is_focus_mode),
        t.bg_inverted@ == bg_inverted_class_seq(timer_expired, is_focus_mode),
        t.text@ == text_class_seq(timer_expired, is_focus_mode),
        t.text_inverted@ == text_inverted_class_seq(timer_expired, is_focus_mode),
        t.icon@ == icon_class_seq(timer_expired, is_focus_mode),
{
    if timer_expired {
        ThemeColors {
            bg: "bg-red-200".to_owned(),
            bg_hover: "hover:bg-red-500".to_owned(),
            bg_inverted: "bg-red-500".to_owned(),
            text: "text-red-500".to_owned(),
            text_inverted: "text-red-200".to_owned(),
            icon: "fill-red-500 stroke-red-500".to_owned(),
        }
    } else if is_focus_mode {
        ThemeColors {
            bg: "bg-blue-200".to_owned(),
            bg_hover: "hover:bg-blue-500".to_owned(),
            bg_inverted: "bg-blue-500".to_owned(),
            text: "text-blue-500".to_owned(),
            text_inverted: "text-blue-200".to_owned(),
            icon: "fill-blue-500 stroke-blue-500".to_owned(),
        }
    } else {
        ThemeColors {
            bg: "bg-green-200".to_owned(),
            bg_hover: "hover:bg-green-500".to_owned(),
            bg_inverted: "bg-green-500".to_owned(),
            text: "text-green-500".to_owned(),
            text_inverted: "text-green-200".to_owned(),
            icon: "fill-green-500 stroke-green-500".to_owned(),
        }
    }
}

} // verus!
