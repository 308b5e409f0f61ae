//! Identifiers that the presentation layer uses to pick a widget's style or
//! icon. The core only defines the closed sets of names; the presentation
//! layer maps each to its own appearance values.

use vstd::prelude::*;

verus! {

/// Style of a checkbox.
#[derive(Clone, Copy, Debug, PartialEq, Eq, Structural)]
pub enum CheckboxType {
    Standard,
}

impl core::default::Default for CheckboxType {
    fn default() -> (r: Self)
        ensures
            r == CheckboxType::Standard,
    {
        CheckboxType::Standard
    }
}

/// Style of a pick list.
#[derive(Clone, Copy, Debug, PartialEq, Eq, Structural)]
pub enum PicklistType {
    Standard,
}

impl core::default::Default for PicklistType {
    fn default() -> (r: Self)
        ensures
            r == PicklistType::Standard,
    {
        PicklistType::Standard
    }
}

/// The icons of the icon font.
#[derive(Clone, Copy, Debug, PartialEq, Eq, Structural)]
pub enum Icon {
    ArrowBack,
    ArrowLeft,
    ArrowRight,
    ArrowsDown,
    AudioHigh,
    AudioMute,
    Bin,
    BytesThreshold,
    Clock,
    Copy,
    Dots,
    Error,
    File,
    Forbidden,
    Funnel,
    GitHub,
    Globe,
    HalfSun,
    Hourglass1,
    Hourglass2,
    Hourglass3,
    Inspect,
    Lightning,
    Notification,
    Overview,
    PacketsThreshold,
    Rocket,
    Settings,
    Sniffnet,
    Star,
    Warning,
    Waves,
}

} // verus!
