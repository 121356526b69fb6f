use vstd::prelude::*;
use crate::style::DisplayStyle;

verus! {

/// A configuration mistake found before any rendering is attempted.
#[derive(PartialEq, Eq, Debug)]
pub enum ConfigError {
    /// A user-supplied color override failed to parse; carries the
    /// offending string.
    InvalidColor(String),
    /// More than one tile style was requested.
    StyleConflict,
    /// More than one time window was requested.
    TimeWindowConflict,
}

/// How much history the collaborator is asked to fetch.
#[derive(Clone, Copy, PartialEq, Eq, Structural, Debug)]
pub enum TimeWindow {
    PastYear,
    YearToDate,
    PastMonth,
}

/// More than one of the mutually exclusive style flags is set.
pub open spec fn spec_style_conflict(block: bool, half: bool, circle: bool) -> bool {
    (block && half) || (block && circle) || (half && circle)
}

/// The style the flags pick when they do not conflict.
pub open spec fn spec_chosen_style(block: bool, half: bool, circle: bool) -> DisplayStyle {
    if block {
        DisplayStyle::FullBlock
    } else if circle {
        DisplayStyle::Circle
    } else if half {
        DisplayStyle::HalfBlock
    } else {
        DisplayStyle::SmallSquare
    }
}

/// Turn the three mutually exclusive style flags into a tile style;
/// more than one set is a configuration error.
pub fn select_style(block: bool, half: bool, circle: bool) -> (r: Result<DisplayStyle, ConfigError>)
    ensures
        spec_style_conflict(block, half, circle) ==> r == Err::<DisplayStyle, ConfigError>(
            ConfigError::StyleConflict,
        ),
        !spec_style_conflict(block, half, circle) ==> r == Ok::<DisplayStyle, ConfigError>(
            spec_chosen_style(block, half, circle),
        ),
{
    if (block && half) || (block && circle) || (half && circle) {
        Err(ConfigError::StyleConflict)
    } else if block {
        Ok(DisplayStyle::FullBlock)
    } else if circle {
        Ok(DisplayStyle::Circle)
    } else if half {
        Ok(DisplayStyle::HalfBlock)
    } else {
        Ok(DisplayStyle::SmallSquare)
    }
}

/// The window the flags pick when they do not conflict.
pub open spec fn spec_chosen_window(ytd: bool, month: bool) -> TimeWindow {
    if ytd {
        TimeWindow::YearToDate
    } else if month {
        TimeWindow::PastMonth
    } else {
        TimeWindow::PastYear
    }
}

/// Turn the two mutually exclusive time window flags into a window;
/// both set is a configuration error.
pub fn select_time_window(ytd: bool, month: bool) -> (r: Result<TimeWindow, ConfigError>)
    ensures
        ytd && month ==> r == Err::<TimeWindow, ConfigError>(ConfigError::TimeWindowConflict),
        !(ytd && month) ==> r == Ok::<TimeWindow, ConfigError>(spec_chosen_window(ytd, month)),
{
    if ytd && month {
        Err(ConfigError::TimeWindowConflict)
    } else if ytd {
        Ok(TimeWindow::YearToDate)
    } else if month {
        Ok(TimeWindow::PastMonth)
    } else {
        Ok(TimeWindow::PastYear)
    }
}

impl ConfigError {
    /// A human-readable description; an invalid color names the
    /// offending string.
    pub fn message(&self) -> (s: String)
        ensures
            self matches ConfigError::InvalidColor(t) ==> s@ == "invalid hex color: "@ + t@,
            self is StyleConflict ==> s@ == "only one tile style flag may be set"@,
            self is TimeWindowConflict ==> s@ == "only one time window flag may be set"@,
    {
        match self {
            ConfigError::InvalidColor(t) => {
                let mut s = String::from_str("invalid hex color: ");
                s.append(t.as_str());
                s
            },
            ConfigError::StyleConflict => String::from_str("only one tile style flag may be set"),
            ConfigError::TimeWindowConflict => String::from_str(
                "only one time window flag may be set",
            ),
        }
    }
}

} // verus!
