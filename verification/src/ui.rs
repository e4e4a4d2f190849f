//! The shape of the screen: a header with the tab bar, a body whose content
//! the selected tab decides, and a footer with a hint.

use vstd::prelude::*;

verus! {

/// Rows that the header takes at the top of the screen.
pub const HEADER_HEIGHT: u16 = 3;

/// Rows that the footer takes at the bottom of the screen. The body has what
/// is left between header and footer.
pub const FOOTER_HEIGHT: u16 = 3;

/// The content of the body of the screen.
#[derive(Clone, Copy, Debug, PartialEq, Eq)]
pub enum Panel {
    /// The two usage charts.
    Info,
    /// The queue.
    Queue,
    /// The settings.
    Settings,
    /// Nothing: the selection lies beyond the three known tabs.
    Blank,
}

/// The panel that belongs to the tab at position `index`.
pub open spec fn panel_at(index: nat) -> Panel {
    if index == 0 {
        Panel::Info
    } else if index == 1 {
        Panel::Queue
    } else if index == 2 {
        Panel::Settings
    } else {
        Panel::Blank
    }
}

/// Picks the panel that belongs to the tab at position `index`.
pub fn panel_for(index: usize) -> (panel: Panel)
    ensures
        panel == panel_at(index as nat),
{
    match index {
        0 => Panel::Info,
        1 => Panel::Queue,
        2 => Panel::Settings,
        _ => Panel::Blank,
    }
}

} // verus!
