//! State of the tabs in the truck's interface.

use vstd::prelude::*;

verus! {

/// The visual state of a tab.
#[derive(Debug, Clone, Copy, PartialEq, Eq)]
pub enum TabState {
    /// The tab is selected and active.
    Selected,
    /// The tab is being pressed.
    Pressed,
    /// The pointer hovers over the tab.
    Hover,
    /// The tab is neither selected nor interacted with.
    Default,
    /// The tab cannot be interacted with.
    Disabled,
}

impl Default for TabState {
    fn default() -> (r: Self)
        ensures
            r == TabState::Default,
    {
        TabState::Default
    }
}

/// The content sections of the truck's interface.
#[derive(Debug, Clone, Copy, PartialEq, Eq)]
pub enum TabContents {
    /// Managing the player's gear.
    Loadout,
    /// The location map (disabled).
    LocationMap,
    /// The camera feed (disabled).
    CameraFeed,
    /// Reviewing evidence and guessing the ghost.
    Journal,
}

/// What the pointer does to an interface element.
#[derive(Debug, Clone, Copy, PartialEq, Eq)]
pub enum Interaction {
    /// The pointer presses the element.
    Pressed,
    /// The pointer hovers over the element.
    Hovered,
    /// The pointer neither presses nor hovers.
    Idle,
}

/// A tab of the truck's interface.
#[derive(Debug, Clone)]
pub struct TruckTab {
    /// The display name of the tab.
    pub tabname: String,
    pub state: TabState,
    pub contents: TabContents,
}

/// The state a tab takes on an interaction: selected and disabled tabs keep
/// their state, the others follow the pointer.
pub open spec fn state_after(state: TabState, interaction: Interaction) -> TabState {
    match state {
        TabState::Disabled | TabState::Selected => state,
        _ => match interaction {
            Interaction::Pressed => TabState::Pressed,
            Interaction::Hovered => TabState::Hover,
            Interaction::Idle => TabState::Default,
        },
    }
}

impl TabContents {
    /// The display name of the section.
    pub fn name(&self) -> (r: &'static str)
        ensures
            r@ == match *self {
                TabContents::Loadout => "Loadout"@,
                TabContents::LocationMap => "Location Map"@,
                TabContents::CameraFeed => "Camera Feed"@,
                TabContents::Journal => "Journal"@,
            },
    {
        match self {
            TabContents::Loadout => "Loadout",
            TabContents::LocationMap => "Location Map",
            TabContents::CameraFeed => "Camera Feed",
            TabContents::Journal => "Journal",
        }
    }

    /// The state a tab of this section starts in: the map and camera tabs
    /// are disabled.
    pub fn default_state(&self) -> (r: TabState)
        ensures
            r == match *self {
                TabContents::LocationMap | TabContents::CameraFeed => TabState::Disabled,
                _ => TabState::Default,
            },
    {
        match self {
            TabContents::Loadout => TabState::Default,
            TabContents::LocationMap => TabState::Disabled,
            TabContents::CameraFeed => TabState::Disabled,
            TabContents::Journal => TabState::Default,
        }
    }
}

impl TruckTab {
    /// Updates the tab's visual state from a pointer interaction.
    pub fn update_from_interaction(&mut self, interaction: &Interaction)
        ensures
            final(self).state == state_after(old(self).state, *interaction),
            final(self).tabname == old(self).tabname,
            final(self).contents == old(self).contents,
    {
        match self.state {
            TabState::Disabled | TabState::Selected => {},
            TabState::Default | TabState::Hover | TabState::Pressed => {
                self.state =
                match interaction {
                    Interaction::Pressed => TabState::Pressed,
                    Interaction::Hovered => TabState::Hover,
                    Interaction::Idle => TabState::Default,
                };
            },
        }
    }
}

} // verus!
