//! The start menu: which of its two entries is selected.

use vstd::prelude::*;

verus! {

/// An entry of the start menu.
#[derive(Debug, Clone, Copy, PartialEq, Eq, Structural)]
pub enum MenuOption {
    Start,
    Quit,
}

/// The entry that follows `option`; with two entries it is also the one
/// before it.
pub open spec fn other_option(option: MenuOption) -> MenuOption {
    match option {
        MenuOption::Start => MenuOption::Quit,
        MenuOption::Quit => MenuOption::Start,
    }
}

/// The start menu.
#[derive(Debug, Clone, Copy, PartialEq, Eq)]
pub struct Menu {
    selected_option: MenuOption,
}

impl View for Menu {
    type V = MenuOption;

    /// The selected entry.
    closed spec fn view(&self) -> MenuOption {
        self.selected_option
    }
}

impl Menu {
    /// Creates a menu with the start entry selected.
    pub fn new() -> (menu: Menu)
        ensures
            menu@ == MenuOption::Start,
    {
        Menu { selected_option: MenuOption::Start }
    }

    /// Selects the entry after the selected one, going round at the end.
    pub fn select_next(&mut self)
        ensures
            final(self)@ == other_option(old(self)@),
    {
        self.selected_option = match self.selected_option {
            MenuOption::Start => MenuOption::Quit,
            MenuOption::Quit => MenuOption::Start,
        };
    }

    /// Selects the entry before the selected one, going round at the start.
    pub fn select_previous(&mut self)
        ensures
            final(self)@ == other_option(old(self)@),
    {
        self.selected_option = match self.selected_option {
            MenuOption::Start => MenuOption::Quit,
            MenuOption::Quit => MenuOption::Start,
        };
    }

    /// The selected entry.
    pub fn get_selected_option(&self) -> (option: &MenuOption)
        ensures
            *option == self@,
    {
        &self.selected_option
    }
}

/// Going to the next entry and back, in either order, comes out where it
/// started.
pub proof fn lemma_other_option_involution(option: MenuOption)
    ensures
        other_option(other_option(option)) == option,
        other_option(option) != option,
{
}

} // verus!
