//! The menu state machine the interface moves through.
//!
//! At most one menu is open at a time. The build button toggles the build
//! menu; the stop menu opens on arriving at a town and closes from its own
//! button; clicking a finished building opens its inspection menu.

use vstd::prelude::*;

verus! {

/// Which menu is open.
#[derive(Clone, Copy, PartialEq, Eq, Structural, Debug, Hash)]
pub enum InMenu {
    /// No menu is open; the world takes the input.
    NoMenu,
    /// The stop menu with its contract booths.
    StopMenu,
    /// The build menu with blueprints and placement preview.
    BuildMenu,
    /// The inspection menu of one finished building.
    BuildingMenu,
}

/// What the build button does: it opens the build menu, and closes it when
/// it is already open. It is only served while no other menu is open.
pub fn toggle_build_menu(menu: &InMenu) -> (next: InMenu)
    ensures
        *menu is BuildMenu ==> next is NoMenu,
        !(*menu is BuildMenu) ==> next is BuildMenu,
{
    match menu {
        InMenu::BuildMenu => InMenu::NoMenu,
        _ => InMenu::BuildMenu,
    }
}

} // verus!
