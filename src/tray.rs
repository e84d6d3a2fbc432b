use vstd::prelude::*;

use crate::config::Config;

verus! {

/// The tray could not show the new state.
#[derive(Clone, Copy, Debug, PartialEq, Eq, Structural)]
pub enum TrayError {
    NotUpdated,
}

/// Shows the configuration in the presentation surface, such as the check
/// mark of a tray menu item.
pub trait SystemTrayUpdater {
    fn update(&self, config: &Config) -> Result<(), TrayError>;
}

} // verus!
