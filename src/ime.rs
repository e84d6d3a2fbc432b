use vstd::prelude::*;

verus! {

/// Why the input method could not be switched.
#[derive(Clone, Copy, Debug, PartialEq, Eq, Structural)]
pub enum ImeError {
    /// The focused window could not be found.
    NoFocusedWindow,
    /// The focused window has no input method context.
    NoImeContext,
    /// The input method refused the request, with this reply.
    Refused(isize),
}

/// Switches the input method of the focused window on or off.
pub trait ImeActivator {
    fn activate(&self) -> Result<(), ImeError>;

    fn deactivate(&self) -> Result<(), ImeError>;
}

} // verus!
