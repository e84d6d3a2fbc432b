use vstd::prelude::*;

verus! {

// Native virtual-key codes of the bindable modifier keys.
pub const VK_SHIFT: u16 = 0x10;
pub const VK_CONTROL: u16 = 0x11;
pub const VK_RSHIFT: u16 = 0xA1;
pub const VK_RCONTROL: u16 = 0xA3;
pub const VK_LMENU: u16 = 0xA4;
pub const VK_RMENU: u16 = 0xA5;

/// A modifier key that can be bound to switching the input method on or off.
#[derive(Clone, Copy, Debug, PartialEq, Eq, Structural)]
pub enum Key {
    LeftAlt,
    RightAlt,
    LeftShift,
    RightShift,
    LeftCtrl,
    RightCtrl,
}

/// The native virtual-key code that identifies `k` in keyboard events.
pub open spec fn vk_of(k: Key) -> u16 {
    match k {
        Key::LeftAlt => VK_LMENU,
        Key::RightAlt => VK_RMENU,
        Key::LeftShift => VK_SHIFT,
        Key::RightShift => VK_RSHIFT,
        Key::LeftCtrl => VK_CONTROL,
        Key::RightCtrl => VK_RCONTROL,
    }
}

/// The bindable key whose native code is `vk`, if any.
pub open spec fn key_of(vk: u16) -> Option<Key> {
    if vk == VK_LMENU {
        Some(Key::LeftAlt)
    } else if vk == VK_RMENU {
        Some(Key::RightAlt)
    } else if vk == VK_SHIFT {
        Some(Key::LeftShift)
    } else if vk == VK_RSHIFT {
        Some(Key::RightShift)
    } else if vk == VK_CONTROL {
        Some(Key::LeftCtrl)
    } else if vk == VK_RCONTROL {
        Some(Key::RightCtrl)
    } else {
        None
    }
}

impl Key {
    pub fn as_virtual_key(&self) -> (r: u16)
        ensures
            r == vk_of(*self),
    {
        match self {
            Key::LeftAlt => VK_LMENU,
            Key::RightAlt => VK_RMENU,
            Key::LeftShift => VK_SHIFT,
            Key::RightShift => VK_RSHIFT,
            Key::LeftCtrl => VK_CONTROL,
            Key::RightCtrl => VK_RCONTROL,
        }
    }

    /// The key whose native code is `vk`, if it is one of the bindable keys.
    pub fn from_virtual_key(vk: u16) -> (r: Option<Key>)
        ensures
            r == key_of(vk),
    {
        if vk == VK_LMENU {
            Some(Key::LeftAlt)
        } else if vk == VK_RMENU {
            Some(Key::RightAlt)
        } else if vk == VK_SHIFT {
            Some(Key::LeftShift)
        } else if vk == VK_RSHIFT {
            Some(Key::RightShift)
        } else if vk == VK_CONTROL {
            Some(Key::LeftCtrl)
        } else if vk == VK_RCONTROL {
            Some(Key::RightCtrl)
        } else {
            None
        }
    }
}

/// Each key maps to exactly one native code and back: a key's code names
/// that key, a code names a key only if it is that key's code, and distinct
/// keys never share a code.
pub proof fn lemma_virtual_key_round_trip(k: Key, vk: u16)
    ensures
        key_of(vk_of(k)) == Some(k),
        key_of(vk) == Some(k) <==> vk_of(k) == vk,
        forall|j: Key| vk_of(j) == vk_of(k) ==> j == k,
{
}

/// Why a synthetic key event could not be injected.
#[derive(Clone, Copy, Debug, PartialEq, Eq, Structural)]
pub enum InputError {
    /// The system accepted fewer events than were sent.
    NotInjected,
}

/// Injects a harmless key press and release into the input stream, to cancel
/// what the system would otherwise do on the release of a bare modifier.
pub trait Keyboard {
    fn send_vk_none(&self) -> Result<(), InputError>;
}

} // verus!
