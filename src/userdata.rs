use vstd::prelude::*;
use crate::keymap::{default_keymap, Keymap};

verus! {

/// Magic number that marks stored user data as valid for this layout.
#[derive(Clone, Copy, Debug, PartialEq, Eq, Structural)]
pub struct Signature(pub u32);

impl Signature {
    /// The signature of the current layout; changed whenever it changes.
    pub const CURRENT: u32 = 0x26d6_7ba1;

    /// Whether stored data with this signature can be read as [`Userdata`].
    pub fn is_current(&self) -> (r: bool)
        ensures
            r == (self.0 == Signature::CURRENT),
    {
        self.0 == Signature::CURRENT
    }
}

/// Everything the controller keeps across power cycles.
#[derive(Clone, Copy, Debug, PartialEq, Eq, Structural)]
pub struct Userdata {
    pub signature: Signature,
    pub keymap: Keymap,
    /// Whether the controller enumerates as an arcade (EAC) controller.
    pub eac_mode: bool,
}

pub open spec fn default_userdata() -> Userdata {
    Userdata {
        signature: Signature(Signature::CURRENT),
        keymap: default_keymap(),
        eac_mode: false,
    }
}

impl Default for Userdata {
    fn default() -> (r: Self)
        ensures
            r == default_userdata(),
    {
        Userdata {
            signature: Signature(Signature::CURRENT),
            keymap: Keymap::default(),
            eac_mode: false,
        }
    }
}

/// What a boot-time hotkey asks for: start held with button 1 selects EAC
/// mode, start held with button 2 selects HID mode. `None` when nothing
/// changes.
pub open spec fn hotkey_mode(start: bool, button1: bool, button2: bool, eac_mode: bool) -> Option<
    bool,
> {
    if !start {
        None
    } else if button1 && !eac_mode {
        Some(true)
    } else if button2 && eac_mode {
        Some(false)
    } else {
        None
    }
}

/// Applies the boot-time mode hotkey to the user data; returns whether the
/// mode changed, in which case the data is to be saved.
pub fn read_mode_hotkey(start: bool, button1: bool, button2: bool, data: &mut Userdata) -> (r:
    bool)
    ensures
        r == hotkey_mode(start, button1, button2, old(data).eac_mode) is Some,
        *final(data) == match hotkey_mode(start, button1, button2, old(data).eac_mode) {
            Some(m) => Userdata { eac_mode: m, ..*old(data) },
            None => *old(data),
        },
{
    if !start {
        return false;
    }
    if button1 && !data.eac_mode {
        data.eac_mode = true;
        true
    } else if button2 && data.eac_mode {
        data.eac_mode = false;
        true
    } else {
        false
    }
}

/// The current user data, shared by the tasks that read and change it.
///
/// Every change moves the version on, so that a reader that kept the
/// version of its last read knows when to read again; a request to save is
/// kept until the task that writes flash takes it.
pub struct UserdataStore {
    current: Userdata,
    version: u64,
    save_pending: bool,
}

/// The abstract state of a [`UserdataStore`].
pub struct StoreState {
    pub current: Userdata,
    pub version: int,
    pub save_pending: bool,
}

impl View for UserdataStore {
    type V = StoreState;

    closed spec fn view(&self) -> StoreState {
        StoreState {
            current: self.current,
            version: self.version as int,
            save_pending: self.save_pending,
        }
    }
}

impl UserdataStore {
    /// A store holding the data read at start-up.
    pub fn new(data: Userdata) -> (r: Self)
        ensures
            r@ == (StoreState { current: data, version: 0, save_pending: false }),
    {
        UserdataStore { current: data, version: 0, save_pending: false }
    }

    /// Applies `f` to the current user data.
    pub fn get<R, F: FnOnce(&Userdata) -> R>(&self, f: F) -> (r: R)
        requires
            f.requires((&self@.current,)),
        ensures
            f.ensures((&self@.current,), r),
    {
        f(&self.current)
    }

    /// Replaces the current user data by `f` of it, and moves the version on.
    pub fn update<F: FnOnce(Userdata) -> Userdata>(&mut self, f: F)
        requires
            f.requires((old(self)@.current,)),
        ensures
            f.ensures((old(self)@.current,), final(self)@.current),
            final(self)@.version == if old(self)@.version == u64::MAX {
                0
            } else {
                old(self)@.version + 1
            },
            final(self)@.save_pending == old(self)@.save_pending,
    {
        self.current = f(self.current);
        self.version = if self.version == u64::MAX {
            0
        } else {
            self.version + 1
        };
    }

    /// The version of the current user data.
    pub fn version(&self) -> (r: u64)
        ensures
            r == self@.version,
    {
        self.version
    }

    /// Whether the user data changed since a read at version `seen`.
    pub fn changed_since(&self, seen: u64) -> (r: bool)
        ensures
            r == (self@.version != seen),
    {
        self.version != seen
    }

    /// Requests that the current user data be written to flash.
    pub fn save(&mut self)
        ensures
            final(self)@ == (StoreState { save_pending: true, ..old(self)@ }),
    {
        self.save_pending = true;
    }

    /// Takes the pending save request, if any.
    pub fn take_save_request(&mut self) -> (r: bool)
        ensures
            r == old(self)@.save_pending,
            final(self)@ == (StoreState { save_pending: false, ..old(self)@ }),
    {
        let pending = self.save_pending;
        self.save_pending = false;
        pending
    }
}

} // verus!
