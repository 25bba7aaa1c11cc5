//! Keybindings that are registered with the system as hot keys while work
//! mode decides which of them are live.

use vstd::prelude::*;

verus! {

/// A direction on the screen.
#[derive(Debug, Clone, Copy, PartialEq, Eq, Structural)]
pub enum Direction {
    Left,
    Right,
    Up,
    Down,
}

/// The way a tile is split in two.
#[derive(Debug, Clone, Copy, PartialEq, Eq, Structural)]
pub enum SplitDirection {
    Horizontal,
    Vertical,
}

/// A command line to launch.
pub type Command = String;

/// What a keybinding does.
#[derive(Debug, Clone, PartialEq)]
pub enum KeybindingType {
    CloseTile,
    Quit,
    ChangeWorkspace(i32),
    ToggleFloatingMode,
    ToggleWorkMode,
    MoveWorkspaceToMonitor(i32),
    ToggleFullscreen,
    Launch(Command),
    Focus(Direction),
    Swap(Direction),
    MoveToWorkspace(i32),
    Split(SplitDirection),
}

impl KeybindingType {
    /// Whether this is the binding that toggles work mode, which stays live
    /// when work mode is off.
    pub fn toggles_work_mode(&self) -> (toggles: bool)
        ensures
            toggles == (*self is ToggleWorkMode),
    {
        match self {
            KeybindingType::ToggleWorkMode => true,
            _ => false,
        }
    }
}

/// The keys held together with the key of a binding.
#[derive(Debug, Clone, Copy, PartialEq, Eq, Structural)]
pub enum Modifier {
    Alt,
    Control,
    Shift,
    AltControl,
    AltShift,
    AltControlShift,
}

impl Modifier {
    /// The flags by which the system knows the held keys: 1 for alt, 2 for
    /// control, 4 for shift, added up.
    pub open spec fn spec_bits(self) -> u32 {
        match self {
            Modifier::Alt => 1,
            Modifier::Control => 2,
            Modifier::Shift => 4,
            Modifier::AltControl => 3,
            Modifier::AltShift => 5,
            Modifier::AltControlShift => 7,
        }
    }

    /// The flags by which the system knows the held keys.
    pub fn bits(self) -> (bits: u32)
        ensures
            bits == self.spec_bits(),
    {
        match self {
            Modifier::Alt => 1,
            Modifier::Control => 2,
            Modifier::Shift => 4,
            Modifier::AltControl => 3,
            Modifier::AltShift => 5,
            Modifier::AltControlShift => 7,
        }
    }
}

impl Default for Modifier {
    fn default() -> (modifier: Modifier)
        ensures
            modifier == Modifier::Alt,
    {
        Modifier::Alt
    }
}

/// A key, the keys held with it, and what pressing them does.
#[derive(Debug, Clone)]
pub struct Keybinding {
    pub typ: KeybindingType,
    /// The virtual key code of the key.
    pub key: u32,
    pub modifier: Modifier,
    /// Whether the binding is registered with the system at the moment.
    pub registered: bool,
}

/// The largest virtual key code.
pub const MAX_KEY: u32 = 0xFF;

/// What is handed to the system to register a hot key.
#[derive(Debug, Clone, Copy, PartialEq, Eq, Structural)]
pub struct Registration {
    pub id: i32,
    pub modifier: u32,
    pub key: u32,
}

impl Keybinding {
    /// The number under which the binding is registered: key code and
    /// modifier flags added up.
    pub open spec fn spec_id(self) -> int {
        self.key + self.modifier.spec_bits()
    }

    /// The number under which the binding is registered.
    pub fn id(&self) -> (id: i32)
        requires
            self.key <= MAX_KEY,
        ensures
            id == self.spec_id(),
    {
        (self.key + self.modifier.bits()) as i32
    }

    /// Whether a press of the hot key with these modifier flags and this
    /// key code is a press of this binding.
    pub fn pressed_by(&self, modifier: u32, key: u32) -> (pressed: bool)
        ensures
            pressed == (self.key == key && self.modifier.spec_bits() == modifier),
    {
        self.key == key && self.modifier.bits() == modifier
    }
}

/// Which bindings are to be live.
#[derive(Debug, Clone, Copy, PartialEq, Eq, Structural)]
pub enum Live {
    /// None: the hot keys are being given up.
    Nothing,
    /// Only the binding that toggles work mode: work mode is off.
    ToggleOnly,
    /// All of them: work mode is on.
    Everything,
}

impl Live {
    /// What is live while the manager runs, in and out of work mode.
    pub fn running(work_mode: bool) -> (live: Live)
        ensures
            live == if work_mode {
                Live::Everything
            } else {
                Live::ToggleOnly
            },
    {
        if work_mode {
            Live::Everything
        } else {
            Live::ToggleOnly
        }
    }
}

/// Whether the binding is to be live.
pub open spec fn wanted(binding: Keybinding, live: Live) -> bool {
    match live {
        Live::Nothing => false,
        Live::ToggleOnly => binding.typ is ToggleWorkMode,
        Live::Everything => true,
    }
}

/// The binding once it is as wanted: registered exactly if it is to be
/// live.
pub open spec fn settled(binding: Keybinding, live: Live) -> Keybinding {
    Keybinding { registered: wanted(binding, live), ..binding }
}

/// What has to change about one binding to make it as wanted.
#[derive(Debug, Clone, Copy, PartialEq, Eq, Structural)]
pub enum Change {
    /// It is as wanted.
    Keep,
    /// Register it.
    Register(Registration),
    /// Take the registration with this number back.
    Unregister(i32),
}

/// What has to change about a binding.
pub open spec fn change_of(binding: Keybinding, live: Live) -> Change {
    if wanted(binding, live) && !binding.registered {
        Change::Register(
            Registration {
                id: binding.spec_id() as i32,
                modifier: binding.modifier.spec_bits(),
                key: binding.key,
            },
        )
    } else if !wanted(binding, live) && binding.registered {
        Change::Unregister(binding.spec_id() as i32)
    } else {
        Change::Keep
    }
}

/// Makes the bindings as wanted: those that are to be live and are not
/// registered are registered, those that are registered and are not to be
/// live are given up. Says for each binding, in order, what has to be done
/// with the system.
pub fn sync_keybindings(keybindings: &mut Vec<Keybinding>, live: Live) -> (changes: Vec<Change>)
    requires
        forall|i: int| 0 <= i < old(keybindings)@.len() ==> (#[trigger] old(keybindings)@[i]).key
            <= MAX_KEY,
    ensures
        final(keybindings)@.len() == old(keybindings)@.len(),
        changes@.len() == old(keybindings)@.len(),
        forall|i: int|
            0 <= i < old(keybindings)@.len() ==> #[trigger] final(keybindings)@[i] == settled(
                old(keybindings)@[i],
                live,
            ),
        forall|i: int|
            0 <= i < old(keybindings)@.len() ==> #[trigger] changes@[i] == change_of(
                old(keybindings)@[i],
                live,
            ),
{
    let mut changes: Vec<Change> = Vec::new();
    let n = keybindings.len();
    let mut i: usize = 0;
    while i < n
        invariant
            i <= n,
            n == keybindings@.len(),
            n == old(keybindings)@.len(),
            changes@.len() == i,
            forall|k: int| 0 <= k < n ==> (#[trigger] old(keybindings)@[k]).key <= MAX_KEY,
            forall|k: int|
                0 <= k < i ==> #[trigger] keybindings@[k] == settled(
                    old(keybindings)@[k],
                    live,
                ),
            forall|k: int| i <= k < n ==> #[trigger] keybindings@[k] == old(keybindings)@[k],
            forall|k: int|
                0 <= k < i ==> #[trigger] changes@[k] == change_of(old(keybindings)@[k], live),
        decreases n - i,
    {
        assert(old(keybindings)@[i as int].key <= MAX_KEY);
        let wanted = match live {
            Live::Nothing => false,
            Live::ToggleOnly => keybindings[i].typ.toggles_work_mode(),
            Live::Everything => true,
        };
        let registered = keybindings[i].registered;
        if wanted && !registered {
            let id = keybindings[i].id();
            let modifier = keybindings[i].modifier.bits();
            let key = keybindings[i].key;
            keybindings[i].registered = true;
            changes.push(Change::Register(Registration { id, modifier, key }));
        } else if !wanted && registered {
            let id = keybindings[i].id();
            keybindings[i].registered = false;
            changes.push(Change::Unregister(id));
        } else {
            changes.push(Change::Keep);
        }
        i += 1;
    }
    changes
}

} // verus!
