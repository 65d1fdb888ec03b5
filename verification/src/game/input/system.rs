//! Events as the windowing system reports them.

use crate::game::input::map::ActionMap;
use crate::game::input::sources::{
    ActionDescriptor,
    ActionState,
    MouseAxis,
    MouseSource,
    Source,
};
use crate::game::input::table::NameTable;
use vstd::prelude::*;

verus! {

/// What kind of device event happened.
#[derive(Clone, Copy, Debug, PartialEq, Eq, Hash)]
pub enum SystemEventKind {
    Key,
    MouseMotion(MouseAxis),
    MouseButton,
    MouseScroll,
}

/// Whether a key or button went down or came up.
#[derive(Clone, Copy, Debug, PartialEq, Eq, Hash)]
pub enum SystemEventState {
    Pressed,
    Released,
}

/// A button of the mouse.
#[derive(Clone, Copy, Debug, PartialEq, Eq, Hash, Structural)]
pub enum MouseButton {
    Left,
    Right,
}

/// A key of the keyboard.
#[derive(Clone, Copy, Debug, PartialEq, Eq, Hash, Structural)]
pub enum Key {
    A,
    Alt,
    Insert,
    ArrowDown,
    ArrowLeft,
    ArrowRight,
    ArrowUp,
    B,
    Backspace,
    C,
    CapsLock,
    Clear,
    Control,
    D,
    Delete,
    E,
    End,
    Enter,
    Escape,
    F,
    F1,
    F2,
    F3,
    F4,
    F5,
    F6,
    F7,
    F8,
    F9,
    F10,
    F11,
    F12,
    F13,
    F14,
    F15,
    F16,
    F17,
    F18,
    F19,
    G,
    H,
    Home,
    I,
    J,
    K,
    Key0,
    Key1,
    Key2,
    Key3,
    Key4,
    Key5,
    Key6,
    Key7,
    Key8,
    Key9,
    KeyBackSlash,
    KeyBackTick,
    KeyComma,
    KeyEquals,
    KeyForwardSlash,
    KeyFullStop,
    KeyLeftBracket,
    KeyMinus,
    KeyPlus,
    KeyRightBracket,
    KeySemicolon,
    KeySingleQuote,
    KeyStar,
    L,
    M,
    N,
    NumLock,
    O,
    P,
    PageDown,
    PageUp,
    Q,
    R,
    S,
    Shift,
    Space,
    Super,
    T,
    Tab,
    U,
    V,
    W,
    X,
    Y,
    Z,
}

/// One event of an input device. An axis value is carried as the bit pattern
/// of a single-precision number.
#[derive(Clone, Copy, Debug, PartialEq, Eq)]
pub struct SystemEvent {
    pub kind: SystemEventKind,
    pub state: Option<SystemEventState>,
    pub value: Option<u32>,
    pub key: Option<Key>,
    pub mouse_button: Option<MouseButton>,
    pub repeated: bool,
}

impl Default for SystemEvent {
    fn default() -> (event: SystemEvent)
        ensures
            event == (SystemEvent {
                kind: SystemEventKind::Key,
                state: None,
                value: None,
                key: None,
                mouse_button: None,
                repeated: false,
            }),
    {
        SystemEvent {
            kind: SystemEventKind::Key,
            state: None,
            value: None,
            key: None,
            mouse_button: None,
            repeated: false,
        }
    }
}

impl SystemEvent {
    /// The source that a binding must name to hear this event: the key of a
    /// key event, the axis of a mouse motion, and nothing for buttons and
    /// scrolling.
    pub open spec fn source_spec(&self) -> Option<Source> {
        match self.kind {
            SystemEventKind::Key => match self.key {
                Some(key) => Some(Source::Keyboard(key)),
                None => None,
            },
            SystemEventKind::MouseMotion(axis) => Some(Source::Mouse(MouseSource::Move(axis))),
            _ => None,
        }
    }

    /// A key event names its key.
    pub open spec fn wf(&self) -> bool {
        self.kind is Key ==> self.key is Some
    }

    /// The source of this event, if bindings can listen to it.
    pub fn source(&self) -> (source: Option<Source>)
        requires
            self.wf(),
        ensures
            source == self.source_spec(),
            source is Some <==> (self.kind is Key || self.kind is MouseMotion),
    {
        match self.kind {
            SystemEventKind::Key => match self.key {
                Some(key) => Some(Source::Keyboard(key)),
                None => None,
            },
            SystemEventKind::MouseMotion(axis) => Some(Source::Mouse(MouseSource::Move(axis))),
            _ => None,
        }
    }
}

/// What the window system knows of the input devices once all events of a
/// frame are in: the keys that are held down, and how far the mouse moved
/// along each axis, as bit patterns of single-precision numbers.
#[derive(Clone, Debug, PartialEq, Eq)]
pub struct InputSnapshot {
    pub held: Vec<Key>,
    pub mouse_diff: [u32; 2],
}

impl InputSnapshot {
    /// A snapshot with no key held down and a mouse at rest.
    pub fn new() -> (snapshot: InputSnapshot)
        ensures
            snapshot.held@.len() == 0,
            snapshot.mouse_diff == [0u32, 0u32],
    {
        InputSnapshot { held: Vec::new(), mouse_diff: [0, 0] }
    }

    /// Takes note that a key went down: it is held from now on. A key that
    /// is held already stays where it is.
    pub fn key_pressed(&mut self, key: Key)
        ensures
            final(self).mouse_diff == old(self).mouse_diff,
            final(self).held@ == if old(self).held@.contains(key) {
                old(self).held@
            } else {
                old(self).held@.push(key)
            },
    {
        if !key_held(&self.held, key) {
            self.held.push(key);
        }
    }

    /// Takes note that a key came up: it is no longer held. The other keys
    /// stay as they are.
    pub fn key_released(&mut self, key: Key)
        ensures
            final(self).mouse_diff == old(self).mouse_diff,
            final(self).held@ == old(self).held@.filter(|held: Key| held != key),
    {
        let ghost still_held = |held: Key| held != key;
        let mut held: Vec<Key> = Vec::new();
        let mut i: usize = 0;
        while i < self.held.len()
            invariant
                i <= self.held@.len(),
                self.held@ == old(self).held@,
                still_held == (|held: Key| held != key),
                held@ == self.held@.subrange(0, i as int).filter(still_held),
            decreases self.held@.len() - i,
        {
            proof {
                reveal(Seq::filter);
                assert(self.held@.subrange(0, i + 1).drop_last() =~= self.held@.subrange(
                    0,
                    i as int,
                ));
            }
            if self.held[i] != key {
                held.push(self.held[i]);
            }
            i = i + 1;
        }
        assert(self.held@.subrange(0, i as int) =~= self.held@);
        self.held = held;
    }
}

/// Whether a key is among the keys held down.
pub fn key_held(held: &Vec<Key>, key: Key) -> (found: bool)
    ensures
        found == held@.contains(key),
{
    let mut i: usize = 0;
    while i < held.len()
        invariant
            i <= held@.len(),
            forall|j: int| 0 <= j < i ==> held@[j] != key,
        decreases held@.len() - i,
    {
        if held[i] == key {
            return true;
        }
        i = i + 1;
    }
    false
}

/// Why the input system refused a request.
#[derive(Clone, Copy, Debug, PartialEq, Eq, Hash)]
pub enum InputError {
    /// No action map of that name was added.
    NoActionMap,
}

/// The action states after one binding was looked at: a held key and, while
/// the mouse is captured, a mouse axis set off the action of their binding.
pub open spec fn polled_binding(
    states: Map<Seq<char>, ActionState>,
    binding: (Source, Seq<char>),
    held: Seq<Key>,
    mouse_diff: [u32; 2],
    mouse_captured: bool,
) -> Map<Seq<char>, ActionState> {
    match binding.0 {
        Source::Keyboard(key) => if held.contains(key) {
            states.insert(binding.1, ActionState::triggered_spec(None))
        } else {
            states
        },
        Source::Mouse(MouseSource::Move(axis)) => if mouse_captured {
            states.insert(
                binding.1,
                ActionState::triggered_spec(
                    Some(
                        match axis {
                            MouseAxis::MouseX => mouse_diff[0],
                            MouseAxis::MouseY => mouse_diff[1],
                        },
                    ),
                ),
            )
        } else {
            states
        },
        _ => states,
    }
}

/// The action states after the first `n` bindings were looked at, in order.
pub open spec fn polled(
    states: Map<Seq<char>, ActionState>,
    bindings: Seq<(Source, Seq<char>)>,
    n: int,
    held: Seq<Key>,
    mouse_diff: [u32; 2],
    mouse_captured: bool,
) -> Map<Seq<char>, ActionState>
    decreases n,
{
    if n <= 0 {
        states
    } else {
        polled_binding(
            polled(states, bindings, n - 1, held, mouse_diff, mouse_captured),
            bindings[n - 1],
            held,
            mouse_diff,
            mouse_captured,
        )
    }
}

pub struct InputSystem {
    action_descriptor_map: NameTable<ActionDescriptor>,
    action_map_map: NameTable<ActionMap>,
    current_action_map: String,
    action_state_map: NameTable<ActionState>,
    action_state_cache: NameTable<ActionState>,
}

impl InputSystem {
    /// The actions that were added, by name.
    pub closed spec fn descriptors(&self) -> Map<Seq<char>, ActionDescriptor> {
        self.action_descriptor_map@
    }

    /// The action maps that were added, by name.
    pub closed spec fn maps(&self) -> Map<Seq<char>, ActionMap> {
        self.action_map_map@
    }

    /// The name of the action map in use.
    pub closed spec fn current(&self) -> Seq<char> {
        self.current_action_map@
    }

    /// The states of the actions that the devices set off in this frame.
    pub closed spec fn states(&self) -> Map<Seq<char>, ActionState> {
        self.action_state_map@
    }

    /// The states of the actions that single events set off.
    pub closed spec fn cache(&self) -> Map<Seq<char>, ActionState> {
        self.action_state_cache@
    }

    /// The tables hold every name once, and so do the action maps.
    pub closed spec fn wf(&self) -> bool {
        &&& self.action_descriptor_map.wf()
        &&& self.action_map_map.wf()
        &&& self.action_state_map.wf()
        &&& self.action_state_cache.wf()
        &&& forall|i: int|
            0 <= i < self.action_map_map.entries().len()
                ==> (#[trigger] self.action_map_map.entries()[i]).1.wf()
    }

    /// The bindings in use: those of the current action map, and none if
    /// no action map has the current name.
    pub open spec fn bindings_in_use(&self) -> Seq<(Source, Seq<char>)> {
        if self.maps().dom().contains(self.current()) {
            self.maps()[self.current()].bindings()
        } else {
            Seq::empty()
        }
    }

    /// An input system without actions and action maps.
    pub fn new() -> (system: InputSystem)
        ensures
            system.wf(),
            system.descriptors() == Map::<Seq<char>, ActionDescriptor>::empty(),
            system.maps() == Map::<Seq<char>, ActionMap>::empty(),
            system.current() == Seq::<char>::empty(),
            system.states() == Map::<Seq<char>, ActionState>::empty(),
            system.cache() == Map::<Seq<char>, ActionState>::empty(),
    {
        InputSystem {
            action_descriptor_map: NameTable::new(),
            action_map_map: NameTable::new(),
            current_action_map: String::new(),
            action_state_map: NameTable::new(),
            action_state_cache: NameTable::new(),
        }
    }

    /// Adds an action, or replaces the action of that name.
    pub fn add_action(self, name: &str, action_descriptor: ActionDescriptor) -> (system: InputSystem)
        requires
            self.wf(),
        ensures
            system.wf(),
            system.descriptors() == self.descriptors().insert(name@, action_descriptor),
            system.maps() == self.maps(),
            system.current() == self.current(),
            system.states() == self.states(),
            system.cache() == self.cache(),
    {
        let mut system = self;
        system.action_descriptor_map.insert(name.to_owned(), action_descriptor);
        system
    }

    /// Adds an action map, or replaces the action map of that name, and
    /// puts it in use.
    pub fn add_action_map(self, name: &str, action_map: ActionMap) -> (system: InputSystem)
        requires
            self.wf(),
            action_map.wf(),
        ensures
            system.wf(),
            system.maps() == self.maps().insert(name@, action_map),
            system.current() == name@,
            system.descriptors() == self.descriptors(),
            system.states() == self.states(),
            system.cache() == self.cache(),
    {
        let mut system = self;
        let ghost before = system.action_map_map.entries();
        system.action_map_map.insert(name.to_owned(), action_map);
        system.current_action_map = name.to_owned();
        proof {
            let after = system.action_map_map.entries();
            assert forall|i: int| 0 <= i < after.len() implies (#[trigger] after[i]).1.wf() by {
                crate::game::input::table::lemma_map_of_entry(after, i);
                if after[i].0 == name@ {
                } else {
                    assert(self.maps().dom().contains(after[i].0));
                    let k = choose|k: int|
                        crate::game::input::table::names_at(before, after[i].0, k);
                    crate::game::input::table::lemma_map_of_entry(before, k);
                    assert(before[k].1.wf());
                }
            }
        }
        system
    }

    /// Begins a frame: forgets the action states of the last one.
    pub fn update(&mut self)
        requires
            old(self).wf(),
        ensures
            final(self).wf(),
            final(self).states() == Map::<Seq<char>, ActionState>::empty(),
            final(self).descriptors() == old(self).descriptors(),
            final(self).maps() == old(self).maps(),
            final(self).current() == old(self).current(),
            final(self).cache() == old(self).cache(),
    {
        self.action_state_map.clear();
    }

    /// Takes in what the devices did in a frame. Every binding in use is
    /// looked at, in the order in which the sources were bound: a key that
    /// is held down sets off its action, and while the mouse is captured a
    /// mouse axis sets off its action with the distance moved as value.
    pub fn process_winit_event(&mut self, snapshot: &InputSnapshot, mouse_captured: bool) -> (handled: bool)
        requires
            old(self).wf(),
        ensures
            handled,
            final(self).wf(),
            final(self).states() == polled(
                old(self).states(),
                old(self).bindings_in_use(),
                old(self).bindings_in_use().len() as int,
                snapshot.held@,
                snapshot.mouse_diff,
                mouse_captured,
            ),
            final(self).descriptors() == old(self).descriptors(),
            final(self).maps() == old(self).maps(),
            final(self).current() == old(self).current(),
            final(self).cache() == old(self).cache(),
    {
        match self.action_map_map.get(self.current_action_map.as_str()) {
            Some(action_map) => {
                let ghost bindings = action_map.bindings();
                let mut i: usize = 0;
                while i < action_map.len()
                    invariant
                        i <= bindings.len(),
                        bindings == action_map.bindings(),
                        old(self).wf(),
                        self.action_descriptor_map == old(self).action_descriptor_map,
                        self.action_map_map == old(self).action_map_map,
                        self.current_action_map == old(self).current_action_map,
                        self.action_state_cache == old(self).action_state_cache,
                        self.action_state_map.wf(),
                        self.action_state_map@ == polled(
                            old(self).states(),
                            bindings,
                            i as int,
                            snapshot.held@,
                            snapshot.mouse_diff,
                            mouse_captured,
                        ),
                    decreases bindings.len() - i,
                {
                    let (source, name) = action_map.binding(i);
                    match source {
                        Source::Keyboard(key) => {
                            if key_held(&snapshot.held, key) {
                                self.action_state_map.insert(
                                    name.clone(),
                                    ActionState::triggered(None),
                                );
                            }
                        },
                        Source::Mouse(MouseSource::Move(axis)) => {
                            if mouse_captured {
                                let value = match axis {
                                    MouseAxis::MouseX => snapshot.mouse_diff[0],
                                    MouseAxis::MouseY => snapshot.mouse_diff[1],
                                };
                                self.action_state_map.insert(
                                    name.clone(),
                                    ActionState::triggered(Some(value)),
                                );
                            }
                        },
                        _ => {},
                    }
                    i = i + 1;
                }
            },
            None => {},
        }
        true
    }

    /// The action states after a single event: the action that the source
    /// of the event is bound to in the bindings in use is set off, by a key
    /// without a value and by a mouse motion with the value of the event.
    pub open spec fn cached_after(&self, event: SystemEvent) -> Map<Seq<char>, ActionState> {
        match event.source_spec() {
            Some(source) => {
                if self.maps().dom().contains(self.current())
                    && self.maps()[self.current()]@.dom().contains(source) {
                    let action = self.maps()[self.current()]@[source];
                    match event.kind {
                        SystemEventKind::Key => self.cache().insert(
                            action,
                            ActionState::triggered_spec(None),
                        ),
                        SystemEventKind::MouseMotion(_) => self.cache().insert(
                            action,
                            ActionState::triggered_spec(event.value),
                        ),
                        _ => self.cache(),
                    }
                } else {
                    self.cache()
                }
            },
            None => self.cache(),
        }
    }

    /// Takes in a single event of an input device.
    pub fn process_system_event(&mut self, system_event: SystemEvent)
        requires
            old(self).wf(),
            system_event.wf(),
        ensures
            final(self).wf(),
            final(self).cache() == old(self).cached_after(system_event),
            final(self).descriptors() == old(self).descriptors(),
            final(self).maps() == old(self).maps(),
            final(self).current() == old(self).current(),
            final(self).states() == old(self).states(),
    {
        let kind = system_event.kind;
        let value = system_event.value;
        match system_event.source() {
            Some(source) => {
                match self.action_map_map.get(self.current_action_map.as_str()) {
                    Some(action_map) => {
                        match action_map.get(source) {
                            Some(action) => {
                                match kind {
                                    SystemEventKind::Key => {
                                        self.action_state_cache.insert(
                                            action.clone(),
                                            ActionState::triggered(None),
                                        );
                                    },
                                    SystemEventKind::MouseMotion(_) => {
                                        self.action_state_cache.insert(
                                            action.clone(),
                                            ActionState::triggered(value),
                                        );
                                    },
                                    _ => {},
                                }
                            },
                            None => {},
                        }
                    },
                    None => {},
                }
            },
            None => {},
        }
    }

    /// The state of an action in this frame, if a device set it off.
    pub fn get_action_state(&self, action_name: &str) -> (state: Option<&ActionState>)
        requires
            self.wf(),
        ensures
            match state {
                Some(state) => self.states().dom().contains(action_name@) && *state
                    == self.states()[action_name@],
                None => !self.states().dom().contains(action_name@),
            },
    {
        self.action_state_map.get(action_name)
    }

    /// The states of all actions that a device set off in this frame.
    pub fn get_action_state_map(&self) -> (states: &NameTable<ActionState>)
        ensures
            states@ == self.states(),
            self.wf() ==> states.wf(),
    {
        &self.action_state_map
    }

    /// The state of an action that a single event set off, if one did.
    pub fn get_cached_action_state(&self, action_name: &str) -> (state: Option<&ActionState>)
        requires
            self.wf(),
        ensures
            match state {
                Some(state) => self.cache().dom().contains(action_name@) && *state
                    == self.cache()[action_name@],
                None => !self.cache().dom().contains(action_name@),
            },
    {
        self.action_state_cache.get(action_name)
    }

    /// Puts an action map in use. It fails, and changes nothing, if and
    /// only if no action map of that name was added.
    pub fn activate_action_map(&mut self, name: &str) -> (done: Result<(), InputError>)
        ensures
            done is Ok <==> old(self).maps().dom().contains(name@),
            done is Err ==> done->Err_0 == InputError::NoActionMap && *final(self) == *old(self),
            done is Ok ==> {
                &&& final(self).current() == name@
                &&& final(self).descriptors() == old(self).descriptors()
                &&& final(self).maps() == old(self).maps()
                &&& final(self).states() == old(self).states()
                &&& final(self).cache() == old(self).cache()
                &&& old(self).wf() ==> final(self).wf()
            },
    {
        if self.action_map_map.contains_key(name) {
            self.current_action_map = name.to_owned();
            Ok(())
        } else {
            Err(InputError::NoActionMap)
        }
    }
}

impl Default for InputSystem {
    fn default() -> (system: InputSystem)
        ensures
            system.wf(),
            system.maps() == Map::<Seq<char>, ActionMap>::empty(),
            system.states() == Map::<Seq<char>, ActionState>::empty(),
    {
        InputSystem::new()
    }
}

} // verus!
