//! Keys as the simulation knows them, and the set of keys that are held.
use vstd::prelude::*;

verus! {

/// A logical key.
#[derive(Clone, Copy, Debug, PartialEq, Eq, Structural)]
pub enum Key {
    MoveLeft,
    MoveRight,
    Launch,
    Quit,
}

/// What happened to a key.
#[derive(Clone, Copy, Debug, PartialEq, Eq, Structural)]
pub enum Action {
    Press,
    Release,
    Repeat,
}

/// One keyboard event.
#[derive(Clone, Copy, Debug, PartialEq, Eq, Structural)]
pub struct KeyEvent {
    pub key: Key,
    pub action: Action,
}

/// The keys that are held down. The quit key is never held: pressing it asks
/// for the end of the game instead.
#[derive(Clone, Copy, Debug, PartialEq, Eq, Structural)]
pub struct Keys {
    pub move_left: bool,
    pub move_right: bool,
    pub launch: bool,
}

impl KeyEvent {
    /// The event is a press of the quit key.
    pub open spec fn quits(self) -> bool {
        self.key == Key::Quit && self.action == Action::Press
    }
}

impl Keys {
    /// No key is held.
    pub open spec fn none() -> Keys {
        Keys { move_left: false, move_right: false, launch: false }
    }

    /// The set with `key` held or not, as `held` says, and the rest as before.
    pub open spec fn with(self, key: Key, held: bool) -> Keys {
        match key {
            Key::MoveLeft => Keys { move_left: held, ..self },
            Key::MoveRight => Keys { move_right: held, ..self },
            Key::Launch => Keys { launch: held, ..self },
            Key::Quit => self,
        }
    }

    /// The set after one event: a press adds the key, a release removes it,
    /// and anything else, a press of the quit key included, leaves the set
    /// as it is.
    pub open spec fn after(self, event: KeyEvent) -> Keys {
        if event.quits() {
            self
        } else {
            match event.action {
                Action::Press => self.with(event.key, true),
                Action::Release => self.with(event.key, false),
                Action::Repeat => self,
            }
        }
    }

    /// The set after the events `events`, taken in order.
    pub open spec fn after_all(self, events: Seq<KeyEvent>) -> Keys
        decreases events.len(),
    {
        if events.len() == 0 {
            self
        } else {
            self.after_all(events.drop_last()).after(events.last())
        }
    }

    pub fn new() -> (r: Keys)
        ensures
            r == Keys::none(),
    {
        Keys { move_left: false, move_right: false, launch: false }
    }

    /// Applies one event to the set.
    pub fn apply(&mut self, event: KeyEvent)
        ensures
            *final(self) == old(self).after(event),
    {
        match event.key {
            Key::MoveLeft => match event.action {
                Action::Press => { self.move_left = true; },
                Action::Release => { self.move_left = false; },
                Action::Repeat => {},
            },
            Key::MoveRight => match event.action {
                Action::Press => { self.move_right = true; },
                Action::Release => { self.move_right = false; },
                Action::Repeat => {},
            },
            Key::Launch => match event.action {
                Action::Press => { self.launch = true; },
                Action::Release => { self.launch = false; },
                Action::Repeat => {},
            },
            Key::Quit => {},
        }
    }
}

/// Some event among `events` is a press of the quit key.
pub open spec fn any_quits(events: Seq<KeyEvent>) -> bool {
    exists|i: int| 0 <= i < events.len() && (#[trigger] events[i]).quits()
}

} // verus!
