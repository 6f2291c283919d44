//! Command: a request wrapped in a value.  The remote control that triggers
//! a command knows nothing of the light that carries it out.

use std::sync::Arc;
use vstd::prelude::*;
use vstd::rwlock::RwLock;
use vstd::rwlock::RwLockPredicate;

verus! {

/// What a light reports when it is switched.
#[derive(Clone, Copy, Debug, PartialEq, Eq, Structural)]
pub enum LightEvent {
    TurnedOn,
    TurnedOff,
}

/// The receiver: a light that is on or off.
pub struct Light {
    is_on: bool,
}

impl View for Light {
    type V = bool;

    /// Whether the light is on.
    closed spec fn view(&self) -> bool {
        self.is_on
    }
}

impl Light {
    /// A light that is off.
    pub fn new() -> (light: Light)
        ensures
            !light@,
    {
        Light { is_on: false }
    }

    /// Whether the light is on.
    pub fn is_on(&self) -> (on: bool)
        ensures
            on == self@,
    {
        self.is_on
    }

    /// Switches the light on.
    pub fn turn_on(&mut self) -> (event: LightEvent)
        ensures
            final(self)@,
            event == LightEvent::TurnedOn,
    {
        self.is_on = true;
        LightEvent::TurnedOn
    }

    /// Switches the light off.
    pub fn turn_off(&mut self) -> (event: LightEvent)
        ensures
            !final(self)@,
            event == LightEvent::TurnedOff,
    {
        self.is_on = false;
        LightEvent::TurnedOff
    }

    /// Puts the light behind a lock, so that several commands can hold it.
    pub fn share(self) -> (shared: SharedLight) {
        Arc::new(RwLock::new(self, Ghost(AnyLight)))
    }
}

/// The lock around a shared light lets any light in.
pub struct AnyLight;

impl RwLockPredicate<Light> for AnyLight {
    open spec fn inv(self, light: Light) -> bool {
        true
    }
}

/// A light that several holders can switch.
pub type SharedLight = Arc<RwLock<Light, AnyLight>>;

/// Looks at a shared light.  What it sees is true at the moment of looking.
pub fn peek(light: &SharedLight) -> (on: bool) {
    let handle = light.acquire_read();
    let on = handle.borrow().is_on();
    handle.release_read();
    on
}

/// What every command can do.
pub trait Command {
    /// What the receiver reports when the command is carried out.
    spec fn effect(&self) -> LightEvent;

    /// What the receiver reports when the command is taken back.
    spec fn reverse_effect(&self) -> LightEvent;

    /// Carries the command out.
    fn execute(&self) -> (event: LightEvent)
        ensures
            event == self.effect(),
    ;

    /// Takes the command back.
    fn undo(&self) -> (event: LightEvent)
        ensures
            event == self.reverse_effect(),
    ;
}

/// The command that switches a light on, and off again when it is undone.
pub struct LightOnCommand {
    light: SharedLight,
}

impl LightOnCommand {
    /// The light the command switches.
    pub closed spec fn light(&self) -> SharedLight {
        self.light
    }

    /// A command for `light`.
    pub fn new(light: SharedLight) -> (command: LightOnCommand)
        ensures
            command.light() == light,
    {
        LightOnCommand { light }
    }
}

impl Command for LightOnCommand {
    open spec fn effect(&self) -> LightEvent {
        LightEvent::TurnedOn
    }

    open spec fn reverse_effect(&self) -> LightEvent {
        LightEvent::TurnedOff
    }

    fn execute(&self) -> (event: LightEvent) {
        let (mut light, handle) = self.light.acquire_write();
        let event = light.turn_on();
        handle.release_write(light);
        event
    }

    fn undo(&self) -> (event: LightEvent) {
        let (mut light, handle) = self.light.acquire_write();
        let event = light.turn_off();
        handle.release_write(light);
        event
    }
}

/// The invoker: a remote control with one button, and one to undo.
pub struct RemoteControl<C: Command> {
    command: Option<C>,
}

impl<C: Command> RemoteControl<C> {
    /// The command the button is set to, if any.
    pub closed spec fn command(&self) -> Option<C> {
        self.command
    }

    /// A remote control whose button is set to nothing.
    pub fn new() -> (remote: RemoteControl<C>)
        ensures
            remote.command() is None,
    {
        RemoteControl { command: None }
    }

    /// Sets the button to `command`.
    pub fn set_command(&mut self, command: C)
        ensures
            final(self).command() == Some(command),
    {
        self.command = Some(command);
    }

    /// Presses the button: carries out the command it is set to, and reports
    /// what the receiver reported.  Nothing happens if it is set to nothing.
    pub fn press_button(&self) -> (event: Option<LightEvent>)
        ensures
            event == match self.command() {
                Some(command) => Some(command.effect()),
                None => None,
            },
    {
        match &self.command {
            Some(command) => Some(command.execute()),
            None => None,
        }
    }

    /// Presses undo: takes back the command the button is set to.
    pub fn undo_button(&self) -> (event: Option<LightEvent>)
        ensures
            event == match self.command() {
                Some(command) => Some(command.reverse_effect()),
                None => None,
            },
    {
        match &self.command {
            Some(command) => Some(command.undo()),
            None => None,
        }
    }
}

} // verus!
