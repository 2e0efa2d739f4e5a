//! The controller: its buttons, its colours, its wire messages.

use vstd::prelude::*;
use crate::launchpad::colors::Color;
use crate::launchpad::error::Error;
use std::hash::Hash;

pub mod colors;
pub mod error;
pub mod launchpad_mini;

verus! {

/// A button of a controller.  A value of the type may fail to name a button
/// (`is_button`); the buttons proper have a name each and a position each,
/// and both identify the button.
pub trait Button: Sized + Copy + Clone + Eq + Hash {
    /// Whether the value is one of the controller's buttons.
    spec fn is_button(&self) -> bool;

    /// The name of the button.
    spec fn name(&self) -> Seq<char>;

    /// The position of the button in the controller's canonical order.
    spec fn position(&self) -> nat;

    /// The button with the given name, if there is one.
    spec fn named(name: Seq<char>) -> Option<Self>;

    /// The button at the given position.
    spec fn at(position: nat) -> Self;

    /// Below the number of buttons, every position holds a button.
    proof fn lemma_at_position(position: nat)
        requires
            position < Self::TOTAL,
        ensures
            Self::at(position).is_button(),
            Self::at(position).position() == position,
    ;

    /// Every button is found again under its name.
    proof fn lemma_named_finds_name(&self)
        requires
            self.is_button(),
        ensures
            Self::named(self.name()) == Some(*self),
    ;

    /// What is found under a name is a button, and has that name.
    proof fn lemma_name_of_named(name: Seq<char>)
        requires
            Self::named(name) is Some,
        ensures
            Self::named(name).unwrap().is_button(),
            Self::named(name).unwrap().name() == name,
    ;

    /// The positions of two buttons differ unless the buttons are the same.
    proof fn lemma_position_identifies(&self, other: &Self)
        requires
            self.is_button(),
            other.is_button(),
            self.position() == other.position(),
        ensures
            *self == *other,
    ;

    /// The position of a button is below the number of buttons, and the
    /// button is the one at its position.
    proof fn lemma_position_of_button(&self)
        requires
            self.is_button(),
        ensures
            self.position() < Self::TOTAL,
            Self::at(self.position()) == *self,
    ;

    /// Whether the value is one of the controller's buttons.
    fn is_valid(&self) -> (valid: bool)
        ensures
            valid == self.is_button(),
    ;

    /// The name of the button.
    fn to_str(&self) -> (name: &str)
        requires
            self.is_button(),
        ensures
            name@ == self.name(),
    ;

    /// The button with the given name, or `UnknownButtonError` with the name
    /// if no button has it.
    fn from_str(name: &str) -> (button: Result<Self, Error>)
        ensures
            match button {
                Ok(b) => Self::named(name@) == Some(b) && b.is_button(),
                Err(e) => Self::named(name@) is None && (e matches Error::UnknownButtonError(n)
                    && n@ == name@),
            },
    ;

    /// The position of the button.
    fn to_id(&self) -> (id: usize)
        requires
            self.is_button(),
        ensures
            id == self.position(),
            id < Self::TOTAL,
    ;

    /// The button at the given position, or `IllegalButtonIdError` with the
    /// position if it is not below the number of buttons.
    fn from_id(id: usize) -> (button: Result<Self, Error>)
        ensures
            match button {
                Ok(b) => id < Self::TOTAL && b == Self::at(id as nat),
                Err(e) => id >= Self::TOTAL && e == Error::IllegalButtonIdError(id),
            },
    ;

    /// The number of buttons; the positions are the numbers below it.
    const TOTAL: usize;
}

/// What happened to a button.
#[derive(Clone, Copy, Debug, PartialEq, Eq, Structural)]
pub enum ButtonEvent {
    Pressed,
    Released,
}

/// A controller: LEDs that can be set, and buttons whose events can be
/// collected.  Whether a call succeeds is up to the device behind it: a call
/// fails with `ConnectionError` where the transport to the device fails.
pub trait Launchpad {
    type But: Button;

    type Col: Color;

    /// Sets the LED of `button` to `color`.
    fn set_led(&mut self, button: &Self::But, color: Self::Col) -> Result<(), Error>;

    /// Turns the LED of `button` off.
    fn reset_led(&mut self, button: &Self::But) -> Result<(), Error>;

    /// Sets the LED of every button to `color`.
    fn set_all(&mut self, color: Self::Col) -> Result<(), Error>;

    /// Turns every LED off.
    fn reset_all(&mut self) -> Result<(), Error>;

    /// The events since the last call, oldest first.  Does not wait.
    fn poll(&mut self) -> Result<Vec<(Self::But, ButtonEvent)>, Error>;
}

} // verus!
