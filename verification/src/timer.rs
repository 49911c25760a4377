use vstd::prelude::*;

verus! {

/// The count a timer shows one tick after it showed `value`: one less, and
/// never below zero.
pub open spec fn ticked(value: u8) -> u8 {
    if value > 0 {
        (value - 1) as u8
    } else {
        0
    }
}

/// An eight-bit counter that runs down to zero, one step for each tick it is
/// given. The interpreter keeps two of them, the delay and the sound timer.
#[derive(Debug)]
pub struct Timer {
    value: u8,
}

impl View for Timer {
    type V = u8;

    /// The count the timer shows.
    closed spec fn view(&self) -> u8 {
        self.value
    }
}

impl Timer {
    /// A timer at rest, showing zero.
    pub fn new() -> (timer: Timer)
        ensures
            timer@ == 0,
    {
        Timer { value: 0 }
    }

    /// The count the timer shows.
    pub fn current_value(&self) -> (value: u8)
        ensures
            value == self@,
    {
        self.value
    }

    /// Makes the timer show `new_value`.
    pub fn set_value(&mut self, new_value: u8)
        ensures
            final(self)@ == new_value,
    {
        self.value = new_value;
    }

    /// One tick: the count goes down by one unless it is zero already.
    pub fn tick(&mut self)
        ensures
            final(self)@ == ticked(old(self)@),
    {
        if self.is_active() {
            self.value -= 1;
        }
    }

    /// Whether the timer is still running, that is, shows more than zero.
    pub fn is_active(&self) -> (active: bool)
        ensures
            active == (self@ > 0),
    {
        self.value > 0
    }
}

impl Default for Timer {
    fn default() -> (timer: Timer)
        ensures
            timer@ == 0,
    {
        Timer::new()
    }
}

} // verus!
