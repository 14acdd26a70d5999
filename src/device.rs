//! The output primitive: one output line with a configurable polarity.
//! It records the electrical level it drives and maps it to a logical value.
use vstd::prelude::*;

verus! {

/// Electrical level that stands for the logical `value` under the polarity
/// whose active level is `active_state`.
pub open spec fn level_for(active_state: bool, value: bool) -> bool {
    if value {
        active_state
    } else {
        !active_state
    }
}

/// Logical value of the electrical level `level` under the polarity whose
/// active level is `active_state`.
pub open spec fn value_of(active_state: bool, level: bool) -> bool {
    level == active_state
}

/// Writing a logical value and reading it back gives that value, whatever the
/// polarity.
pub proof fn write_then_read(active_state: bool, value: bool)
    ensures
        value_of(active_state, level_for(active_state, value)) == value,
{
}

/// A generic output device on line `pin`. `level` is the electrical level it
/// drives (true for high).
#[derive(Debug)]
pub struct OutputDeviceR {
    pub pin: u8,
    pub active_state: bool,
    pub inactive_state: bool,
    pub level: bool,
}

impl OutputDeviceR {
    /// Exactly one of the two states is the active one.
    pub open spec fn wf(&self) -> bool {
        self.inactive_state == !self.active_state
    }

    /// The logical value of the device.
    pub open spec fn logical(&self) -> bool {
        value_of(self.active_state, self.level)
    }

    /// The device after a write of the logical `value`.
    pub open spec fn written(self, value: bool) -> OutputDeviceR {
        OutputDeviceR { level: level_for(self.active_state, value), ..self }
    }

    /// An active-high device on line `pin`, driven low.
    pub fn new(pin: u8) -> (r: OutputDeviceR)
        ensures
            r.wf(),
            r.pin == pin,
            r.active_state,
            !r.level,
            !r.logical(),
    {
        OutputDeviceR { pin, active_state: true, inactive_state: false, level: false }
    }

    /// The line the device is attached to.
    pub fn pin(&self) -> (r: u8)
        ensures
            r == self.pin,
    {
        self.pin
    }

    /// The electrical level the device drives.
    pub fn level(&self) -> (r: bool)
        ensures
            r == self.level,
    {
        self.level
    }

    /// Whether a high level is the active one.
    pub fn active_high(&self) -> (r: bool)
        ensures
            r == self.active_state,
    {
        self.active_state
    }

    /// Chooses which level is active. The driven level is not changed, so the
    /// logical value is inverted when the polarity changes.
    pub fn set_active_high(&mut self, value: bool)
        ensures
            *final(self) == (OutputDeviceR {
                active_state: value,
                inactive_state: !value,
                ..*old(self)
            }),
            final(self).wf(),
    {
        if value {
            self.active_state = true;
            self.inactive_state = false;
        } else {
            self.active_state = false;
            self.inactive_state = true;
        }
    }

    /// The level that stands for the logical `value`.
    pub fn value_to_state(&self, value: bool) -> (r: bool)
        requires
            self.wf(),
        ensures
            r == level_for(self.active_state, value),
    {
        if value {
            self.active_state
        } else {
            self.inactive_state
        }
    }

    /// The logical value of the level `state`.
    pub fn state_to_value(&self, state: bool) -> (r: bool)
        ensures
            r == value_of(self.active_state, state),
    {
        state == self.active_state
    }

    /// True if the device is currently active.
    pub fn value(&self) -> (r: bool)
        ensures
            r == self.logical(),
    {
        self.state_to_value(self.level)
    }

    /// True if the device is currently active.
    pub fn is_active(&self) -> (r: bool)
        ensures
            r == self.logical(),
    {
        self.value()
    }

    /// Drives the level that stands for the logical `value`.
    pub fn write_state(&mut self, value: bool)
        requires
            old(self).wf(),
        ensures
            *final(self) == old(self).written(value),
            final(self).wf(),
            final(self).logical() == value,
    {
        self.level = self.value_to_state(value);
    }

    /// Turns the device on.
    pub fn on(&mut self)
        requires
            old(self).wf(),
        ensures
            *final(self) == old(self).written(true),
            final(self).logical(),
    {
        self.write_state(true)
    }

    /// Turns the device off.
    pub fn off(&mut self)
        requires
            old(self).wf(),
        ensures
            *final(self) == old(self).written(false),
            !final(self).logical(),
    {
        self.write_state(false)
    }

    /// Turns the device off if it is on, and on if it is off.
    pub fn toggle(&mut self)
        requires
            old(self).wf(),
        ensures
            *final(self) == old(self).written(!old(self).logical()),
            final(self).logical() == !old(self).logical(),
    {
        if self.is_active() {
            self.off()
        } else {
            self.on()
        }
    }
}

/// Toggling twice gives back the device as it was.
pub proof fn toggle_twice(d: OutputDeviceR)
    requires
        d.wf(),
    ensures
        d.written(!d.logical()).written(!d.written(!d.logical()).logical()) == d,
{
}

} // verus!
