use vstd::prelude::*;

verus! {

/// A digital output that drives a status LED. Driving it cannot fail on a
/// correctly built board.
pub trait IndicatorPin {
    /// Whether the pin is driven high.
    spec fn is_high(&self) -> bool;

    /// Drives the pin high (`true`) or low (`false`), at once.
    fn drive(&mut self, high: bool)
        ensures
            final(self).is_high() == high,
    ;
}

/// The board's status LED, with the level it was last set to.
pub struct StatusLed<P: IndicatorPin> {
    pin: P,
    lit: bool,
}

impl<P: IndicatorPin> StatusLed<P> {
    /// The recorded level matches the pin.
    pub closed spec fn wf(&self) -> bool {
        self.lit == self.pin.is_high()
    }

    /// Whether the pin is driven high.
    pub closed spec fn pin_high(&self) -> bool {
        self.pin.is_high()
    }

    /// Takes the pin and drives it low.
    pub fn new(pin: P) -> (r: Self)
        ensures
            r.wf(),
            !r.pin_high(),
    {
        let mut pin = pin;
        pin.drive(false);
        StatusLed { pin, lit: false }
    }

    /// Drives the LED on or off at once: the pin's level is that of this
    /// call, whatever came before.
    pub fn set_indicator(&mut self, on: bool)
        ensures
            final(self).wf(),
            final(self).pin_high() == on,
    {
        self.pin.drive(on);
        self.lit = on;
    }

    /// Whether the LED is on.
    pub fn is_lit(&self) -> (r: bool)
        requires
            self.wf(),
        ensures
            r == self.pin_high(),
    {
        self.lit
    }
}

} // verus!
