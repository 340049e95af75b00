use crate::accent::{accent_pixel, dimmed, Color, ACCENT_BRIGHTNESS};
use crate::boot::{BootSequence, Step};
use crate::indicator::{IndicatorPin, StatusLed};
use crate::prop_maker;
use crate::sensor::{Reading, SensorBus, SensorError};
use vstd::prelude::*;

verus! {

/// A blocking wait: the caller does nothing else until it returns.
pub trait BlockingDelay {
    /// The milliseconds waited so far, modulo 2^64.
    spec fn waited_ms(&self) -> u64;

    /// Waits `ms` milliseconds.
    fn delay_ms(&mut self, ms: u32)
        ensures
            final(self).waited_ms() as int == (old(self).waited_ms() as int + ms as int) % 0x1_0000_0000_0000_0000,
    ;
}

/// The addressable RGB LED. Writes are best effort: a failure of the
/// protocol driver is dropped, as this is a cosmetic path.
pub trait PixelWriter {
    /// How many pixels were sent so far, modulo 2^64.
    spec fn sent_count(&self) -> u64;

    /// The last pixel sent.
    spec fn last_sent(&self) -> Option<Color>;

    /// Sends one pixel.
    fn write_pixel(&mut self, pixel: Color)
        ensures
            final(self).sent_count() as int == (old(self).sent_count() as int + 1) % 0x1_0000_0000_0000_0000,
            final(self).last_sent() == Some(pixel),
    ;
}

/// The one handle to a running board's peripherals, the same on every
/// board: status LED, accent LED, delay, and the optional accelerometer.
#[verifier::reject_recursive_types(B)]
pub struct BoardHandle<P: IndicatorPin, D: BlockingDelay, W: PixelWriter, B: SensorBus> {
    led: StatusLed<P>,
    delay: D,
    pixel: W,
    sensors: prop_maker::Board<B>,
}

impl<P: IndicatorPin, D: BlockingDelay, W: PixelWriter, B: SensorBus> BoardHandle<P, D, W, B> {
    pub closed spec fn wf(&self) -> bool {
        self.led.wf()
    }

    /// Whether the status LED's pin is driven high.
    pub closed spec fn indicator(&self) -> bool {
        self.led.pin_high()
    }

    /// The milliseconds waited through the handle's delay source, modulo
    /// 2^64.
    pub closed spec fn waited_ms(&self) -> u64 {
        self.delay.waited_ms()
    }

    /// How many pixels went to the accent LED, modulo 2^64.
    pub closed spec fn pixels_sent(&self) -> u64 {
        self.pixel.sent_count()
    }

    /// The last pixel that went to the accent LED.
    pub closed spec fn last_pixel(&self) -> Option<Color> {
        self.pixel.last_sent()
    }

    /// Whether an accelerometer is attached.
    pub closed spec fn has_sensor(&self) -> bool {
        self.sensors.has_accelerometer()
    }

    /// The accelerometer side of the board.
    pub closed spec fn sensor_board(&self) -> prop_maker::Board<B> {
        self.sensors
    }

    /// Bundles what the start-up built into the handle. This is the last
    /// step of the start-up, so a handle exists only once every step before
    /// it has succeeded.
    pub fn assemble(boot: &mut BootSequence, led: StatusLed<P>, delay: D, pixel: W) -> (r: Self)
        requires
            old(boot).wf(),
            old(boot).pending() == Some(Step::AssembleHandle),
            led.wf(),
        ensures
            final(boot).ready(),
            final(boot).completed() == old(boot).completed().push(Step::AssembleHandle),
            r.wf(),
            r.indicator() == led.pin_high(),
            r.waited_ms() == delay.waited_ms(),
            r.pixels_sent() == pixel.sent_count(),
            r.last_pixel() == pixel.last_sent(),
            !r.has_sensor(),
    {
        boot.step_done(Step::AssembleHandle);
        BoardHandle { led, delay, pixel, sensors: prop_maker::Board::new() }
    }

    /// Drives the status LED; the new level holds at once. Nothing else on
    /// the board changes.
    pub fn set_indicator(&mut self, on: bool)
        requires
            old(self).wf(),
        ensures
            final(self).wf(),
            final(self).indicator() == on,
            final(self).waited_ms() == old(self).waited_ms(),
            final(self).pixels_sent() == old(self).pixels_sent(),
            final(self).last_pixel() == old(self).last_pixel(),
            final(self).sensor_board() == old(self).sensor_board(),
    {
        self.led.set_indicator(on);
    }

    /// Whether the status LED is on.
    pub fn indicator_lit(&self) -> (r: bool)
        requires
            self.wf(),
        ensures
            r == self.indicator(),
    {
        self.led.is_lit()
    }

    /// Sends exactly one pixel to the accent LED: `color` with each channel
    /// scaled to the fixed accent brightness.
    pub fn set_accent_color(&mut self, color: Color)
        requires
            old(self).wf(),
        ensures
            final(self).wf(),
            final(self).pixels_sent() as int == (old(self).pixels_sent() as int + 1) % 0x1_0000_0000_0000_0000,
            final(self).last_pixel() matches Some(p) && p.r as int == dimmed(color.r, ACCENT_BRIGHTNESS)
                && p.g as int == dimmed(color.g, ACCENT_BRIGHTNESS)
                && p.b as int == dimmed(color.b, ACCENT_BRIGHTNESS),
            final(self).indicator() == old(self).indicator(),
            final(self).waited_ms() == old(self).waited_ms(),
            final(self).sensor_board() == old(self).sensor_board(),
    {
        let p = accent_pixel(color);
        self.pixel.write_pixel(p);
    }

    /// Blocks for `ms` milliseconds through the delay source.
    pub fn delay(&mut self, ms: u32)
        requires
            old(self).wf(),
        ensures
            final(self).wf(),
            final(self).waited_ms() as int == (old(self).waited_ms() as int + ms as int) % 0x1_0000_0000_0000_0000,
            final(self).indicator() == old(self).indicator(),
            final(self).pixels_sent() == old(self).pixels_sent(),
            final(self).last_pixel() == old(self).last_pixel(),
            final(self).sensor_board() == old(self).sensor_board(),
    {
        self.delay.delay_ms(ms);
    }

    /// Hands the bus to a new accelerometer; see
    /// `prop_maker::Board::init_accelerometer`.
    pub fn attach_sensor(&mut self, bus: B) -> (r: Result<(), SensorError<B::Error>>)
        requires
            old(self).wf(),
        ensures
            final(self).wf(),
            r is Ok ==> final(self).has_sensor(),
            r matches Err(e) ==> e is Init && final(self).sensor_board() == old(self).sensor_board(),
            final(self).indicator() == old(self).indicator(),
            final(self).waited_ms() == old(self).waited_ms(),
            final(self).pixels_sent() == old(self).pixels_sent(),
            final(self).last_pixel() == old(self).last_pixel(),
    {
        self.sensors.init_accelerometer(bus)
    }

    /// One reading of the accelerometer; `NotPresent` when none is attached.
    pub fn read_sensor(&mut self) -> (r: Result<Reading, SensorError<B::Error>>)
        requires
            old(self).wf(),
        ensures
            final(self).wf(),
            prop_maker::read_step(old(self).sensor_board(), final(self).sensor_board(), r),
            !old(self).has_sensor() ==> (r matches Err(e) && e is NotPresent),
            final(self).has_sensor() == old(self).has_sensor(),
            final(self).indicator() == old(self).indicator(),
            final(self).waited_ms() == old(self).waited_ms(),
            final(self).pixels_sent() == old(self).pixels_sent(),
            final(self).last_pixel() == old(self).last_pixel(),
    {
        self.sensors.read_accelerometer()
    }
}

} // verus!
