use core::convert::Infallible;
use embedded_hal::blocking::i2c::{Write, WriteRead};
use lis3dh::{Lis3dh, Lis3dhCore, Lis3dhI2C, SlaveAddr};
use vstd::arithmetic::div_mod::lemma_fundamental_div_mod_converse;
use vstd::prelude::*;

verus! {

#[verifier::external_type_specification]
#[verifier::external_body]
#[verifier::reject_recursive_types(CORE)]
pub struct ExLis3dh<CORE>(Lis3dh<CORE>);

#[verifier::external_type_specification]
#[verifier::external_body]
#[verifier::reject_recursive_types(I2C)]
pub struct ExLis3dhI2C<I2C>(Lis3dhI2C<I2C>);

#[verifier::external_type_specification]
#[verifier::external_body]
#[verifier::reject_recursive_types(BusError)]
#[verifier::reject_recursive_types(PinError)]
pub struct ExLis3dhError<BusError, PinError>(lis3dh::Error<BusError, PinError>);

/// What a bus must offer for an accelerometer to sit on it: a blocking
/// write-then-read transaction and a blocking write, each reporting the
/// bus's own error type. Nothing is assumed of speed, addressing width or
/// transport.
pub trait SensorBus {
    type Error;

    /// Writes `bytes` to the device at `address`, then reads `buffer.len()`
    /// bytes back into `buffer`.
    fn write_read(&mut self, address: u8, bytes: &[u8], buffer: &mut [u8]) -> Result<(), Self::Error>;

    /// Writes `bytes` to the device at `address`.
    fn write(&mut self, address: u8, bytes: &[u8]) -> Result<(), Self::Error>;
}

/// Presents a `SensorBus` to drivers written against embedded-hal's blocking
/// I2C traits.
#[verifier::reject_recursive_types(B)]
pub struct HalBus<B>(pub B);

impl<B: SensorBus> WriteRead for HalBus<B> {
    type Error = B::Error;

    fn write_read(&mut self, address: u8, bytes: &[u8], buffer: &mut [u8]) -> Result<(), B::Error> {
        self.0.write_read(address, bytes, buffer)
    }
}

impl<B: SensorBus> Write for HalBus<B> {
    type Error = B::Error;

    fn write(&mut self, address: u8, bytes: &[u8]) -> Result<(), B::Error> {
        self.0.write(address, bytes)
    }
}

/// Operating mode of the accelerometer: how many bits of each sample are
/// significant (8, 10 or 12).
#[derive(Clone, Copy, Debug, PartialEq, Eq, Structural)]
pub enum Resolution {
    LowPower,
    Normal,
    HighResolution,
}

/// Full-scale range of the accelerometer, in units of standard gravity.
#[derive(Clone, Copy, Debug, PartialEq, Eq, Structural)]
pub enum FullScale {
    G2,
    G4,
    G8,
    G16,
}

/// A failure of the accelerometer path. None of these is fatal: the caller
/// decides how to report it.
#[derive(Debug)]
#[verifier::reject_recursive_types(E)]
pub enum SensorError<E> {
    /// No accelerometer has been attached to the board.
    NotPresent,
    /// The driver could not complete its start-up handshake (chip id match
    /// and configuration) over the bus.
    Init(lis3dh::Error<E, Infallible>),
    /// A bus transaction of a reading failed.
    Bus(lis3dh::Error<E, Infallible>),
}

/// One x-axis sample, with the device settings it was taken under and its
/// value in milli-g.
#[derive(Clone, Copy, Debug, PartialEq, Eq)]
pub struct Reading {
    pub raw_x: i16,
    pub resolution: Resolution,
    pub range: FullScale,
    pub milli_g: i32,
}

/// The little-endian signed 16-bit value of two bytes.
pub open spec fn le_i16(lo: u8, hi: u8) -> int {
    let v = hi as int * 256 + lo as int;
    if v >= 32768 { v - 65536 } else { v }
}

/// The samples are left-justified: the bits below the mode's resolution
/// are dropped.
pub open spec fn shift_divisor(res: Resolution) -> int {
    match res {
        Resolution::HighResolution => 16,
        Resolution::Normal => 64,
        Resolution::LowPower => 256,
    }
}

/// Sensitivity in milli-g per digit, from the device's mechanical
/// characteristics table.
pub open spec fn milli_g_per_digit(res: Resolution, range: FullScale) -> int {
    let base = match range {
        FullScale::G2 => 1,
        FullScale::G4 => 2,
        FullScale::G8 => 4,
        FullScale::G16 => 12,
    };
    match res {
        Resolution::HighResolution => base,
        Resolution::Normal => base * 4,
        Resolution::LowPower => base * 16,
    }
}

/// The acceleration in milli-g that a raw sample stands for: the sample
/// shifted right arithmetically (rounding towards minus infinity), times the
/// sensitivity.
pub open spec fn normalized(raw: i16, res: Resolution, range: FullScale) -> int {
    (raw as int / shift_divisor(res)) * milli_g_per_digit(res, range)
}

/// The LIS3DH driver, talking I2C over a `SensorBus`.
pub type Driver<B> = Lis3dh<Lis3dhI2C<HalBus<B>>>;

/// Relies on `lis3dh::Lis3dh::new_i2c`: reads the chip id over the bus,
/// configures the device, and keeps the bus inside the driver.
#[verifier::external_body]
fn open_driver<B: SensorBus>(bus: B) -> (r: Result<Driver<B>, lis3dh::Error<B::Error, Infallible>>) {
    Lis3dh::new_i2c(HalBus(bus), SlaveAddr::Default)
}

/// Relies on `lis3dh::Lis3dh::get_mode`: reads the operating mode back from
/// the device's control registers.
#[verifier::external_body]
fn driver_mode<B: SensorBus>(d: &mut Driver<B>) -> (r: Result<Resolution, lis3dh::Error<B::Error, Infallible>>) {
    match d.get_mode() {
        Ok(lis3dh::Mode::LowPower) => Ok(Resolution::LowPower),
        Ok(lis3dh::Mode::Normal) => Ok(Resolution::Normal),
        Ok(lis3dh::Mode::HighResolution) => Ok(Resolution::HighResolution),
        Err(e) => Err(e),
    }
}

/// Relies on `lis3dh::Lis3dh::get_range`: reads the full-scale selection back
/// from the device's control register.
#[verifier::external_body]
fn driver_range<B: SensorBus>(d: &mut Driver<B>) -> (r: Result<FullScale, lis3dh::Error<B::Error, Infallible>>) {
    match d.get_range() {
        Ok(lis3dh::Range::G2) => Ok(FullScale::G2),
        Ok(lis3dh::Range::G4) => Ok(FullScale::G4),
        Ok(lis3dh::Range::G8) => Ok(FullScale::G8),
        Ok(lis3dh::Range::G16) => Ok(FullScale::G16),
        Err(e) => Err(e),
    }
}

/// Relies on `lis3dh::Lis3dhCore::read_accel_bytes`: one bus transaction that
/// returns the six output registers, x, y and z, each low byte first.
#[verifier::external_body]
fn driver_sample<B: SensorBus>(d: &mut Driver<B>) -> (r: Result<[u8; 6], lis3dh::Error<B::Error, Infallible>>) {
    d.read_accel_bytes()
}

/// The signed value of a little-endian pair of bytes.
pub fn i16_from_le(lo: u8, hi: u8) -> (r: i16)
    ensures
        r as int == le_i16(lo, hi),
{
    let v: u32 = hi as u32 * 256 + lo as u32;
    if v >= 32768 {
        (v as i32 - 65536) as i16
    } else {
        v as i16
    }
}

/// Converts a raw left-justified sample to milli-g.
pub fn normalize(raw: i16, res: Resolution, range: FullScale) -> (r: i32)
    ensures
        r as int == normalized(raw, res, range),
{
    let d: u32 = match res {
        Resolution::HighResolution => 16,
        Resolution::Normal => 64,
        Resolution::LowPower => 256,
    };
    let scale: i32 = match (res, range) {
        (Resolution::HighResolution, FullScale::G2) => 1,
        (Resolution::HighResolution, FullScale::G4) => 2,
        (Resolution::HighResolution, FullScale::G8) => 4,
        (Resolution::HighResolution, FullScale::G16) => 12,
        (Resolution::Normal, FullScale::G2) => 4,
        (Resolution::Normal, FullScale::G4) => 8,
        (Resolution::Normal, FullScale::G8) => 16,
        (Resolution::Normal, FullScale::G16) => 48,
        (Resolution::LowPower, FullScale::G2) => 16,
        (Resolution::LowPower, FullScale::G4) => 32,
        (Resolution::LowPower, FullScale::G8) => 64,
        (Resolution::LowPower, FullScale::G16) => 192,
    };
    // Bias the sample into the non-negative range, where division rounds
    // down, then take the bias back out; d divides the bias exactly.
    let biased: u32 = (raw as i32 + 32768) as u32;
    let q: u32 = biased / d;
    let rem: u32 = biased % d;
    let k: u32 = 32768 / d;
    proof {
        let x = raw as int;
        let qi = q as int;
        let ki = k as int;
        let di = d as int;
        assert(k * d == 32768);
        assert(biased == q * d + rem);
        assert(x == (qi - ki) * di + rem) by (nonlinear_arith)
            requires
                biased as int == qi * di + rem as int,
                ki * di == 32768,
                biased as int == x + 32768,
        ;
        lemma_fundamental_div_mod_converse(x, di, qi - ki, rem as int);
        assert(qi <= 4095) by (nonlinear_arith)
            requires
                biased as int == qi * di + rem as int,
                di >= 16,
                biased <= 65535,
                rem >= 0,
        ;
    }
    let shifted: i32 = q as i32 - k as i32;
    proof {
        assert(-2048 <= shifted <= 2048);
        assert(-2048 * 192 <= shifted * scale <= 2048 * 192) by (nonlinear_arith)
            requires
                -2048 <= shifted <= 2048,
                1 <= scale <= 192,
        ;
    }
    shifted * scale
}

/// The reading of a sample of the six output registers under the given
/// settings: the x axis, bytes 0 and 1, low byte first.
pub open spec fn sample_reading(bytes: Seq<u8>, resolution: Resolution, range: FullScale) -> Reading {
    let raw_x = le_i16(bytes[0], bytes[1]) as i16;
    Reading { raw_x, resolution, range, milli_g: normalized(raw_x, resolution, range) as i32 }
}

/// Reading carries no hidden state: a device that answers every read with
/// the same sample under the same settings gives the same reading on every
/// read.
pub proof fn lemma_fixed_sample_fixed_reading(
    samples: Seq<Seq<u8>>,
    resolutions: Seq<Resolution>,
    ranges: Seq<FullScale>,
    readings: Seq<Reading>,
)
    requires
        samples.len() == readings.len(),
        resolutions.len() == readings.len(),
        ranges.len() == readings.len(),
        forall|i: int| 0 <= i < readings.len() ==> #[trigger] readings[i] == sample_reading(samples[i], resolutions[i], ranges[i]),
        forall|i: int| 0 <= i < readings.len() ==> #[trigger] samples[i] == samples[0] && resolutions[i] == resolutions[0]
            && ranges[i] == ranges[0],
    ensures
        forall|i: int| 0 <= i < readings.len() ==> #[trigger] readings[i] == readings[0],
{
    assert forall|i: int| 0 <= i < readings.len() implies #[trigger] readings[i] == readings[0] by {
        assert(samples[i] == samples[0]);
        assert(readings[0] == sample_reading(samples[0], resolutions[0], ranges[0]));
    }
}

/// The reading that a sample of the six output registers gives: the x axis
/// (bytes 0 and 1, low byte first) under the given settings.
pub fn reading_from_sample(bytes: &[u8; 6], resolution: Resolution, range: FullScale) -> (r: Reading)
    ensures
        r.raw_x as int == le_i16(bytes@[0], bytes@[1]),
        r.resolution == resolution,
        r.range == range,
        r.milli_g as int == normalized(r.raw_x, resolution, range),
        r == sample_reading(bytes@, resolution, range),
{
    let raw_x = i16_from_le(bytes[0], bytes[1]);
    let milli_g = normalize(raw_x, resolution, range);
    Reading { raw_x, resolution, range, milli_g }
}

/// An accelerometer attached to a bus: it owns the bus for good.
#[verifier::reject_recursive_types(B)]
pub struct Accelerometer<B: SensorBus> {
    driver: Driver<B>,
}

impl<B: SensorBus> Accelerometer<B> {
    /// Takes the bus and brings the device up. A failed handshake is an
    /// `Init` error, and no accelerometer comes out of it.
    pub fn attach(bus: B) -> (r: Result<Self, SensorError<B::Error>>)
        ensures
            r matches Err(e) ==> e is Init,
    {
        match open_driver(bus) {
            Ok(driver) => Ok(Accelerometer { driver }),
            Err(e) => Err(SensorError::Init(e)),
        }
    }

    /// Reads the device settings and one sample of the six output
    /// registers, and turns the x axis of it into a reading with
    /// `reading_from_sample`. A failed transaction is a `Bus` error; nothing is
    /// cached between calls.
    pub fn read(&mut self) -> (r: Result<Reading, SensorError<B::Error>>)
        ensures
            r matches Ok(v) ==> v.milli_g as int == normalized(v.raw_x, v.resolution, v.range),
            r matches Ok(v) ==> exists|sample: Seq<u8>|
                sample.len() == 6 && v == #[trigger] sample_reading(sample, v.resolution, v.range),
            r matches Err(e) ==> e is Bus,
    {
        let resolution = match driver_mode(&mut self.driver) {
            Ok(m) => m,
            Err(e) => return Err(SensorError::Bus(e)),
        };
        let range = match driver_range(&mut self.driver) {
            Ok(g) => g,
            Err(e) => return Err(SensorError::Bus(e)),
        };
        let bytes = match driver_sample(&mut self.driver) {
            Ok(b) => b,
            Err(e) => return Err(SensorError::Bus(e)),
        };
        let reading = reading_from_sample(&bytes, resolution, range);
        assert(bytes@.len() == 6 && reading == sample_reading(bytes@, resolution, range));
        Ok(reading)
    }
}

} // verus!
