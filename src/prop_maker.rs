use crate::sensor::{normalized, Accelerometer, Reading, SensorBus, SensorError};
use vstd::prelude::*;

verus! {

/// The Prop-Maker FeatherWing: an optional accelerometer on the host
/// board's I2C bus.
#[verifier::reject_recursive_types(B)]
pub struct Board<B: SensorBus> {
    accelerometer: Option<Accelerometer<B>>,
}

/// What one call of `read_accelerometer` may do, from the board before the
/// call to the board after it and the result.
pub open spec fn read_step<B: SensorBus>(
    pre: Board<B>,
    post: Board<B>,
    r: Result<Reading, SensorError<B::Error>>,
) -> bool {
    if pre.has_accelerometer() {
        &&& post.has_accelerometer()
        &&& (r matches Ok(v) ==> v.milli_g as int == normalized(v.raw_x, v.resolution, v.range))
        &&& (r matches Err(e) ==> e is Bus)
    } else {
        &&& post == pre
        &&& r matches Err(e) && e is NotPresent
    }
}

impl<B: SensorBus> Board<B> {
    /// Whether an accelerometer is attached.
    pub closed spec fn has_accelerometer(&self) -> bool {
        self.accelerometer is Some
    }

    /// A board with nothing attached yet.
    pub fn new() -> (r: Self)
        ensures
            !r.has_accelerometer(),
    {
        Board { accelerometer: None }
    }

    /// Hands the bus to a new accelerometer and keeps it on the board. When
    /// the device's handshake fails the error is returned and the board is
    /// left as it was: no accelerometer comes out of a failed attach.
    pub fn init_accelerometer(&mut self, i2c: B) -> (r: Result<(), SensorError<B::Error>>)
        ensures
            r is Ok ==> final(self).has_accelerometer(),
            r matches Err(e) ==> e is Init && *final(self) == *old(self),
    {
        match Accelerometer::attach(i2c) {
            Ok(a) => {
                self.accelerometer = Some(a);
                Ok(())
            },
            Err(e) => Err(e),
        }
    }

    /// Whether an accelerometer is attached.
    pub fn accelerometer_attached(&self) -> (r: bool)
        ensures
            r == self.has_accelerometer(),
    {
        self.accelerometer.is_some()
    }

    /// Takes one reading of the attached accelerometer, in milli-g along
    /// the x axis. Without an accelerometer the result is `NotPresent` and
    /// the board is unchanged.
    pub fn read_accelerometer(&mut self) -> (r: Result<Reading, SensorError<B::Error>>)
        ensures
            read_step(*old(self), *final(self), r),
    {
        match &mut self.accelerometer {
            Some(a) => a.read(),
            None => Err(SensorError::NotPresent),
        }
    }
}

/// A board that was never given an accelerometer answers every read, however
/// many follow one another, with `NotPresent` and never with a reading.
pub proof fn lemma_unattached_reads_not_present<B: SensorBus>(
    boards: Seq<Board<B>>,
    results: Seq<Result<Reading, SensorError<B::Error>>>,
)
    requires
        boards.len() == results.len() + 1,
        !boards[0].has_accelerometer(),
        forall|i: int| 0 <= i < results.len() ==> read_step(#[trigger] boards[i], boards[i + 1], results[i]),
    ensures
        forall|i: int| 0 <= i < results.len() ==> (#[trigger] results[i] matches Err(e) && e is NotPresent),
        forall|i: int| 0 <= i < boards.len() ==> !(#[trigger] boards[i]).has_accelerometer(),
    decreases results.len(),
{
    if results.len() > 0 {
        let n = results.len() - 1;
        lemma_unattached_reads_not_present(boards.take(n + 1), results.take(n));
        assert(boards.take(n + 1)[n] == boards[n]);
        assert(read_step(boards[n], boards[n + 1], results[n]));
        assert forall|i: int| 0 <= i < results.len() implies (#[trigger] results[i] matches Err(e) && e is NotPresent) by {
            if i < n {
                assert(results.take(n)[i] == results[i]);
            }
        }
        assert forall|i: int| 0 <= i < boards.len() implies !(#[trigger] boards[i]).has_accelerometer() by {
            if i <= n {
                assert(boards.take(n + 1)[i] == boards[i]);
            }
        }
    }
}

} // verus!
