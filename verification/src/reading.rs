//! Motion-sensor readings and the quantities they are made of.

use std::time::Instant;
use vstd::prelude::*;

verus! {

/// A monotonic clock reading of the standard library, carried through opaquely.
#[verifier::external_type_specification]
#[verifier::external_body]
pub struct ExInstant(Instant);

/// One measured quantity, kept exactly as the device reported it.
#[derive(Clone, Copy, Debug, PartialEq, Eq, Structural)]
pub enum Quantity {
    /// An IEEE-754 single-precision bit pattern.
    Binary32(u32),
    /// A signed fixed-point count; the physical value is `count / per_unit`.
    Scaled { count: i16, per_unit: u16 },
}

impl Quantity {
    /// The quantity that stands for "nothing measured": positive zero.
    pub open spec fn zero() -> Quantity {
        Quantity::Binary32(0)
    }

    /// Whether the quantity denotes the number zero: a bit pattern of zero
    /// of either sign, or no counts on a scale that is not itself zero.
    pub open spec fn spec_is_zero(self) -> bool {
        match self {
            Quantity::Binary32(bits) => bits == 0 || bits == 0x8000_0000u32,
            Quantity::Scaled { count, per_unit } => count == 0 && per_unit != 0,
        }
    }

    /// Whether the quantity denotes the number zero: a bit pattern of zero
    /// of either sign, or no counts on a scale that is not itself zero.
    #[verifier::when_used_as_spec(spec_is_zero)]
    pub fn is_zero(self) -> (zero: bool)
        ensures
            zero == self.spec_is_zero(),
    {
        match self {
            Quantity::Binary32(bits) => bits == 0 || bits == 0x8000_0000u32,
            Quantity::Scaled { count, per_unit } => count == 0 && per_unit != 0,
        }
    }
}

/// Whether one of `values` is not zero.
pub open spec fn any_nonzero(values: Seq<Quantity>) -> bool {
    exists|k: int| 0 <= k < values.len() && !(#[trigger] values[k]).spec_is_zero()
}

/// Whether one of the three `values` is not zero.
fn triple_nonzero(values: &[Quantity; 3]) -> (nonzero: bool)
    ensures
        nonzero == any_nonzero(values@),
{
    let nonzero = !values[0].is_zero() || !values[1].is_zero() || !values[2].is_zero();
    proof {
        if nonzero {
            if !values@[0].spec_is_zero() {
                assert(any_nonzero(values@));
            } else if !values@[1].spec_is_zero() {
                assert(any_nonzero(values@));
            } else {
                assert(!values@[2].spec_is_zero());
                assert(any_nonzero(values@));
            }
        }
    }
    nonzero
}

/// Reads the monotonic clock (`Instant::now`). Nothing is claimed of the
/// instant that comes back.
#[verifier::external_body]
pub(crate) fn clock_now() -> Instant {
    Instant::now()
}

/// One complete sample of the motion sensor.
#[derive(Clone, Copy, Debug)]
pub struct SensorData {
    /// When the sample was captured.
    pub timestamp: Instant,
    /// Acceleration along x, y, z.
    pub acceleration: [Quantity; 3],
    /// Angular velocity around x, y, z.
    pub gyro: [Quantity; 3],
    /// Roll, pitch, yaw.
    pub orientation: [Quantity; 3],
    /// Temperature; zero when the report carried none.
    pub temperature: Quantity,
}

/// A reading as contracts see it: each field group as a sequence.
pub struct ReadingView {
    /// When the sample was captured.
    pub timestamp: Instant,
    /// Acceleration along x, y, z.
    pub acceleration: Seq<Quantity>,
    /// Angular velocity around x, y, z.
    pub gyro: Seq<Quantity>,
    /// Roll, pitch, yaw.
    pub orientation: Seq<Quantity>,
    /// Temperature; zero when the report carried none.
    pub temperature: Quantity,
}

impl View for SensorData {
    type V = ReadingView;

    open spec fn view(&self) -> ReadingView {
        ReadingView {
            timestamp: self.timestamp,
            acceleration: self.acceleration@,
            gyro: self.gyro@,
            orientation: self.orientation@,
            temperature: self.temperature,
        }
    }
}

impl SensorData {
    /// Every measured field holds [`Quantity::zero`].
    pub open spec fn is_zeroed(self) -> bool {
        &&& self.acceleration@ == seq![Quantity::zero(), Quantity::zero(), Quantity::zero()]
        &&& self.gyro@ == seq![Quantity::zero(), Quantity::zero(), Quantity::zero()]
        &&& self.orientation@ == seq![Quantity::zero(), Quantity::zero(), Quantity::zero()]
        &&& self.temperature == Quantity::zero()
    }

    /// The all-zero reading stamped with `timestamp`.
    pub fn zeroed(timestamp: Instant) -> (data: SensorData)
        ensures
            data.is_zeroed(),
            data.timestamp == timestamp,
    {
        let z = Quantity::Binary32(0);
        SensorData {
            timestamp,
            acceleration: [z, z, z],
            gyro: [z, z, z],
            orientation: [z, z, z],
            temperature: z,
        }
    }
}

impl SensorData {
    /// Whether the reading shows any motion: a component of acceleration or
    /// of angular velocity that is not zero.
    pub open spec fn spec_has_motion(self) -> bool {
        any_nonzero(self.acceleration@) || any_nonzero(self.gyro@)
    }

    /// Whether the reading shows any motion: a component of acceleration or
    /// of angular velocity that is not zero.
    pub fn has_motion(&self) -> (motion: bool)
        ensures
            motion == self.spec_has_motion(),
    {
        triple_nonzero(&self.acceleration) || triple_nonzero(&self.gyro)
    }

    /// Whether the reading carries an orientation: an angle that is not zero.
    pub fn has_orientation(&self) -> (present: bool)
        ensures
            present == any_nonzero(self.orientation@),
    {
        triple_nonzero(&self.orientation)
    }

    /// Whether the reading carries a temperature. Zero stands for "none".
    pub fn has_temperature(&self) -> (present: bool)
        ensures
            present == !self.temperature.spec_is_zero(),
    {
        !self.temperature.is_zero()
    }
}

impl Default for SensorData {
    /// The all-zero reading, stamped with the current instant.
    fn default() -> (data: SensorData)
        ensures
            data.is_zeroed(),
    {
        SensorData::zeroed(clock_now())
    }
}

} // verus!
