use vstd::prelude::*;

verus! {

/// Display unit for the speed overlay. Raw telemetry speed is in metres per second.
#[derive(Clone, Copy, Debug, PartialEq, Eq, Structural)]
pub enum SpeedUnits {
    Metrespersecond,
    Milesperhour,
    Kilometresperhour,
}

/// The label shown after a converted speed.
pub open spec fn label_of(u: SpeedUnits) -> Seq<char> {
    match u {
        SpeedUnits::Metrespersecond => "m/s"@,
        SpeedUnits::Milesperhour => "mph"@,
        SpeedUnits::Kilometresperhour => "kph"@,
    }
}

/// The conversion factor from metres per second, as an exact fraction
/// `(numerator, denominator)`: 1, 3600/1609 and 36/10.
pub open spec fn factor_of(u: SpeedUnits) -> (u32, u32) {
    match u {
        SpeedUnits::Metrespersecond => (1, 1),
        SpeedUnits::Milesperhour => (3600, 1609),
        SpeedUnits::Kilometresperhour => (36, 10),
    }
}

impl SpeedUnits {
    /// The unit label, "m/s", "mph" or "kph".
    pub fn label(&self) -> (r: &'static str)
        ensures
            r@ == label_of(*self),
    {
        match self {
            SpeedUnits::Metrespersecond => "m/s",
            SpeedUnits::Milesperhour => "mph",
            SpeedUnits::Kilometresperhour => "kph",
        }
    }

    /// The exact factor that turns metres per second into this unit: a speed
    /// `raw` reads `raw * numerator / denominator`.
    pub fn factor(&self) -> (r: (u32, u32))
        ensures
            r == factor_of(*self),
            r.1 > 0,
    {
        match self {
            SpeedUnits::Metrespersecond => (1, 1),
            SpeedUnits::Milesperhour => (3600, 1609),
            SpeedUnits::Kilometresperhour => (36, 10),
        }
    }
}

} // verus!
