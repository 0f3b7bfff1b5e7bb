//! The sign of the gravity estimate.
//!
//! An attitude estimator yields the direction of gravity in the sensor's
//! frame, but some estimators leave open whether the vector points with or
//! against true gravity. The daemon settles the sign by comparing the
//! estimate with the measured acceleration while the sensor is nearly at
//! rest. The estimators and the arithmetic on vectors are the caller's; what
//! the comparison gave comes in as plain values, and the rule for the sign
//! is decided here.

use vstd::prelude::*;

verus! {

/// The attitude estimators that the daemon offers.
#[derive(Debug, Clone, Copy, PartialEq, Eq, Structural)]
pub enum Algorithm {
    Madgwick,
    Mahony,
    Vqf,
}

impl Algorithm {
    /// The name of the estimator as the user writes it.
    pub open spec fn text(self) -> Seq<char> {
        match self {
            Algorithm::Madgwick => "madgwick"@,
            Algorithm::Mahony => "mahony"@,
            Algorithm::Vqf => "vqf"@,
        }
    }

    /// The name of the estimator as the user writes it.
    pub fn name(self) -> (n: &'static str)
        ensures
            n@ == self.text(),
    {
        match self {
            Algorithm::Madgwick => "madgwick",
            Algorithm::Mahony => "mahony",
            Algorithm::Vqf => "vqf",
        }
    }
}

/// Whether the gravity estimate points with true gravity.
#[derive(Debug, Clone, Copy, PartialEq, Eq, Structural)]
pub enum GravitySign {
    /// Not settled yet.
    Unknown,
    /// The estimate points with gravity.
    Positive,
    /// The estimate points against gravity.
    Negative,
}

/// Where the dot product of measured acceleration and estimated gravity
/// lies, with `g` the standard gravity.
#[derive(Debug, Clone, Copy, PartialEq, Eq, Structural)]
pub enum DotBand {
    /// Below -0.8 g².
    StrongNegative,
    /// From -0.8 g² to -0.2 g².
    Negative,
    /// Between -0.2 g² and 0.2 g²: too small to tell.
    Ambiguous,
    /// From 0.2 g² to 0.8 g².
    Positive,
    /// Above 0.8 g².
    StrongPositive,
    /// Not a number.
    Undefined,
}

impl DotBand {
    /// Whether the dot product is zero or more.
    pub open spec fn nonnegative(self) -> bool {
        self is Positive || self is StrongPositive
    }

    /// Whether the dot product, multiplied by the factor of `sign`, lies
    /// below -0.8 g².
    pub open spec fn opposes(self, sign: GravitySign) -> bool {
        match sign {
            GravitySign::Negative => self is StrongPositive,
            _ => self is StrongNegative,
        }
    }
}

impl GravitySign {
    /// The factor that the gravity estimate is multiplied with: -1 for a
    /// negative sign, 1 otherwise.
    pub open spec fn factor_of(self) -> int {
        match self {
            GravitySign::Negative => -1,
            _ => 1,
        }
    }

    /// The sign that a dot product gives to an unsettled sign.
    pub open spec fn of_dot(nonnegative: bool) -> GravitySign {
        if nonnegative {
            GravitySign::Positive
        } else {
            GravitySign::Negative
        }
    }

    /// The other of the two settled signs.
    pub open spec fn flipped(self) -> GravitySign {
        match self {
            GravitySign::Positive => GravitySign::Negative,
            GravitySign::Negative => GravitySign::Positive,
            GravitySign::Unknown => GravitySign::Unknown,
        }
    }

    /// The factor that the gravity estimate is multiplied with.
    pub fn factor(self) -> (f: i8)
        ensures
            f == self.factor_of(),
    {
        match self {
            GravitySign::Unknown | GravitySign::Positive => 1,
            GravitySign::Negative => -1,
        }
    }

    /// The sign that a dot product gives to an unsettled sign.
    pub fn from_dot(nonnegative: bool) -> (sign: GravitySign)
        ensures
            sign == GravitySign::of_dot(nonnegative),
    {
        if nonnegative {
            GravitySign::Positive
        } else {
            GravitySign::Negative
        }
    }
}

/// The sign after one sample. A sample that is not nearly static, or whose
/// dot product is too small, leaves the sign as it is. Else an unsettled
/// sign is set from the dot product, and a settled one flips where the dot
/// product strongly opposes it.
pub open spec fn calibrated(sign: GravitySign, near_static: bool, dot: DotBand) -> GravitySign {
    if !near_static || dot is Ambiguous {
        sign
    } else if sign is Unknown {
        GravitySign::of_dot(dot.nonnegative())
    } else if dot.opposes(sign) {
        sign.flipped()
    } else {
        sign
    }
}

/// Calibrates the sign with one sample. `near_static` says whether the
/// magnitude of the measured acceleration lies within 0.5 g and 1.5 g.
pub fn maybe_calibrate_gravity_sign(sign: &mut GravitySign, near_static: bool, dot: DotBand)
    ensures
        *final(sign) == calibrated(*old(sign), near_static, dot),
{
    if !near_static {
        return ;
    }
    match dot {
        DotBand::Ambiguous => {
            return ;
        },
        _ => {},
    }
    let nonnegative = match dot {
        DotBand::Positive | DotBand::StrongPositive => true,
        _ => false,
    };
    match *sign {
        GravitySign::Unknown => {
            *sign = GravitySign::from_dot(nonnegative);
        },
        GravitySign::Positive => {
            match dot {
                DotBand::StrongNegative => {
                    *sign = GravitySign::Negative;
                },
                _ => {},
            }
        },
        GravitySign::Negative => {
            match dot {
                DotBand::StrongPositive => {
                    *sign = GravitySign::Positive;
                },
                _ => {},
            }
        },
    }
}

/// The state of the fusion engine that the library keeps: which estimator
/// runs, and the sign of its gravity estimate.
#[derive(Debug, Clone, Copy, PartialEq, Eq, Structural)]
pub struct FusionEngine {
    pub algorithm: Algorithm,
    pub gravity_sign: GravitySign,
}

impl FusionEngine {
    /// An engine for the given estimator, its sign unsettled.
    pub fn new(algorithm: Algorithm) -> (engine: FusionEngine)
        ensures
            engine == (FusionEngine { algorithm, gravity_sign: GravitySign::Unknown }),
    {
        FusionEngine { algorithm, gravity_sign: GravitySign::Unknown }
    }

    /// Takes one sample into the calibration and returns the factor to
    /// multiply the gravity estimate with, 1 or -1.
    pub fn update(&mut self, near_static: bool, dot: DotBand) -> (factor: i8)
        ensures
            final(self).algorithm == old(self).algorithm,
            final(self).gravity_sign == calibrated(old(self).gravity_sign, near_static, dot),
            factor == final(self).gravity_sign.factor_of(),
    {
        let mut sign = self.gravity_sign;
        maybe_calibrate_gravity_sign(&mut sign, near_static, dot);
        self.gravity_sign = sign;
        sign.factor()
    }
}

/// A nearly static sample whose dot product lies at or above 0.2 g² settles
/// an unsettled sign as positive; one at or below -0.2 g² as negative.
pub proof fn lemma_first_sample_sets_sign(dot: DotBand)
    ensures
        dot.nonnegative() ==> calibrated(GravitySign::Unknown, true, dot) == GravitySign::Positive,
        dot is Negative || dot is StrongNegative ==> calibrated(GravitySign::Unknown, true, dot)
            == GravitySign::Negative,
{
}

/// A nearly static sample whose signed dot product lies below -0.8 g² flips
/// a settled sign, and nothing else changes a settled sign.
pub proof fn lemma_strong_opposition_flips(sign: GravitySign, near_static: bool, dot: DotBand)
    requires
        sign != GravitySign::Unknown,
    ensures
        near_static && dot.opposes(sign) ==> calibrated(sign, near_static, dot) == sign.flipped()
            && calibrated(sign, near_static, dot) != sign,
        !(near_static && dot.opposes(sign)) ==> calibrated(sign, near_static, dot) == sign,
        calibrated(sign, near_static, dot) != GravitySign::Unknown,
{
}

/// A sample that is not nearly static never alters the sign.
pub proof fn lemma_motion_keeps_sign(sign: GravitySign, dot: DotBand)
    ensures
        calibrated(sign, false, dot) == sign,
{
}

/// Starting unsettled, a nearly static sample with a dot product above
/// 0.2 g² and then one with a signed dot product below -0.8 g² leave the
/// sign negative.
pub proof fn lemma_set_then_flip(first: DotBand)
    requires
        first.nonnegative(),
    ensures
        calibrated(calibrated(GravitySign::Unknown, true, first), true, DotBand::StrongNegative)
            == GravitySign::Negative,
{
}

} // verus!
