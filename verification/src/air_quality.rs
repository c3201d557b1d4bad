use vstd::prelude::*;

use crate::config::{CO2_POOR, CO2_VENTILATE};

verus! {

/// Air quality bucket derived from a CO2 reading, used to drive the display cue.
#[derive(Debug, Clone, Copy, PartialEq, Eq, Structural)]
pub enum AirQuality {
    /// Below [`CO2_VENTILATE`]: no special cue.
    Good,
    /// At or above [`CO2_VENTILATE`]: border shown, open a window.
    Ventilate,
    /// At or above [`CO2_POOR`]: border shown and colors inverted.
    Poor,
}

/// The bucket that a CO2 reading (ppm) falls into.
pub open spec fn quality_of(co2: int) -> AirQuality {
    if co2 >= CO2_POOR {
        AirQuality::Poor
    } else if co2 >= CO2_VENTILATE {
        AirQuality::Ventilate
    } else {
        AirQuality::Good
    }
}

/// Severity of a bucket: `Good` < `Ventilate` < `Poor`.
pub open spec fn severity(q: AirQuality) -> int {
    match q {
        AirQuality::Good => 0,
        AirQuality::Ventilate => 1,
        AirQuality::Poor => 2,
    }
}

impl AirQuality {
    /// Classifies a CO2 reading (ppm) against the configured thresholds.
    pub fn from_co2(co2: u16) -> (q: Self)
        ensures
            q == quality_of(co2 as int),
            (q == AirQuality::Good) <==> co2 < CO2_VENTILATE,
            (q == AirQuality::Ventilate) <==> (CO2_VENTILATE <= co2 && co2 < CO2_POOR),
            (q == AirQuality::Poor) <==> co2 >= CO2_POOR,
    {
        if co2 >= CO2_POOR {
            Self::Poor
        } else if co2 >= CO2_VENTILATE {
            Self::Ventilate
        } else {
            Self::Good
        }
    }
}

/// A higher CO2 reading never yields a milder bucket.
pub proof fn lemma_quality_monotone(a: int, b: int)
    requires
        a <= b,
    ensures
        severity(quality_of(a)) <= severity(quality_of(b)),
{
}

} // verus!
