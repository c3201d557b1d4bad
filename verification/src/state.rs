use vstd::prelude::*;

verus! {

/// Phase of the sensor as published by the sensor task to the display task.
/// (The readings that some phases carry travel beside it.)
#[derive(Debug, Clone, Copy, PartialEq, Eq, Structural)]
pub enum SensorPhase {
    Booting,
    SensorInit,
    SelfTest,
    WarmingUp,
    Data,
    Error,
}

} // verus!
