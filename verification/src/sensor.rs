use vstd::prelude::*;

use crate::state::SensorPhase;

verus! {

// ---------------------------------------------------------------------------
// The sensor task as a state machine: the task's runner performs an action,
// reports how it went, and asks what to do next.
// ---------------------------------------------------------------------------

/// Pause (ms) after stopping a measurement that may be running.
pub const STOP_SETTLE_MS: u64 = 500;

/// Pause (ms) after re-initialising the sensor.
pub const REINIT_SETTLE_MS: u64 = 20;

/// Interval (ms) between polls of the sensor's data-ready flag.
pub const POLL_INTERVAL_MS: u64 = 5000;

/// Settings written to the sensor at start-up.
#[derive(Debug, Clone, Copy, PartialEq, Eq, Structural)]
pub struct SensorSettings {
    /// Pressure-compensation altitude (m).
    pub altitude: u16,
    /// Automatic self-calibration to write; `None` keeps the sensor's setting.
    pub auto_calibration: Option<bool>,
    /// Whether a temperature offset is configured to be written.
    pub has_temperature_offset: bool,
}

/// One step of the sensor task. The task is always in the step it asked its
/// runner to perform last.
#[derive(Debug, Clone, Copy, PartialEq, Eq, Structural)]
pub enum SensorAction {
    /// Publish that the sensor is being initialised.
    AnnounceInit,
    /// Stop a periodic measurement that may still be running.
    StopPeriodic,
    /// Wait `STOP_SETTLE_MS`.
    SettleAfterStop,
    /// Re-initialise the sensor from its stored settings.
    Reinit,
    /// Wait `REINIT_SETTLE_MS`.
    SettleAfterReinit,
    /// Write the altitude.
    SetAltitude(u16),
    /// Write the automatic self-calibration setting.
    SetAutoCalibration(bool),
    /// Write the configured temperature offset.
    SetTemperatureOffset,
    /// Read back the automatic self-calibration setting.
    ReadAutoCalibration,
    /// Read back the altitude.
    ReadAltitude,
    /// Read back the temperature offset.
    ReadTemperatureOffset,
    /// Publish the self-test phase with the settings read back.
    AnnounceSelfTest,
    /// Read (and log) the serial number.
    ReadSerial,
    /// Run the sensor's self test.
    RunSelfTest,
    /// Publish that the sensor is warming up.
    AnnounceWarmingUp,
    /// Start periodic measurement.
    StartPeriodic,
    /// Wait `POLL_INTERVAL_MS`.
    WaitForData,
    /// Ask whether a measurement is ready.
    CheckDataReady,
    /// Read the measurement.
    ReadMeasurement,
    /// Publish the measurement just read.
    PublishMeasurement,
    /// Give up: the sensor failed in a way the task does not recover from.
    Fail,
}

/// How the last step went.
#[derive(Debug, Clone, Copy, PartialEq, Eq, Structural)]
pub enum Outcome {
    /// It completed (with no yes/no answer, or one that is not looked at).
    Done,
    /// It answered yes.
    Yes,
    /// It answered no.
    No,
    /// The sensor reported an error.
    Failed,
}

/// The step after writing the altitude and, if configured, the automatic
/// self-calibration setting.
pub open spec fn after_calibration_spec(settings: SensorSettings) -> SensorAction {
    if settings.has_temperature_offset {
        SensorAction::SetTemperatureOffset
    } else {
        SensorAction::ReadAutoCalibration
    }
}

/// The sensor task's transitions: the step that follows `last`, given how it
/// went. Calls whose failure the task cannot go on from lead to `Fail`;
/// read-backs whose failure falls back to a default go on; the self test must
/// answer yes; a measurement is read only when one is ready.
pub open spec fn next_spec(last: SensorAction, outcome: Outcome, settings: SensorSettings) -> SensorAction {
    match last {
        SensorAction::AnnounceInit => SensorAction::StopPeriodic,
        SensorAction::StopPeriodic => SensorAction::SettleAfterStop,
        SensorAction::SettleAfterStop => SensorAction::Reinit,
        SensorAction::Reinit => if outcome == Outcome::Failed {
            SensorAction::Fail
        } else {
            SensorAction::SettleAfterReinit
        },
        SensorAction::SettleAfterReinit => SensorAction::SetAltitude(settings.altitude),
        SensorAction::SetAltitude(_) => if outcome == Outcome::Failed {
            SensorAction::Fail
        } else {
            match settings.auto_calibration {
                Some(enabled) => SensorAction::SetAutoCalibration(enabled),
                None => after_calibration_spec(settings),
            }
        },
        SensorAction::SetAutoCalibration(_) => if outcome == Outcome::Failed {
            SensorAction::Fail
        } else {
            after_calibration_spec(settings)
        },
        SensorAction::SetTemperatureOffset => if outcome == Outcome::Failed {
            SensorAction::Fail
        } else {
            SensorAction::ReadAutoCalibration
        },
        SensorAction::ReadAutoCalibration => SensorAction::ReadAltitude,
        SensorAction::ReadAltitude => SensorAction::ReadTemperatureOffset,
        SensorAction::ReadTemperatureOffset => SensorAction::AnnounceSelfTest,
        SensorAction::AnnounceSelfTest => SensorAction::ReadSerial,
        SensorAction::ReadSerial => SensorAction::RunSelfTest,
        SensorAction::RunSelfTest => if outcome == Outcome::Yes {
            SensorAction::AnnounceWarmingUp
        } else {
            SensorAction::Fail
        },
        SensorAction::AnnounceWarmingUp => SensorAction::StartPeriodic,
        SensorAction::StartPeriodic => if outcome == Outcome::Failed {
            SensorAction::Fail
        } else {
            SensorAction::WaitForData
        },
        SensorAction::WaitForData => SensorAction::CheckDataReady,
        SensorAction::CheckDataReady => if outcome == Outcome::Yes {
            SensorAction::ReadMeasurement
        } else {
            SensorAction::WaitForData
        },
        SensorAction::ReadMeasurement => if outcome == Outcome::Failed {
            SensorAction::Fail
        } else {
            SensorAction::PublishMeasurement
        },
        SensorAction::PublishMeasurement => SensorAction::WaitForData,
        SensorAction::Fail => SensorAction::Fail,
    }
}

/// The first step of the sensor task.
pub fn first_action() -> (a: SensorAction)
    ensures
        a == SensorAction::AnnounceInit,
{
    SensorAction::AnnounceInit
}

fn after_calibration(settings: SensorSettings) -> (a: SensorAction)
    ensures
        a == after_calibration_spec(settings),
{
    if settings.has_temperature_offset {
        SensorAction::SetTemperatureOffset
    } else {
        SensorAction::ReadAutoCalibration
    }
}

/// The step that follows `last`, given how it went.
pub fn next_action(last: SensorAction, outcome: Outcome, settings: SensorSettings) -> (a: SensorAction)
    ensures
        a == next_spec(last, outcome, settings),
{
    let failed = match outcome {
        Outcome::Failed => true,
        _ => false,
    };
    let yes = match outcome {
        Outcome::Yes => true,
        _ => false,
    };
    match last {
        SensorAction::AnnounceInit => SensorAction::StopPeriodic,
        SensorAction::StopPeriodic => SensorAction::SettleAfterStop,
        SensorAction::SettleAfterStop => SensorAction::Reinit,
        SensorAction::Reinit => if failed {
            SensorAction::Fail
        } else {
            SensorAction::SettleAfterReinit
        },
        SensorAction::SettleAfterReinit => SensorAction::SetAltitude(settings.altitude),
        SensorAction::SetAltitude(_) => if failed {
            SensorAction::Fail
        } else {
            match settings.auto_calibration {
                Some(enabled) => SensorAction::SetAutoCalibration(enabled),
                None => after_calibration(settings),
            }
        },
        SensorAction::SetAutoCalibration(_) => if failed {
            SensorAction::Fail
        } else {
            after_calibration(settings)
        },
        SensorAction::SetTemperatureOffset => if failed {
            SensorAction::Fail
        } else {
            SensorAction::ReadAutoCalibration
        },
        SensorAction::ReadAutoCalibration => SensorAction::ReadAltitude,
        SensorAction::ReadAltitude => SensorAction::ReadTemperatureOffset,
        SensorAction::ReadTemperatureOffset => SensorAction::AnnounceSelfTest,
        SensorAction::AnnounceSelfTest => SensorAction::ReadSerial,
        SensorAction::ReadSerial => SensorAction::RunSelfTest,
        SensorAction::RunSelfTest => if yes {
            SensorAction::AnnounceWarmingUp
        } else {
            SensorAction::Fail
        },
        SensorAction::AnnounceWarmingUp => SensorAction::StartPeriodic,
        SensorAction::StartPeriodic => if failed {
            SensorAction::Fail
        } else {
            SensorAction::WaitForData
        },
        SensorAction::WaitForData => SensorAction::CheckDataReady,
        SensorAction::CheckDataReady => if yes {
            SensorAction::ReadMeasurement
        } else {
            SensorAction::WaitForData
        },
        SensorAction::ReadMeasurement => if failed {
            SensorAction::Fail
        } else {
            SensorAction::PublishMeasurement
        },
        SensorAction::PublishMeasurement => SensorAction::WaitForData,
        SensorAction::Fail => SensorAction::Fail,
    }
}

/// The task runs the steps that `next_spec` chains from `first` on the given
/// outcomes.
pub open spec fn run(first: SensorAction, outcomes: Seq<Outcome>, settings: SensorSettings) -> SensorAction
    decreases outcomes.len(),
{
    if outcomes.len() == 0 {
        first
    } else {
        next_spec(run(first, outcomes.drop_last(), settings), outcomes.last(), settings)
    }
}

/// Once failed, the task stays failed whatever happens.
pub proof fn lemma_fail_is_final(outcomes: Seq<Outcome>, settings: SensorSettings)
    ensures
        run(SensorAction::Fail, outcomes, settings) == SensorAction::Fail,
    decreases outcomes.len(),
{
    if outcomes.len() > 0 {
        lemma_fail_is_final(outcomes.drop_last(), settings);
    }
}

/// The sensor is warmed up (and measures) only right after a self test that
/// answered yes.
pub proof fn lemma_warm_up_needs_passed_self_test(
    last: SensorAction,
    outcome: Outcome,
    settings: SensorSettings,
)
    requires
        next_spec(last, outcome, settings) == SensorAction::AnnounceWarmingUp,
    ensures
        last == SensorAction::RunSelfTest,
        outcome == Outcome::Yes,
{
}

/// A measurement is read only right after the sensor said one is ready.
pub proof fn lemma_read_only_when_ready(last: SensorAction, outcome: Outcome, settings: SensorSettings)
    requires
        next_spec(last, outcome, settings) == SensorAction::ReadMeasurement,
    ensures
        last == SensorAction::CheckDataReady,
        outcome == Outcome::Yes,
{
}

/// A failed start-up write or a failed measurement read ends the task, and so
/// does a self test that does not answer yes.
pub proof fn lemma_required_steps_fail_hard(last: SensorAction, outcome: Outcome, settings: SensorSettings)
    requires
        (outcome == Outcome::Failed && (last == SensorAction::Reinit || last is SetAltitude
            || last is SetAutoCalibration || last == SensorAction::SetTemperatureOffset || last
            == SensorAction::StartPeriodic || last == SensorAction::ReadMeasurement)) || (last
            == SensorAction::RunSelfTest && outcome != Outcome::Yes),
    ensures
        next_spec(last, outcome, settings) == SensorAction::Fail,
{
}

/// Once measuring, the task keeps polling: it never goes back to the start-up
/// steps, and only a failed measurement read stops it.
pub proof fn lemma_polling_loop(last: SensorAction, outcome: Outcome, settings: SensorSettings)
    requires
        last == SensorAction::WaitForData || last == SensorAction::CheckDataReady || last
            == SensorAction::ReadMeasurement || last == SensorAction::PublishMeasurement,
    ensures
        ({
            let n = next_spec(last, outcome, settings);
            n == SensorAction::WaitForData || n == SensorAction::CheckDataReady || n
                == SensorAction::ReadMeasurement || n == SensorAction::PublishMeasurement || (last
                == SensorAction::ReadMeasurement && outcome == Outcome::Failed && n
                == SensorAction::Fail)
        }),
{
}

/// After the altitude was written, the configured automatic self-calibration
/// setting, when there is one, is written next, with exactly the configured
/// value; when there is none, the configured temperature offset, when there
/// is one, is written next; otherwise the task reads the settings back.
pub proof fn lemma_configured_writes_follow_altitude(
    altitude: u16,
    outcome: Outcome,
    settings: SensorSettings,
)
    requires
        outcome != Outcome::Failed,
    ensures
        forall|e: bool|
            settings.auto_calibration == Some(e) ==> next_spec(
                SensorAction::SetAltitude(altitude),
                outcome,
                settings,
            ) == SensorAction::SetAutoCalibration(e),
        settings.auto_calibration is None && settings.has_temperature_offset ==> next_spec(
            SensorAction::SetAltitude(altitude),
            outcome,
            settings,
        ) == SensorAction::SetTemperatureOffset,
        settings.auto_calibration is None && !settings.has_temperature_offset ==> next_spec(
            SensorAction::SetAltitude(altitude),
            outcome,
            settings,
        ) == SensorAction::ReadAutoCalibration,
{
}

/// Whether the task was at step `target` at some point of the run on
/// `outcomes` (its first step included).
pub open spec fn visited(outcomes: Seq<Outcome>, settings: SensorSettings, target: SensorAction) -> bool
    decreases outcomes.len(),
{
    (outcomes.len() > 0 && visited(outcomes.drop_last(), settings, target)) || run(
        SensorAction::AnnounceInit,
        outcomes,
        settings,
    ) == target
}

/// Steps before any setting is written.
spec fn before_settings(a: SensorAction) -> bool {
    a == SensorAction::AnnounceInit || a == SensorAction::StopPeriodic || a
        == SensorAction::SettleAfterStop || a == SensorAction::Reinit || a
        == SensorAction::SettleAfterReinit || a is SetAltitude
}

/// Steps after all settings were written: reading them back, the self
/// test, and measuring.
pub open spec fn after_settings(a: SensorAction) -> bool {
    a == SensorAction::ReadAutoCalibration || a == SensorAction::ReadAltitude || a
        == SensorAction::ReadTemperatureOffset || a == SensorAction::AnnounceSelfTest || a
        == SensorAction::ReadSerial || a == SensorAction::RunSelfTest || a
        == SensorAction::AnnounceWarmingUp || a == SensorAction::StartPeriodic || a
        == SensorAction::WaitForData || a == SensorAction::CheckDataReady || a
        == SensorAction::ReadMeasurement || a == SensorAction::PublishMeasurement
}

/// What has been written by the time the task is at step `a`: `wrote_offset`
/// tells whether the temperature offset was written, `wrote_cal` whether the
/// automatic self-calibration setting was written with the value `e`.
spec fn writes_so_far(
    a: SensorAction,
    wrote_offset: bool,
    wrote_cal: bool,
    e: bool,
    settings: SensorSettings,
) -> bool {
    if before_settings(a) {
        &&& !wrote_offset
        &&& !wrote_cal
        &&& (a is SetAltitude ==> a->SetAltitude_0 == settings.altitude)
    } else if a is SetAutoCalibration {
        &&& settings.auto_calibration == Some(a->SetAutoCalibration_0)
        &&& !wrote_offset
        &&& (wrote_cal <==> a->SetAutoCalibration_0 == e)
    } else if a == SensorAction::SetTemperatureOffset {
        &&& settings.has_temperature_offset
        &&& wrote_offset
        &&& (wrote_cal <==> settings.auto_calibration == Some(e))
    } else if after_settings(a) {
        &&& (wrote_offset <==> settings.has_temperature_offset)
        &&& (wrote_cal <==> settings.auto_calibration == Some(e))
    } else {
        true
    }
}

proof fn lemma_writes_so_far(outcomes: Seq<Outcome>, settings: SensorSettings, e: bool)
    ensures
        writes_so_far(
            run(SensorAction::AnnounceInit, outcomes, settings),
            visited(outcomes, settings, SensorAction::SetTemperatureOffset),
            visited(outcomes, settings, SensorAction::SetAutoCalibration(e)),
            e,
            settings,
        ),
    decreases outcomes.len(),
{
    if outcomes.len() > 0 {
        lemma_writes_so_far(outcomes.drop_last(), settings, e);
    }
}

/// Every run that gets as far as reading the settings back (and so every run
/// that reaches the self test and measuring) has written the configured
/// settings, and nothing else: the altitude with the configured value, the
/// temperature offset exactly when one is configured, and the automatic
/// self-calibration setting exactly when one is configured, with exactly that
/// value.
pub proof fn lemma_configured_settings_written(
    outcomes: Seq<Outcome>,
    settings: SensorSettings,
    e: bool,
)
    requires
        after_settings(run(SensorAction::AnnounceInit, outcomes, settings)),
    ensures
        visited(outcomes, settings, SensorAction::SetTemperatureOffset)
            == settings.has_temperature_offset,
        visited(outcomes, settings, SensorAction::SetAutoCalibration(e)) == (
        settings.auto_calibration == Some(e)),
{
    lemma_writes_so_far(outcomes, settings, e);
}

/// The altitude the task writes is always the configured one.
pub proof fn lemma_altitude_written_as_configured(
    outcomes: Seq<Outcome>,
    settings: SensorSettings,
    altitude: u16,
)
    requires
        run(SensorAction::AnnounceInit, outcomes, settings) == SensorAction::SetAltitude(altitude),
    ensures
        altitude == settings.altitude,
{
    lemma_writes_so_far(outcomes, settings, true);
}

/// Outcomes of a run in which every step succeeds and every question is
/// answered yes.
pub open spec fn all_yes(n: nat) -> Seq<Outcome> {
    Seq::new(n, |i: int| Outcome::Yes)
}

/// Steps a fully successful start-up takes from its first step to its first
/// wait for data: fourteen fixed steps, plus one for each optional setting
/// configured.
pub open spec fn start_up_steps(settings: SensorSettings) -> nat {
    14 + (if settings.auto_calibration is Some {
        1nat
    } else {
        0nat
    }) + (if settings.has_temperature_offset {
        1nat
    } else {
        0nat
    })
}

/// When every step succeeds, the task gets through start-up to its first wait
/// for data after exactly `start_up_steps` steps, and three steps later it
/// publishes its first measurement.
pub proof fn lemma_successful_run_measures(settings: SensorSettings)
    ensures
        run(SensorAction::AnnounceInit, all_yes(start_up_steps(settings)), settings)
            == SensorAction::WaitForData,
        run(SensorAction::AnnounceInit, all_yes(start_up_steps(settings) + 3), settings)
            == SensorAction::PublishMeasurement,
{
    let n = start_up_steps(settings);
    lemma_yes_run(n, settings);
    lemma_yes_run(n + 3, settings);
    reveal_with_fuel(yes_steps, 21);
}

/// The step reached after `k` steps that all answer yes.
spec fn yes_steps(k: nat, settings: SensorSettings) -> SensorAction
    decreases k,
{
    if k == 0 {
        SensorAction::AnnounceInit
    } else {
        next_spec(yes_steps((k - 1) as nat, settings), Outcome::Yes, settings)
    }
}

proof fn lemma_yes_run(k: nat, settings: SensorSettings)
    ensures
        run(SensorAction::AnnounceInit, all_yes(k), settings) == yes_steps(k, settings),
    decreases k,
{
    if k > 0 {
        assert(all_yes(k).drop_last() =~= all_yes((k - 1) as nat));
        lemma_yes_run((k - 1) as nat, settings);
    }
}

/// In the polling loop the task checks for data after each wait, reads a
/// measurement whenever one is ready, publishes it right after a successful
/// read, and waits again after publishing.
pub proof fn lemma_polling_steps(outcome: Outcome, settings: SensorSettings)
    ensures
        next_spec(SensorAction::WaitForData, outcome, settings) == SensorAction::CheckDataReady,
        outcome == Outcome::Yes ==> next_spec(SensorAction::CheckDataReady, outcome, settings)
            == SensorAction::ReadMeasurement,
        outcome != Outcome::Failed ==> next_spec(SensorAction::ReadMeasurement, outcome, settings)
            == SensorAction::PublishMeasurement,
        next_spec(SensorAction::PublishMeasurement, outcome, settings)
            == SensorAction::WaitForData,
{
}

/// The phase a step publishes to the display task, if it publishes one.
pub open spec fn announcement(a: SensorAction) -> Option<SensorPhase> {
    match a {
        SensorAction::AnnounceInit => Some(SensorPhase::SensorInit),
        SensorAction::AnnounceSelfTest => Some(SensorPhase::SelfTest),
        SensorAction::AnnounceWarmingUp => Some(SensorPhase::WarmingUp),
        SensorAction::PublishMeasurement => Some(SensorPhase::Data),
        _ => None,
    }
}

/// The phases the task publishes over a run from its first step, in order, on
/// the given outcomes.
pub open spec fn announcements(outcomes: Seq<Outcome>, settings: SensorSettings) -> Seq<SensorPhase>
    decreases outcomes.len(),
{
    let before = if outcomes.len() == 0 {
        Seq::empty()
    } else {
        announcements(outcomes.drop_last(), settings)
    };
    match announcement(run(SensorAction::AnnounceInit, outcomes, settings)) {
        Some(p) => before.push(p),
        None => before,
    }
}

/// The `i`-th phase the task may publish: sensor init, self test, warming up,
/// then measurements.
pub open spec fn expected_announcement(i: int) -> SensorPhase {
    if i == 0 {
        SensorPhase::SensorInit
    } else if i == 1 {
        SensorPhase::SelfTest
    } else if i == 2 {
        SensorPhase::WarmingUp
    } else {
        SensorPhase::Data
    }
}

/// How many phases have been published by the time the task is at step `a`.
spec fn published_by(a: SensorAction, n: int) -> bool {
    match a {
        SensorAction::AnnounceSelfTest | SensorAction::ReadSerial | SensorAction::RunSelfTest => n
            == 2,
        SensorAction::AnnounceWarmingUp | SensorAction::StartPeriodic | SensorAction::WaitForData
        | SensorAction::CheckDataReady | SensorAction::ReadMeasurement
        | SensorAction::PublishMeasurement => n >= 3,
        SensorAction::Fail => n >= 1,
        _ => n == 1,
    }
}

proof fn lemma_announcements_inv(outcomes: Seq<Outcome>, settings: SensorSettings)
    ensures
        published_by(
            run(SensorAction::AnnounceInit, outcomes, settings),
            announcements(outcomes, settings).len() as int,
        ),
        forall|i: int|
            0 <= i < announcements(outcomes, settings).len() ==> #[trigger] announcements(
                outcomes,
                settings,
            )[i] == expected_announcement(i),
    decreases outcomes.len(),
{
    if outcomes.len() > 0 {
        lemma_announcements_inv(outcomes.drop_last(), settings);
    }
}

/// Over any run, the task publishes sensor init, then the self test, then
/// warming up, then only measurements, never in another order; and it
/// publishes the self test, warming up and measurements only after the steps
/// before them succeeded as `next_spec` requires.
pub proof fn lemma_announcement_order(outcomes: Seq<Outcome>, settings: SensorSettings, i: int)
    requires
        0 <= i < announcements(outcomes, settings).len(),
    ensures
        announcements(outcomes, settings)[i] == expected_announcement(i),
{
    lemma_announcements_inv(outcomes, settings);
}

// ---------------------------------------------------------------------------
// Synthetic readings for exercising the display without a sensor.
// ---------------------------------------------------------------------------

/// One step of the xorshift generator behind the synthetic readings, on a
/// 16-bit state: `x ^= x << 13; x ^= x >> 17; x ^= x << 5`, with the shift
/// amounts taken modulo the width as the overflowing shifts do.
pub open spec fn xorshift_spec(x: i16) -> i16 {
    let a = x ^ (x << 13u32);
    let b = a ^ (a >> 1u32);
    b ^ (b << 5u32)
}

/// Advances the generator state and returns the new state.
pub fn xorshift32(state: &mut i16) -> (x: i16)
    ensures
        x == xorshift_spec(*old(state)),
        *final(state) == x,
{
    let mut x = *state;
    x = x ^ x.wrapping_shl(13);
    x = x ^ x.wrapping_shr(17);
    x = x ^ x.wrapping_shl(5);
    *state = x;
    x
}

/// Remainder of `r` by 16 with the sign of `r`, as `%` computes it on integers.
pub open spec fn rem16(r: i16) -> int {
    if r >= 0 {
        (r as int) % 16
    } else {
        -((-(r as int)) % 16)
    }
}

/// The next synthetic CO2 reading: the previous one nudged by the random
/// value's remainder by 16 (at most 15 ppm either way), in 16-bit two's
/// complement as the reading is stored.
pub fn next_test_co2(co2: u16, random: i16) -> (next: u16)
    requires
        i16::MIN <= (co2 as i16) + rem16(random) <= i16::MAX,
    ensures
        next == ((co2 as i16) + rem16(random)) as u16,
{
    let step = random % 16;
    let base = #[verifier::truncate] (co2 as i16);
    #[verifier::truncate] ((base + step) as u16)
}

} // verus!
