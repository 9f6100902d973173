use vstd::prelude::*;

use crate::pmsa003i::{parse_pmsa003i, pmsa003i_of, Pmsa003iReading};
use crate::scd30::{parse_scd30, scd30_is_ready, scd30_of, scd30_ready, Scd30Words};

verus! {

/// Most status queries made in one cycle before the cycle gives up.
pub const MAX_POLLS: u32 = 1000;

/// Seconds to rest between two cycles.
pub const CYCLE_REST_SECS: u64 = 30;

/// Why a cycle, or the whole acquisition, stopped short.
#[derive(Clone, Copy, Debug, PartialEq, Eq)]
pub enum Fault {
    /// The start command could not be sent.
    StartFailed,
    /// The sensor never reported a fresh measurement within the poll budget.
    NotReady,
    /// A bus transaction failed.
    Bus,
    /// An event arrived that the current phase does not expect.
    Unexpected,
}

/// Both readings of one cycle.
#[derive(Clone, Copy, Debug, PartialEq, Eq)]
pub struct CycleReadings {
    pub co2: Scd30Words,
    pub particulate: Pmsa003iReading,
}

/// Where the acquisition stands.
#[derive(Clone, Copy, Debug, PartialEq, Eq)]
pub enum Phase {
    /// The start command has been issued; its outcome is awaited.
    Starting,
    /// Status queries are under way; `attempts` of them have failed so far.
    Polling { attempts: u32 },
    /// The CO2 frame has been requested.
    ReadingCo2,
    /// The particulate frame has been requested; the CO2 words are held.
    ReadingParticulate { co2: Scd30Words },
    /// The cycle is over; the rest between cycles is under way.
    Resting,
    /// The acquisition has stopped for good.
    Halted { fault: Fault },
}

/// What the bus or the clock reports back after an action.
#[derive(Clone, Copy, Debug, PartialEq, Eq)]
pub enum Event {
    /// A write completed.
    Acknowledged,
    /// A bus transaction failed.
    BusFailed,
    /// The two-byte answer to a status query.
    Status { response: [u8; 2] },
    /// An 18-byte CO2 frame.
    Co2Frame { co2_frame: [u8; 18] },
    /// A 32-byte particulate frame.
    ParticulateFrame { pm_frame: [u8; 32] },
    /// The rest between cycles is over.
    Rested,
}

/// What the driver of the acquisition must do next.
#[derive(Clone, Copy, Debug, PartialEq, Eq)]
pub enum Action {
    /// Send the start command to the CO2 sensor.
    SendStart,
    /// Send the status command to the CO2 sensor and read two bytes back.
    QueryStatus,
    /// Send the read command to the CO2 sensor and read 18 bytes back.
    ReadCo2,
    /// Block-read 32 bytes from the particulate sensor.
    ReadParticulate,
    /// Hand the readings of the cycle on, then rest.
    Publish { readings: CycleReadings },
    /// Report that the cycle was dropped, then rest.
    Report { fault: Fault },
    /// Stop the acquisition.
    Halt { fault: Fault },
}

/// A phase is well formed when a poll count stays under the budget.
pub open spec fn phase_wf(p: Phase) -> bool {
    p matches Phase::Polling { attempts } ==> attempts < MAX_POLLS
}

/// What follows one failed status query after `attempts` earlier ones.
pub open spec fn after_failed_poll(attempts: u32, fault: Fault) -> (Phase, Action) {
    if attempts as int + 1 < MAX_POLLS as int {
        (Phase::Polling { attempts: (attempts + 1) as u32 }, Action::QueryStatus)
    } else {
        (Phase::Resting, Action::Report { fault })
    }
}

/// The transition of the acquisition on one event.
pub open spec fn next(p: Phase, e: Event) -> (Phase, Action) {
    match p {
        Phase::Starting => match e {
            Event::Acknowledged => (Phase::Polling { attempts: 0 }, Action::QueryStatus),
            Event::BusFailed => (
                Phase::Halted { fault: Fault::StartFailed },
                Action::Halt { fault: Fault::StartFailed },
            ),
            _ => (
                Phase::Halted { fault: Fault::Unexpected },
                Action::Halt { fault: Fault::Unexpected },
            ),
        },
        Phase::Polling { attempts } => match e {
            Event::Status { response } => if scd30_ready(response@) {
                (Phase::ReadingCo2, Action::ReadCo2)
            } else {
                after_failed_poll(attempts, Fault::NotReady)
            },
            Event::BusFailed => after_failed_poll(attempts, Fault::Bus),
            _ => (Phase::Resting, Action::Report { fault: Fault::Unexpected }),
        },
        Phase::ReadingCo2 => match e {
            Event::Co2Frame { co2_frame: frame } => (
                Phase::ReadingParticulate { co2: scd30_of(frame@) },
                Action::ReadParticulate,
            ),
            Event::BusFailed => (Phase::Resting, Action::Report { fault: Fault::Bus }),
            _ => (Phase::Resting, Action::Report { fault: Fault::Unexpected }),
        },
        Phase::ReadingParticulate { co2 } => match e {
            Event::ParticulateFrame { pm_frame: frame } => (
                Phase::Resting,
                Action::Publish {
                    readings: CycleReadings { co2, particulate: pmsa003i_of(frame@) },
                },
            ),
            Event::BusFailed => (Phase::Resting, Action::Report { fault: Fault::Bus }),
            _ => (Phase::Resting, Action::Report { fault: Fault::Unexpected }),
        },
        Phase::Resting => match e {
            Event::Rested => (Phase::Polling { attempts: 0 }, Action::QueryStatus),
            _ => (Phase::Resting, Action::Report { fault: Fault::Unexpected }),
        },
        Phase::Halted { fault } => (Phase::Halted { fault }, Action::Halt { fault }),
    }
}

/// The first phase and action: the start command goes out once, before
/// any polling.
pub fn begin() -> (r: (Phase, Action))
    ensures
        r == (Phase::Starting, Action::SendStart),
        phase_wf(r.0),
{
    (Phase::Starting, Action::SendStart)
}

fn failed_poll(attempts: u32, fault: Fault) -> (r: (Phase, Action))
    ensures
        r == after_failed_poll(attempts, fault),
{
    if attempts < MAX_POLLS - 1 {
        (Phase::Polling { attempts: attempts + 1 }, Action::QueryStatus)
    } else {
        (Phase::Resting, Action::Report { fault })
    }
}

/// Advances the acquisition by one event.
pub fn step(p: Phase, e: Event) -> (r: (Phase, Action))
    ensures
        r == next(p, e),
{
    match p {
        Phase::Starting => match e {
            Event::Acknowledged => (Phase::Polling { attempts: 0 }, Action::QueryStatus),
            Event::BusFailed => (
                Phase::Halted { fault: Fault::StartFailed },
                Action::Halt { fault: Fault::StartFailed },
            ),
            _ => (
                Phase::Halted { fault: Fault::Unexpected },
                Action::Halt { fault: Fault::Unexpected },
            ),
        },
        Phase::Polling { attempts } => match e {
            Event::Status { response } => if scd30_is_ready(response) {
                (Phase::ReadingCo2, Action::ReadCo2)
            } else {
                failed_poll(attempts, Fault::NotReady)
            },
            Event::BusFailed => failed_poll(attempts, Fault::Bus),
            _ => (Phase::Resting, Action::Report { fault: Fault::Unexpected }),
        },
        Phase::ReadingCo2 => match e {
            Event::Co2Frame { co2_frame: frame } => (
                Phase::ReadingParticulate { co2: parse_scd30(frame) },
                Action::ReadParticulate,
            ),
            Event::BusFailed => (Phase::Resting, Action::Report { fault: Fault::Bus }),
            _ => (Phase::Resting, Action::Report { fault: Fault::Unexpected }),
        },
        Phase::ReadingParticulate { co2 } => match e {
            Event::ParticulateFrame { pm_frame: frame } => (
                Phase::Resting,
                Action::Publish {
                    readings: CycleReadings { co2, particulate: parse_pmsa003i(frame) },
                },
            ),
            Event::BusFailed => (Phase::Resting, Action::Report { fault: Fault::Bus }),
            _ => (Phase::Resting, Action::Report { fault: Fault::Unexpected }),
        },
        Phase::Resting => match e {
            Event::Rested => (Phase::Polling { attempts: 0 }, Action::QueryStatus),
            _ => (Phase::Resting, Action::Report { fault: Fault::Unexpected }),
        },
        Phase::Halted { fault } => (Phase::Halted { fault }, Action::Halt { fault }),
    }
}

/// Stepping keeps the poll count under its budget.
pub proof fn lemma_step_keeps_wf(p: Phase, e: Event)
    requires
        phase_wf(p),
    ensures
        phase_wf(next(p, e).0),
{
}

/// The start command is never issued again after the first action.
pub proof fn lemma_start_sent_once(p: Phase, e: Event)
    ensures
        next(p, e).1 != Action::SendStart,
{
}

/// Polling is bounded: a step from the polling phase that stays there
/// raises the count of failed queries by one, so with the count kept under
/// `MAX_POLLS` a cycle makes at most that many status queries before it
/// reads or gives up.
pub proof fn lemma_polling_advances(p: Phase, e: Event)
    requires
        p is Polling,
        next(p, e).0 is Polling,
    ensures
        next(p, e).0->attempts == p->attempts + 1,
{
}

/// A cycle publishes only whole snapshots: readings are handed on only when
/// the particulate frame arrives while the CO2 words of the same cycle are
/// held, and they are exactly the decodings of the two frames.
pub proof fn lemma_publish_is_whole(p: Phase, e: Event)
    requires
        next(p, e).1 is Publish,
    ensures
        p matches Phase::ReadingParticulate { co2 } && e matches Event::ParticulateFrame {
            pm_frame,
        } && next(p, e).1 == (Action::Publish {
            readings: CycleReadings { co2, particulate: pmsa003i_of(pm_frame@) },
        }),
{
}

} // verus!
