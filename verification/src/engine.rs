//! The audio engine as the session sees it.
//!
//! The session never touches the sound device. It says what the engine is to
//! do, as a short plan of requests, and is told afterwards whether the one
//! request that can fail did. An engine handle is an open session on the
//! output device; the functions at the end of this file count handles along
//! a plan.

use vstd::prelude::*;
use crate::gain::Gain;

verus! {

/// One thing the engine is asked to do.
#[derive(Clone, Copy, Debug, PartialEq, Eq)]
pub enum EngineRequest {
    /// Stop the open handle and give the output device back.
    Release,
    /// Open a handle on the output device, queue the track with this index,
    /// apply the gain and start emitting samples. This is the one request
    /// that can fail, and if it does, no handle stays open.
    Start { track: i32, gain: Gain },
    /// Suspend the open handle.
    Pause,
    /// Reactivate the suspended handle.
    Resume,
    /// Apply a gain to the open handle.
    SetGain(Gain),
}

/// Why the engine could not start a track.
#[derive(Clone, Copy, Debug, PartialEq, Eq)]
pub enum EngineFault {
    /// No handle could be opened on the output device.
    DeviceUnavailable,
    /// The track's file could not be read.
    SourceUnreadable,
    /// The track's file holds no audio that the engine can decode.
    SourceUndecodable,
}

/// Whether a request makes sense while `open` handles are open: a start
/// needs the device to be free, every other request needs the one handle it
/// speaks to.
pub open spec fn fits(open: int, request: EngineRequest) -> bool {
    match request {
        EngineRequest::Start { .. } => open == 0,
        _ => open == 1,
    }
}

/// The number of handles open once a request has been carried out. `fault`
/// is what the engine reported of a start, `None` if it succeeded.
pub open spec fn open_after(open: int, request: EngineRequest, fault: Option<EngineFault>) -> int {
    match request {
        EngineRequest::Release => open - 1,
        EngineRequest::Start { .. } => if fault is None {
            open + 1
        } else {
            open
        },
        _ => open,
    }
}

/// Whether every request of a plan fits when its turn comes, if the plan is
/// carried out in order from `open` open handles and every start succeeds.
/// Such a plan never has two handles open at once.
pub open spec fn orderly(open: int, plan: Seq<EngineRequest>) -> bool
    decreases plan.len(),
{
    plan.len() == 0 || (fits(open, plan[0]) && orderly(
        open_after(open, plan[0], None),
        plan.drop_first(),
    ))
}

/// The number of handles open once a whole plan has been carried out.
pub open spec fn open_at_end(open: int, plan: Seq<EngineRequest>, fault: Option<EngineFault>) -> int
    decreases plan.len(),
{
    if plan.len() == 0 {
        open
    } else {
        open_at_end(open_after(open, plan[0], fault), plan.drop_first(), fault)
    }
}

} // verus!
