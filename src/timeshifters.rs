//! Time-shiftable devices: which kinds exist, how they are named, and the decisions taken
//! around scheduling, cancelling and shutting down their jobs.

use vstd::prelude::*;

use crate::error::ApiError;
use crate::jobs::Job;
use crate::naming::{entity_name, house_entity_name};
use crate::text::same_text;

verus! {

/// The supported kinds of time-shiftable device.
#[derive(PartialEq, Eq, Structural, Clone, Copy, Debug)]
pub enum TimeShifters {
    DishWasher,
    WashingMachine,
}

pub open spec fn dish_washer_name() -> Seq<char> {
    "DishWasher"@
}

pub open spec fn washing_machine_name() -> Seq<char> {
    "WashingMachine"@
}

/// The name of a kind.
pub open spec fn kind_name(k: TimeShifters) -> Seq<char> {
    match k {
        TimeShifters::DishWasher => dish_washer_name(),
        TimeShifters::WashingMachine => washing_machine_name(),
    }
}

/// A request to run a job `delay` time units from now, for `duration` time units.
pub struct ScheduleJob {
    pub delay: u64,
    pub duration: u64,
}

/// A reading of the backend's clock.
pub struct Time {
    pub time: u64,
}

impl TimeShifters {
    /// The name of this kind.
    pub fn get_device_name(&self) -> (r: &'static str)
        ensures
            r@ == kind_name(*self),
    {
        proof {
            reveal_strlit("DishWasher");
            reveal_strlit("WashingMachine");
        }
        match self {
            TimeShifters::DishWasher => "DishWasher",
            TimeShifters::WashingMachine => "WashingMachine",
        }
    }

    /// The kind with the given name; the names are matched exactly.
    pub fn from_name(name: &str) -> (r: Result<TimeShifters, ApiError>)
        ensures
            name@ == dish_washer_name() ==> r == Ok::<TimeShifters, ApiError>(
                TimeShifters::DishWasher,
            ),
            name@ == washing_machine_name() ==> r == Ok::<TimeShifters, ApiError>(
                TimeShifters::WashingMachine,
            ),
            name@ != dish_washer_name() && name@ != washing_machine_name() ==> (r matches Err(
                ApiError::UnknownDeviceKind(s),
            ) && s@ == name@),
    {
        proof {
            reveal_strlit("DishWasher");
            reveal_strlit("WashingMachine");
            assert("DishWasher"@.len() != "WashingMachine"@.len());
        }
        if same_text(name, "DishWasher") {
            Ok(TimeShifters::DishWasher)
        } else if same_text(name, "WashingMachine") {
            Ok(TimeShifters::WashingMachine)
        } else {
            Err(ApiError::UnknownDeviceKind(String::from_str(name)))
        }
    }

    /// The backend's name for the device of this kind in house `house_id`.
    pub fn entity_name(&self, house_id: u32) -> (r: String)
        ensures
            r@ == house_entity_name(kind_name(*self), house_id as nat),
    {
        entity_name(self.get_device_name(), house_id)
    }
}

/// The job that a successful scheduling request creates, from the backend clock read
/// after the request: it starts `delay` after that reading and lasts `duration`.
pub fn scheduled_job(request: &ScheduleJob, now: &Time) -> (r: Job)
    requires
        now.time + request.delay + request.duration <= u64::MAX,
    ensures
        r.start_time == now.time + request.delay,
        r.end_time == now.time + request.delay + request.duration,
        r.start_time <= r.end_time,
{
    let start = now.time + request.delay;
    Job { start_time: start, end_time: start + request.duration }
}

/// The outcome of a scheduling or cancelling reply: success, or the backend's failure
/// with its message as it was given.
pub fn reply_outcome(success: bool, message: String) -> (r: Result<(), ApiError>)
    ensures
        success ==> r is Ok,
        !success ==> r == Err::<(), ApiError>(ApiError::BackendReportedFailure(message)),
{
    if success {
        Ok(())
    } else {
        Err(ApiError::BackendReportedFailure(message))
    }
}

/// The outcome of a forced shutdown; the backend answers with a flag alone.
pub fn shutdown_outcome(done: bool) -> (r: Result<(), ApiError>)
    ensures
        done ==> r is Ok,
        !done ==> r == Err::<(), ApiError>(ApiError::ShutdownRefused),
{
    if done {
        Ok(())
    } else {
        Err(ApiError::ShutdownRefused)
    }
}

} // verus!
