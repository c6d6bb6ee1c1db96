//! The time-entry value object and its construction from command-line
//! options: the stop time must not precede the start time, and the entry's
//! duration is the difference of the two in whole seconds.

use vstd::prelude::*;
use vstd::string::StringExecFns;

verus! {

/// A point in time as the library models it: the instant as whole seconds
/// since the Unix epoch, for arithmetic, and the caller's textual rendering
/// of it (an ISO-8601 timestamp with offset), carried verbatim into the
/// serialized entry.
pub struct Timestamp {
    pub seconds: i64,
    pub text: String,
}

/// One time entry as the service's API expects it.
pub struct TimeEntry {
    pub description: String,
    pub created_with: String,
    pub start: String,
    pub duration: u64,
    pub wid: u32,
    pub pid: u32,
}

/// The payload of one creation request: a single time entry.
pub struct TimeEntryRequest {
    pub time_entry: TimeEntry,
}

/// The command-line options that describe the entry to create.
pub struct EntryOptions {
    pub description: String,
    pub workspace: u32,
    pub project: u32,
    pub start: Timestamp,
    pub stop: Timestamp,
}

/// Why an entry could not be built.
#[derive(Debug)]
pub enum EntryError {
    StopBeforeStart,
}

impl EntryError {
    /// The diagnostic printed when the run is aborted.
    pub fn message(&self) -> (r: String)
        ensures
            r@ == "The stop time must be _after_ the start time!"@,
    {
        String::from_str("The stop time must be _after_ the start time!")
    }
}

/// The duration field of an entry built from `start` and `stop` seconds:
/// their difference, in whole seconds.
pub open spec fn spec_duration(start: i64, stop: i64) -> int {
    stop - start
}

/// How a built entry relates to the options it was built from: every field
/// is carried over, the attribution tag is the fixed constant, and the
/// duration is the difference of the two instants in whole seconds.
pub open spec fn entry_matches_options(opt: EntryOptions, e: TimeEntry) -> bool {
    &&& e.description@ == opt.description@
    &&& e.created_with@ == "Knob"@
    &&& e.start@ == opt.start.text@
    &&& e.duration == spec_duration(opt.start.seconds, opt.stop.seconds)
    &&& e.wid == opt.workspace
    &&& e.pid == opt.project
}

/// Builds the creation request from the command-line options.
///
/// The interval is rejected exactly when the stop time precedes the start
/// time; otherwise the entry carries the options' fields and a duration of
/// exactly `stop - start` whole seconds.
pub fn opt_to_time_entry(opt: EntryOptions) -> (r: Result<TimeEntryRequest, EntryError>)
    ensures
        r is Err <==> opt.stop.seconds < opt.start.seconds,
        r is Err ==> r->Err_0 is StopBeforeStart,
        r is Ok ==> entry_matches_options(opt, r->Ok_0.time_entry),
{
    if opt.stop.seconds < opt.start.seconds {
        return Err(EntryError::StopBeforeStart);
    }
    let duration: u64 = (opt.stop.seconds as i128 - opt.start.seconds as i128) as u64;
    let time_entry = TimeEntry {
        description: opt.description,
        created_with: String::from_str("Knob"),
        start: opt.start.text,
        duration,
        wid: opt.workspace,
        pid: opt.project,
    };
    Ok(TimeEntryRequest { time_entry })
}

} // verus!
