//! Retention of log files: which files of the log directory are old enough
//! to be removed, and the order of steps in which one sweep is carried out.
//!
//! The sweep itself touches the file system, so it is written as a state
//! machine: the caller performs the action that a state asks for and reports
//! what happened as an event.

use crate::startup::{live_log_name, live_log_name_text};
use vstd::prelude::*;
use vstd::string::*;

verus! {

/// An instant: whole seconds since the Unix epoch, and the nanoseconds
/// within that second. Instants are ordered by seconds, then nanoseconds.
#[derive(Clone, Copy, Debug, PartialEq, Eq)]
pub struct Timestamp {
    pub secs: i64,
    pub nanos: u32,
}

/// What is known of one entry of the log directory.
#[derive(Clone, Copy, Debug, PartialEq, Eq)]
pub struct LogFileRecord {
    /// Whether the entry is a regular file.
    pub is_file: bool,
    /// Whether the entry is the log file that the sink is writing to.
    pub is_live: bool,
    /// When it was last modified, if that could be read.
    pub modified: Option<Timestamp>,
}

/// How a sweep ended.
#[derive(Clone, Copy, Debug, PartialEq, Eq)]
pub enum SweepOutcome {
    /// No retention period is configured: nothing was looked at.
    Disabled,
    /// There is no log directory: nothing to clean.
    NoDirectory,
    /// Every entry was seen; `deleted` files were removed.
    Completed { deleted: u64 },
    /// The directory could not be listed; `deleted` files were removed before.
    Failed { deleted: u64 },
}

/// Where a sweep stands.
#[derive(Clone, Copy, Debug, PartialEq, Eq)]
pub enum SweepState {
    /// Waiting to learn whether the log directory exists.
    AwaitDirectory { days: u32 },
    /// Waiting for the next entry of the directory.
    Scanning { now: Timestamp, days: u32, deleted: u64 },
    /// Waiting for the removal of the entry reported last.
    Removing { now: Timestamp, days: u32, deleted: u64 },
    /// The sweep is over.
    Finished(SweepOutcome),
}

/// What the caller reports back.
#[derive(Clone, Copy, Debug, PartialEq, Eq)]
pub enum SweepEvent {
    /// The log directory does not exist.
    DirectoryMissing,
    /// The log directory exists.
    DirectoryFound,
    /// The next entry of the directory; `None` if nothing could be read of it.
    Entry(Option<LogFileRecord>),
    /// The directory has no further entry.
    EndOfListing,
    /// The directory could not be found out or listed.
    ListingFailed,
    /// The entry reported last was removed.
    Removed,
    /// The entry reported last could not be removed.
    RemoveFailed,
}

/// What the caller is asked to do next.
#[derive(Clone, Copy, Debug, PartialEq, Eq)]
pub enum SweepAction {
    /// Report whether the log directory exists.
    CheckDirectory,
    /// Report the next entry of the log directory.
    NextEntry,
    /// Remove the entry reported last.
    Remove,
    /// Stop: the sweep ended in this way.
    Finish(SweepOutcome),
}

/// The number of seconds in a day.
pub const SECONDS_PER_DAY: i64 = 86_400;

/// The seconds of the instant that lies `days` days before `now`.
pub open spec fn cutoff_seconds(now: Timestamp, days: u32) -> int {
    now.secs - days * SECONDS_PER_DAY
}

/// Whether `modified` is strictly earlier than the instant `days` days
/// before `now`.
pub open spec fn precedes_cutoff(modified: Timestamp, now: Timestamp, days: u32) -> bool {
    modified.secs < cutoff_seconds(now, days) || (modified.secs == cutoff_seconds(now, days)
        && modified.nanos < now.nanos)
}

/// Whether an entry is to be removed: a regular file, other than the one
/// that the sink is writing to, whose modification time is known and
/// strictly earlier than the cutoff.
pub open spec fn is_stale(entry: Option<LogFileRecord>, now: Timestamp, days: u32) -> bool {
    match entry {
        Some(record) => record.is_file && !record.is_live && match record.modified {
            Some(modified) => precedes_cutoff(modified, now, days),
            None => false,
        },
        None => false,
    }
}

/// One more removal, counted up to the largest number that fits.
pub open spec fn counted(deleted: u64) -> u64 {
    if deleted < u64::MAX {
        (deleted + 1) as u64
    } else {
        deleted
    }
}

/// The state in which a sweep with this retention period starts.
pub open spec fn initial_state(retention_days: Option<u32>) -> SweepState {
    match retention_days {
        None => SweepState::Finished(SweepOutcome::Disabled),
        Some(days) => SweepState::AwaitDirectory { days },
    }
}

/// The action that a state asks for.
pub open spec fn pending_action(state: SweepState) -> SweepAction {
    match state {
        SweepState::AwaitDirectory { .. } => SweepAction::CheckDirectory,
        SweepState::Scanning { .. } => SweepAction::NextEntry,
        SweepState::Removing { .. } => SweepAction::Remove,
        SweepState::Finished(outcome) => SweepAction::Finish(outcome),
    }
}

/// Whether the current time is read when `event` arrives in `state`: only
/// when the directory turns out to exist.
pub open spec fn reads_clock(state: SweepState, event: SweepEvent) -> bool {
    state is AwaitDirectory && event is DirectoryFound
}

/// The state that follows `state` on `event`; `clock` is the current time,
/// which matters only where `reads_clock` holds. An event that does not
/// answer the pending action leaves the state as it is.
pub open spec fn next_state(state: SweepState, event: SweepEvent, clock: Timestamp) -> SweepState {
    match state {
        SweepState::AwaitDirectory { days } => match event {
            SweepEvent::DirectoryMissing => SweepState::Finished(SweepOutcome::NoDirectory),
            SweepEvent::DirectoryFound => SweepState::Scanning { now: clock, days, deleted: 0 },
            SweepEvent::ListingFailed => SweepState::Finished(SweepOutcome::Failed { deleted: 0 }),
            _ => state,
        },
        SweepState::Scanning { now, days, deleted } => match event {
            SweepEvent::Entry(entry) => if is_stale(entry, now, days) {
                SweepState::Removing { now, days, deleted }
            } else {
                state
            },
            SweepEvent::EndOfListing => SweepState::Finished(SweepOutcome::Completed { deleted }),
            SweepEvent::ListingFailed => SweepState::Finished(SweepOutcome::Failed { deleted }),
            _ => state,
        },
        SweepState::Removing { now, days, deleted } => match event {
            SweepEvent::Removed => SweepState::Scanning { now, days, deleted: counted(deleted) },
            SweepEvent::RemoveFailed => SweepState::Scanning { now, days, deleted },
            _ => state,
        },
        SweepState::Finished(_) => state,
    }
}

/// Reads the clock with `std::time::SystemTime::now` and turns the instant,
/// through chrono's `From<SystemTime>` for `DateTime<Utc>`, into seconds and
/// nanoseconds since the Unix epoch (`DateTime::timestamp`,
/// `DateTime::timestamp_subsec_nanos`). That conversion takes instants
/// before the epoch too, as negative seconds. Nothing is claimed of the
/// value.
#[verifier::external_body]
fn current_time() -> (now: Timestamp) {
    let now: chrono::DateTime<chrono::Utc> = std::time::SystemTime::now().into();
    Timestamp { secs: now.timestamp(), nanos: now.timestamp_subsec_nanos() }
}

/// Whether `modified` is strictly earlier than `days` days before `now`.
pub fn is_before_cutoff(modified: Timestamp, now: Timestamp, days: u32) -> (earlier: bool)
    ensures
        earlier == precedes_cutoff(modified, now, days),
{
    let span: i128 = (days as i128) * 86_400;
    assert(span == days * SECONDS_PER_DAY);
    let cutoff: i128 = (now.secs as i128) - span;
    let at: i128 = modified.secs as i128;
    at < cutoff || (at == cutoff && modified.nanos < now.nanos)
}

/// Whether `file_name` names the log file that the sink is writing to.
pub fn is_live_log(file_name: &str) -> (live: bool)
    ensures
        live == (file_name@ == live_log_name_text()),
{
    let name: String = file_name.to_owned();
    name == live_log_name()
}

/// Whether the entry is to be removed by a sweep that started at `now` and
/// keeps `days` days.
pub fn should_remove(entry: Option<LogFileRecord>, now: Timestamp, days: u32) -> (stale: bool)
    ensures
        stale == is_stale(entry, now, days),
{
    match entry {
        Some(record) => {
            if record.is_file && !record.is_live {
                match record.modified {
                    Some(modified) => is_before_cutoff(modified, now, days),
                    None => false,
                }
            } else {
                false
            }
        },
        None => false,
    }
}

/// Starts a sweep of the log directory that removes files older than
/// `retention_days` days. Without a retention period the sweep is over at
/// once, before anything is looked at.
pub fn delete_old_logs(retention_days: Option<u32>) -> (state: SweepState)
    ensures
        state == initial_state(retention_days),
{
    match retention_days {
        None => SweepState::Finished(SweepOutcome::Disabled),
        Some(days) => SweepState::AwaitDirectory { days },
    }
}

impl SweepState {
    /// What the caller has to do next.
    pub fn action(&self) -> (action: SweepAction)
        ensures
            action == pending_action(*self),
    {
        match self {
            SweepState::AwaitDirectory { .. } => SweepAction::CheckDirectory,
            SweepState::Scanning { .. } => SweepAction::NextEntry,
            SweepState::Removing { .. } => SweepAction::Remove,
            SweepState::Finished(outcome) => SweepAction::Finish(*outcome),
        }
    }

    /// Whether the sweep is over.
    pub fn is_finished(&self) -> (done: bool)
        ensures
            done == (*self is Finished),
    {
        match self {
            SweepState::Finished(_) => true,
            _ => false,
        }
    }

    /// The state after `event`, with `clock` as the current time.
    pub fn advance(self, event: SweepEvent, clock: Timestamp) -> (next: SweepState)
        ensures
            next == next_state(self, event, clock),
    {
        match self {
            SweepState::AwaitDirectory { days } => match event {
                SweepEvent::DirectoryMissing => SweepState::Finished(SweepOutcome::NoDirectory),
                SweepEvent::DirectoryFound => SweepState::Scanning { now: clock, days, deleted: 0 },
                SweepEvent::ListingFailed => SweepState::Finished(
                    SweepOutcome::Failed { deleted: 0 },
                ),
                _ => self,
            },
            SweepState::Scanning { now, days, deleted } => match event {
                SweepEvent::Entry(entry) => {
                    if should_remove(entry, now, days) {
                        SweepState::Removing { now, days, deleted }
                    } else {
                        self
                    }
                },
                SweepEvent::EndOfListing => SweepState::Finished(
                    SweepOutcome::Completed { deleted },
                ),
                SweepEvent::ListingFailed => SweepState::Finished(SweepOutcome::Failed { deleted }),
                _ => self,
            },
            SweepState::Removing { now, days, deleted } => match event {
                SweepEvent::Removed => {
                    let total: u64 = if deleted < u64::MAX {
                        deleted + 1
                    } else {
                        deleted
                    };
                    SweepState::Scanning { now, days, deleted: total }
                },
                SweepEvent::RemoveFailed => SweepState::Scanning { now, days, deleted },
                _ => self,
            },
            SweepState::Finished(_) => self,
        }
    }

    /// The state after `event`. The clock is read when, and only when, the
    /// log directory has just been found; the instant read then is the `now`
    /// of the whole sweep.
    pub fn step(self, event: SweepEvent) -> (next: SweepState)
        ensures
            exists|clock: Timestamp| next == next_state(self, event, clock),
            !reads_clock(self, event) ==> forall|clock: Timestamp|
                next == next_state(self, event, clock),
    {
        let reads: bool = match (&self, &event) {
            (SweepState::AwaitDirectory { .. }, SweepEvent::DirectoryFound) => true,
            _ => false,
        };
        if reads {
            let clock = current_time();
            self.advance(event, clock)
        } else {
            let clock = Timestamp { secs: 0, nanos: 0 };
            let next = self.advance(event, clock);
            assert(forall|other: Timestamp| next == next_state(self, event, other));
            next
        }
    }
}

/// The entries that are still there after a sweep in which every removal
/// succeeded: those that are not stale, in their order.
pub open spec fn survivors(
    entries: Seq<Option<LogFileRecord>>,
    now: Timestamp,
    days: u32,
) -> Seq<Option<LogFileRecord>>
    decreases entries.len(),
{
    if entries.len() == 0 {
        Seq::empty()
    } else if is_stale(entries.last(), now, days) {
        survivors(entries.drop_last(), now, days)
    } else {
        survivors(entries.drop_last(), now, days).push(entries.last())
    }
}

/// The number of stale entries.
pub open spec fn stale_count(entries: Seq<Option<LogFileRecord>>, now: Timestamp, days: u32) -> nat
    decreases entries.len(),
{
    if entries.len() == 0 {
        0
    } else if is_stale(entries.last(), now, days) {
        stale_count(entries.drop_last(), now, days) + 1
    } else {
        stale_count(entries.drop_last(), now, days)
    }
}

/// The state reached from `state` when the entries are reported one after
/// the other and every removal that is asked for succeeds. (The clock plays
/// no part in these steps, so any instant serves as the current time.)
pub open spec fn scan(state: SweepState, entries: Seq<Option<LogFileRecord>>) -> SweepState
    decreases entries.len(),
{
    if entries.len() == 0 {
        state
    } else {
        let clock = Timestamp { secs: 0, nanos: 0 };
        let before = scan(state, entries.drop_last());
        let seen = next_state(before, SweepEvent::Entry(entries.last()), clock);
        if seen is Removing {
            next_state(seen, SweepEvent::Removed, clock)
        } else {
            seen
        }
    }
}

/// A sweep without a retention period is over before it starts: it asks for
/// no look at the log directory, so it ends the same way whether or not the
/// directory exists, and no event makes it remove anything.
pub proof fn disabled_sweep_does_nothing(event: SweepEvent, clock: Timestamp)
    ensures
        initial_state(None) == SweepState::Finished(SweepOutcome::Disabled),
        pending_action(initial_state(None)) == SweepAction::Finish(SweepOutcome::Disabled),
        next_state(initial_state(None), event, clock) == initial_state(None),
{
}

/// A finished sweep stays finished, whatever is reported to it.
pub proof fn finished_sweep_stays_finished(state: SweepState, event: SweepEvent, clock: Timestamp)
    requires
        state is Finished,
    ensures
        next_state(state, event, clock) == state,
{
}

/// A removal is asked for exactly when a stale entry was reported to a
/// scanning sweep: files at or after the cutoff are never touched.
pub proof fn removal_only_of_stale_entries(state: SweepState, event: SweepEvent, clock: Timestamp)
    requires
        !(state is Removing),
    ensures
        next_state(state, event, clock) is Removing <==> (state matches SweepState::Scanning {
            now,
            days,
            ..
        } && event matches SweepEvent::Entry(entry) && is_stale(entry, now, days)),
{
}

/// The log file that the sink is writing to is never removed, however old
/// it is.
pub proof fn live_file_is_never_removed(
    state: SweepState,
    record: LogFileRecord,
    clock: Timestamp,
)
    requires
        record.is_live,
        !(state is Removing),
    ensures
        !(next_state(state, SweepEvent::Entry(Some(record)), clock) is Removing),
{
}

/// A sweep over `entries` in which every removal succeeds removes exactly
/// the stale entries and is ready for the next entry afterwards.
pub proof fn sweep_counts_the_stale(
    entries: Seq<Option<LogFileRecord>>,
    now: Timestamp,
    days: u32,
)
    requires
        stale_count(entries, now, days) <= u64::MAX,
    ensures
        scan(SweepState::Scanning { now, days, deleted: 0 }, entries) == (SweepState::Scanning {
            now,
            days,
            deleted: stale_count(entries, now, days) as u64,
        }),
    decreases entries.len(),
{
    if entries.len() > 0 {
        sweep_counts_the_stale(entries.drop_last(), now, days);
    }
}

/// Sweeping is idempotent: among the entries that a sweep leaves in place
/// none is stale, so a second sweep with the same cutoff leaves the same
/// entries in place and removes nothing.
pub proof fn second_sweep_removes_nothing(
    entries: Seq<Option<LogFileRecord>>,
    now: Timestamp,
    days: u32,
)
    ensures
        stale_count(survivors(entries, now, days), now, days) == 0,
        survivors(survivors(entries, now, days), now, days) == survivors(entries, now, days),
        scan(SweepState::Scanning { now, days, deleted: 0 }, survivors(entries, now, days)) == (
        SweepState::Scanning { now, days, deleted: 0 }),
    decreases entries.len(),
{
    if entries.len() > 0 {
        let rest = entries.drop_last();
        second_sweep_removes_nothing(rest, now, days);
        if !is_stale(entries.last(), now, days) {
            let kept = survivors(rest, now, days);
            assert(kept.push(entries.last()).drop_last() =~= kept);
            assert(kept.push(entries.last()).last() == entries.last());
        }
    }
    sweep_counts_the_stale(survivors(entries, now, days), now, days);
}

} // verus!
