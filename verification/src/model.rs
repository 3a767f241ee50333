//! The schedule store's rows, as plain values.  The host reads them from
//! storage and hands them to the resolver unchanged; this library never
//! mutates them.

use vstd::prelude::*;
use crate::dates::Date;

verus! {

/// How a schedule recurs.
#[derive(Clone, Copy, Debug, PartialEq, Eq, Structural)]
pub enum RepeatKind {
    Once,
    Daily,
    Weekly,
}

/// One row of the schedule table, together with its day-of-week memberships
/// (meaningful for weekly schedules; ISO numbering, Monday = 1 .. Sunday = 7).
/// `sound_id` of `None` means "play the default sound".
#[derive(Clone, Debug)]
pub struct Schedule {
    pub id: i64,
    pub profile_id: i64,
    pub sound_id: Option<i64>,
    pub time: u32,
    pub repeat: RepeatKind,
    pub start_date: Date,
    pub end_date: Option<Date>,
    pub is_active: bool,
    pub days: Vec<u8>,
}

/// A per-date exception to one schedule: at most one per
/// `(schedule_id, original_date)`.  A stored null cancellation flag reads as
/// `false`.
#[derive(Clone, Copy, Debug)]
pub struct ScheduleOverride {
    pub schedule_id: i64,
    pub original_date: Date,
    pub is_cancelled: bool,
    pub new_time: Option<u32>,
    pub new_sound_id: Option<i64>,
}

/// One row of the sound table: a named audio asset.
#[derive(Clone, Debug)]
pub struct Sound {
    pub id: i64,
    pub file_name: String,
}

/// The settings document's content: which profile's schedules are evaluated,
/// if any.
#[derive(Clone, Copy, Debug)]
pub struct AppSettings {
    pub active_profile: Option<i64>,
}

} // verus!
