//! The scheduler loop's state and per-tick decisions: per-minute dedupe and
//! modification-time-gated config refresh.  The host performs the timer, the
//! file probe and the storage query, and feeds the observations in here.

use vstd::prelude::*;
use crate::config::{parsed_settings, settings_of_text};
use crate::dates::{Date, LocalTime};
use crate::model::AppSettings;

verus! {

/// The per-minute dedupe key: a full calendar date with the minute of day,
/// so an hour or day rollover never collides with a stale key.
#[derive(Clone, Copy, Debug, PartialEq, Eq, Structural)]
pub struct MinuteKey {
    pub date: Date,
    pub minutes: u32,
}

impl MinuteKey {
    pub fn of(now: &LocalTime) -> (r: MinuteKey)
        requires
            now.wf(),
        ensures
            r.date == now.date,
            r.minutes == now.spec_minutes(),
    {
        MinuteKey { date: now.date, minutes: now.minutes_of_day() }
    }
}

/// Everything mutable the scheduler owns: the last minute it evaluated, the
/// settings file's modification time as of the last successful read, and
/// the settings read then.  Owned exclusively by the loop; never shared.
pub struct SchedulerContext {
    pub last_processed: Option<MinuteKey>,
    pub last_config_mtime: Option<i64>,
    pub settings: Option<AppSettings>,
}

impl SchedulerContext {
    pub fn new() -> (r: SchedulerContext)
        ensures
            r.last_processed is None,
            r.last_config_mtime is None,
            r.settings is None,
    {
        SchedulerContext { last_processed: None, last_config_mtime: None, settings: None }
    }

    /// The minute is not the one already processed.
    pub open spec fn spec_should_evaluate(self, key: MinuteKey) -> bool {
        self.last_processed != Some(key)
    }

    pub fn should_evaluate(&self, key: &MinuteKey) -> (r: bool)
        ensures
            r == self.spec_should_evaluate(*key),
    {
        match self.last_processed {
            Some(k) => !(k == *key),
            None => true,
        }
    }

    /// Record that this minute has been evaluated, whether or not anything
    /// was due; nothing else changes.
    pub fn note_evaluated(&mut self, key: &MinuteKey)
        ensures
            final(self).last_processed == Some(*key),
            final(self).last_config_mtime == old(self).last_config_mtime,
            final(self).settings == old(self).settings,
    {
        self.last_processed = Some(*key);
    }

    /// The settings file should be re-read: it exists and its modification
    /// time differs from the one of the last successful read.  A missing
    /// file is no change.
    pub open spec fn spec_should_reparse(self, observed_mtime: Option<i64>) -> bool {
        match observed_mtime {
            None => false,
            Some(m) => self.last_config_mtime != Some(m),
        }
    }

    pub fn should_reparse(&self, observed_mtime: Option<i64>) -> (r: bool)
        ensures
            r == self.spec_should_reparse(observed_mtime),
    {
        match observed_mtime {
            None => false,
            Some(m) => match self.last_config_mtime {
                Some(prev) => prev != m,
                None => true,
            },
        }
    }

    /// Fold the outcome of a config read into the state.  A failed read
    /// (`content` absent) or a failed parse changes nothing, so the stale
    /// settings stay in effect and the modification time is not advanced —
    /// the next change is retried.  A successful parse caches the new
    /// settings, advances the modification cursor, and returns them.
    pub fn apply_config_read(&mut self, observed_mtime: i64, content: Option<&str>) -> (r: Option<
        AppSettings,
    >)
        ensures
            match content {
                None => r is None && *final(self) == *old(self),
                Some(text) => match parsed_settings(text@) {
                    None => r is None && *final(self) == *old(self),
                    Some(p) => {
                        &&& (r matches Some(st) && st.active_profile == p)
                        &&& (final(self).settings matches Some(st) && st.active_profile == p)
                        &&& final(self).last_config_mtime == Some(observed_mtime)
                        &&& final(self).last_processed == old(self).last_processed
                    },
                },
            },
    {
        match content {
            None => None,
            Some(text) => match settings_of_text(text) {
                Some(st) => {
                    self.settings = Some(st);
                    self.last_config_mtime = Some(observed_mtime);
                    Some(st)
                },
                None => None,
            },
        }
    }

    /// The profile whose schedules this tick evaluates, if any is known.
    pub open spec fn spec_active_profile(self) -> Option<i64> {
        match self.settings {
            Some(st) => st.active_profile,
            None => None,
        }
    }

    pub fn active_profile(&self) -> (r: Option<i64>)
        ensures
            r == self.spec_active_profile(),
    {
        match &self.settings {
            Some(st) => st.active_profile,
            None => None,
        }
    }
}

/// Config refresh is idempotent: after a successful read at some
/// modification time, a second probe at that same modification time asks
/// for no re-parse, so the second refresh is a no-op.
pub proof fn lemma_refresh_idempotent(ctx: SchedulerContext, mtime: i64)
    requires
        ctx.last_config_mtime == Some(mtime),
    ensures
        !ctx.spec_should_reparse(Some(mtime)),
{
}

/// Minute dedupe: once a minute is recorded as processed, a tick within the
/// same minute is never evaluated again.
pub proof fn lemma_minute_dedupe(ctx: SchedulerContext, key: MinuteKey)
    requires
        ctx.last_processed == Some(key),
    ensures
        !ctx.spec_should_evaluate(key),
{
}

} // verus!
