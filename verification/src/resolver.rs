//! Due-schedule resolution: given one minute of local time and the active
//! profile, which sounds are due, after applying per-date overrides and
//! recurrence rules.

use vstd::prelude::*;
use crate::dates::{Date, LocalTime, date_le, day_of_week, spec_date_le, spec_day_of_week};
use crate::model::{RepeatKind, Schedule, ScheduleOverride, Sound};

verus! {

/// The override row that applies to schedule `sid` on `date`, if any: the
/// first row keyed by that pair.  The store keeps at most one.
pub open spec fn override_for(ovs: Seq<ScheduleOverride>, sid: i64, date: Date) -> Option<
    ScheduleOverride,
>
    decreases ovs.len(),
{
    if ovs.len() == 0 {
        None
    } else if ovs[0].schedule_id == sid && ovs[0].original_date == date {
        Some(ovs[0])
    } else {
        override_for(ovs.drop_first(), sid, date)
    }
}

pub fn find_override(overrides: &Vec<ScheduleOverride>, sid: i64, date: &Date) -> (r: Option<
    ScheduleOverride,
>)
    ensures
        r == override_for(overrides@, sid, *date),
{
    let mut i: usize = 0;
    proof {
        assert(overrides@.subrange(0, overrides@.len() as int) =~= overrides@);
    }
    while i < overrides.len()
        invariant
            0 <= i <= overrides@.len(),
            override_for(overrides@, sid, *date) == override_for(
                overrides@.subrange(i as int, overrides@.len() as int),
                sid,
                *date,
            ),
        decreases overrides@.len() - i,
    {
        let o = overrides[i];
        proof {
            assert(overrides@.subrange(i as int, overrides@.len() as int)[0] == overrides@[i as int]);
        }
        if o.schedule_id == sid && o.original_date == *date {
            return Some(o);
        }
        proof {
            assert(overrides@.subrange(i as int, overrides@.len() as int).drop_first()
                =~= overrides@.subrange(i as int + 1, overrides@.len() as int));
        }
        i = i + 1;
    }
    None
}

/// Whether the override in force cancels the schedule for the day.
pub open spec fn cancelled_today(ov: Option<ScheduleOverride>) -> bool {
    match ov {
        Some(o) => o.is_cancelled,
        None => false,
    }
}

/// The minute the schedule fires at on a date: the override's replacement
/// time when one is set, else the schedule's own time.
pub open spec fn spec_effective_time(s: Schedule, ov: Option<ScheduleOverride>) -> u32 {
    match ov {
        Some(o) => match o.new_time {
            Some(t) => t,
            None => s.time,
        },
        None => s.time,
    }
}

pub fn effective_time_of(s: &Schedule, ov: &Option<ScheduleOverride>) -> (r: u32)
    ensures
        r == spec_effective_time(*s, *ov),
{
    match ov {
        Some(o) => match o.new_time {
            Some(t) => t,
            None => s.time,
        },
        None => s.time,
    }
}

/// `today` lies within the schedule's activation window: on or after
/// `start_date`, and on or before `end_date` when one is set (inclusive).
pub open spec fn in_date_range(s: Schedule, today: Date) -> bool {
    &&& spec_date_le(s.start_date, today)
    &&& match s.end_date {
        None => true,
        Some(e) => spec_date_le(today, e),
    }
}

/// Some membership row carries this weekday.
pub open spec fn weekday_member(days: Seq<u8>, dow: int) -> bool {
    exists|i: int| 0 <= i < days.len() && days[i] as int == dow
}

/// The recurrence rule holds on `today`: a one-off fires only on its start
/// date, a daily schedule anywhere in its window, a weekly schedule in its
/// window and only on its member weekdays.
pub open spec fn recurrence_matches(s: Schedule, today: Date) -> bool {
    match s.repeat {
        RepeatKind::Once => s.start_date == today,
        RepeatKind::Daily => in_date_range(s, today),
        RepeatKind::Weekly => in_date_range(s, today) && weekday_member(
            s.days@,
            spec_day_of_week(today),
        ),
    }
}

fn weekday_in(days: &Vec<u8>, dow: u8) -> (r: bool)
    ensures
        r == weekday_member(days@, dow as int),
{
    let mut i: usize = 0;
    while i < days.len()
        invariant
            0 <= i <= days@.len(),
            forall|j: int| 0 <= j < i ==> days@[j] as int != dow as int,
        decreases days@.len() - i,
    {
        if days[i] == dow {
            assert(days@[i as int] as int == dow as int);
            return true;
        }
        i = i + 1;
    }
    false
}

pub fn recurrence_match(s: &Schedule, today: &Date) -> (r: bool)
    requires
        today.wf(),
    ensures
        r == recurrence_matches(*s, *today),
{
    let in_range: bool = if !date_le(&s.start_date, today) {
        false
    } else {
        match &s.end_date {
            None => true,
            Some(e) => date_le(today, e),
        }
    };
    match s.repeat {
        RepeatKind::Once => s.start_date == *today,
        RepeatKind::Daily => in_range,
        RepeatKind::Weekly => {
            if !in_range {
                false
            } else {
                let dow: u8 = day_of_week(today);
                weekday_in(&s.days, dow)
            }
        },
    }
}

/// The schedule is due: active, not cancelled for the day, its effective
/// time is this very minute, and its recurrence rule holds.
pub open spec fn schedule_due(
    s: Schedule,
    ov: Option<ScheduleOverride>,
    today: Date,
    minutes: u32,
) -> bool {
    &&& s.is_active
    &&& !cancelled_today(ov)
    &&& spec_effective_time(s, ov) == minutes
    &&& recurrence_matches(s, today)
}

pub fn schedule_is_due(
    s: &Schedule,
    ov: &Option<ScheduleOverride>,
    today: &Date,
    minutes: u32,
) -> (r: bool)
    requires
        today.wf(),
    ensures
        r == schedule_due(*s, *ov, *today, minutes),
{
    if !s.is_active {
        return false;
    }
    let is_cancelled: bool = match ov {
        Some(o) => o.is_cancelled,
        None => false,
    };
    if is_cancelled {
        return false;
    }
    if effective_time_of(s, ov) != minutes {
        return false;
    }
    recurrence_match(s, today)
}

/// The file name of the sound with this id: the first row that carries it,
/// if any.
pub open spec fn sound_file_for(sounds: Seq<Sound>, id: i64) -> Option<Seq<char>>
    decreases sounds.len(),
{
    if sounds.len() == 0 {
        None
    } else if sounds[0].id == id {
        Some(sounds[0].file_name@)
    } else {
        sound_file_for(sounds.drop_first(), id)
    }
}

pub fn lookup_sound(sounds: &Vec<Sound>, id: i64) -> (r: Option<String>)
    ensures
        r.deep_view() == sound_file_for(sounds@, id),
{
    let mut i: usize = 0;
    proof {
        assert(sounds@.subrange(0, sounds@.len() as int) =~= sounds@);
    }
    while i < sounds.len()
        invariant
            0 <= i <= sounds@.len(),
            sound_file_for(sounds@, id) == sound_file_for(
                sounds@.subrange(i as int, sounds@.len() as int),
                id,
            ),
        decreases sounds@.len() - i,
    {
        proof {
            assert(sounds@.subrange(i as int, sounds@.len() as int)[0] == sounds@[i as int]);
        }
        if sounds[i].id == id {
            let f = sounds[i].file_name.clone();
            return Some(f);
        }
        proof {
            assert(sounds@.subrange(i as int, sounds@.len() as int).drop_first()
                =~= sounds@.subrange(i as int + 1, sounds@.len() as int));
        }
        i = i + 1;
    }
    None
}

/// The file the schedule plays on a date: the override's replacement sound
/// where one is set and names a stored sound, else the schedule's own sound.
/// `None` signals "play the default".
pub open spec fn effective_file(
    sounds: Seq<Sound>,
    s: Schedule,
    ov: Option<ScheduleOverride>,
) -> Option<Seq<char>> {
    let from_override = match ov {
        Some(o) => match o.new_sound_id {
            Some(i) => sound_file_for(sounds, i),
            None => None,
        },
        None => None,
    };
    match from_override {
        Some(f) => Some(f),
        None => match s.sound_id {
            Some(i) => sound_file_for(sounds, i),
            None => None,
        },
    }
}

pub fn effective_sound(sounds: &Vec<Sound>, s: &Schedule, ov: &Option<ScheduleOverride>) -> (r:
    Option<String>)
    ensures
        r.deep_view() == effective_file(sounds@, *s, *ov),
{
    let from_override: Option<String> = match ov {
        Some(o) => match o.new_sound_id {
            Some(i) => lookup_sound(sounds, i),
            None => None,
        },
        None => None,
    };
    match from_override {
        Some(f) => Some(f),
        None => match s.sound_id {
            Some(i) => lookup_sound(sounds, i),
            None => None,
        },
    }
}

/// Everything due this minute, in storage order: one entry per due schedule
/// of the profile, each the effective file name or the default signal.
pub open spec fn due_list(
    schedules: Seq<Schedule>,
    overrides: Seq<ScheduleOverride>,
    sounds: Seq<Sound>,
    today: Date,
    minutes: u32,
    profile_id: i64,
) -> Seq<Option<Seq<char>>>
    decreases schedules.len(),
{
    if schedules.len() == 0 {
        Seq::empty()
    } else {
        let s = schedules[0];
        let ov = override_for(overrides, s.id, today);
        let rest = due_list(schedules.drop_first(), overrides, sounds, today, minutes, profile_id);
        if s.profile_id == profile_id && schedule_due(s, ov, today, minutes) {
            seq![effective_file(sounds, s, ov)] + rest
        } else {
            rest
        }
    }
}

proof fn lemma_due_list_push(
    schedules: Seq<Schedule>,
    s: Schedule,
    overrides: Seq<ScheduleOverride>,
    sounds: Seq<Sound>,
    today: Date,
    minutes: u32,
    profile_id: i64,
)
    ensures
        due_list(schedules.push(s), overrides, sounds, today, minutes, profile_id) == due_list(
            schedules,
            overrides,
            sounds,
            today,
            minutes,
            profile_id,
        ) + (if s.profile_id == profile_id && schedule_due(
            s,
            override_for(overrides, s.id, today),
            today,
            minutes,
        ) {
            seq![effective_file(sounds, s, override_for(overrides, s.id, today))]
        } else {
            Seq::empty()
        }),
    decreases schedules.len(),
{
    let tail = (if s.profile_id == profile_id && schedule_due(
        s,
        override_for(overrides, s.id, today),
        today,
        minutes,
    ) {
        seq![effective_file(sounds, s, override_for(overrides, s.id, today))]
    } else {
        Seq::<Option<Seq<char>>>::empty()
    });
    if schedules.len() == 0 {
        reveal_with_fuel(due_list, 2);
        assert(schedules.push(s)[0] == s);
        assert(schedules.push(s).drop_first() =~= Seq::<Schedule>::empty());
        assert(due_list(schedules.push(s), overrides, sounds, today, minutes, profile_id) =~= due_list(
            schedules,
            overrides,
            sounds,
            today,
            minutes,
            profile_id,
        ) + tail);
    } else {
        lemma_due_list_push(schedules.drop_first(), s, overrides, sounds, today, minutes, profile_id);
        assert(schedules.push(s)[0] == schedules[0]);
        assert(schedules.push(s).drop_first() =~= schedules.drop_first().push(s));
        assert(due_list(schedules.push(s), overrides, sounds, today, minutes, profile_id) =~= due_list(
            schedules,
            overrides,
            sounds,
            today,
            minutes,
            profile_id,
        ) + tail);
    }
}

/// Resolve one minute: every due sound of the profile, in storage order.
pub fn due_sounds(
    schedules: &Vec<Schedule>,
    overrides: &Vec<ScheduleOverride>,
    sounds: &Vec<Sound>,
    now: &LocalTime,
    profile_id: i64,
) -> (r: Vec<Option<String>>)
    requires
        now.wf(),
    ensures
        r.deep_view() == due_list(
            schedules@,
            overrides@,
            sounds@,
            now.date,
            now.spec_minutes(),
            profile_id,
        ),
{
    let today: Date = now.date;
    let minutes: u32 = now.minutes_of_day();
    let mut out: Vec<Option<String>> = Vec::new();
    let mut i: usize = 0;
    proof {
        assert(out.deep_view() =~= due_list(
            schedules@.subrange(0, 0),
            overrides@,
            sounds@,
            today,
            minutes,
            profile_id,
        ));
    }
    while i < schedules.len()
        invariant
            0 <= i <= schedules@.len(),
            now.wf(),
            today == now.date,
            minutes == now.spec_minutes(),
            out.deep_view() == due_list(
                schedules@.subrange(0, i as int),
                overrides@,
                sounds@,
                today,
                minutes,
                profile_id,
            ),
        decreases schedules@.len() - i,
    {
        let s = &schedules[i];
        let ov = find_override(overrides, s.id, &today);
        let ghost prev = out.deep_view();
        if s.profile_id == profile_id && schedule_is_due(s, &ov, &today, minutes) {
            let f = effective_sound(sounds, s, &ov);
            let ghost fv = f.deep_view();
            out.push(f);
            proof {
                assert(out.deep_view() =~= prev.push(fv));
            }
        }
        proof {
            lemma_due_list_push(
                schedules@.subrange(0, i as int),
                schedules@[i as int],
                overrides@,
                sounds@,
                today,
                minutes,
                profile_id,
            );
            assert(schedules@.subrange(0, i as int + 1) =~= schedules@.subrange(0, i as int).push(
                schedules@[i as int],
            ));
            assert(out.deep_view() =~= due_list(
                schedules@.subrange(0, i as int + 1),
                overrides@,
                sounds@,
                today,
                minutes,
                profile_id,
            ));
        }
        i = i + 1;
    }
    proof {
        assert(schedules@.subrange(0, schedules@.len() as int) =~= schedules@);
    }
    out
}

/// Resolution contributes at most one entry per schedule row: a schedule is
/// never due twice in the same minute.
pub proof fn lemma_one_entry_per_schedule(
    schedules: Seq<Schedule>,
    overrides: Seq<ScheduleOverride>,
    sounds: Seq<Sound>,
    today: Date,
    minutes: u32,
    profile_id: i64,
)
    ensures
        due_list(schedules, overrides, sounds, today, minutes, profile_id).len()
            <= schedules.len(),
    decreases schedules.len(),
{
    if schedules.len() > 0 {
        lemma_one_entry_per_schedule(
            schedules.drop_first(),
            overrides,
            sounds,
            today,
            minutes,
            profile_id,
        );
    }
}

/// A cancelling override excludes its schedule for the day, whatever the
/// schedule's time or recurrence would say.
pub proof fn lemma_cancelled_excludes(s: Schedule, o: ScheduleOverride, today: Date, minutes: u32)
    requires
        o.is_cancelled,
    ensures
        !schedule_due(s, Some(o), today, minutes),
{
}

/// A one-off schedule is due only on its start date, and only at its
/// effective time; on any other date it is never due.
pub proof fn lemma_once_due_conditions(
    s: Schedule,
    ov: Option<ScheduleOverride>,
    today: Date,
    minutes: u32,
)
    requires
        s.repeat == RepeatKind::Once,
        schedule_due(s, ov, today, minutes),
    ensures
        s.start_date == today,
        spec_effective_time(s, ov) == minutes,
{
}

/// A weekly schedule is due only inside its activation window and only on a
/// date whose weekday is one of its memberships.
pub proof fn lemma_weekly_due_conditions(
    s: Schedule,
    ov: Option<ScheduleOverride>,
    today: Date,
    minutes: u32,
)
    requires
        s.repeat == RepeatKind::Weekly,
        schedule_due(s, ov, today, minutes),
    ensures
        in_date_range(s, today),
        weekday_member(s.days@, spec_day_of_week(today)),
{
}

/// An override's replacement time strictly takes precedence over the
/// schedule's own time.
pub proof fn lemma_override_time_precedence(s: Schedule, o: ScheduleOverride, t: u32)
    requires
        o.new_time == Some(t),
    ensures
        spec_effective_time(s, Some(o)) == t,
{
}

/// An override's replacement sound strictly takes precedence over the
/// schedule's own sound whenever it names a stored sound.
pub proof fn lemma_override_sound_precedence(
    sounds: Seq<Sound>,
    s: Schedule,
    o: ScheduleOverride,
    id: i64,
)
    requires
        o.new_sound_id == Some(id),
        sound_file_for(sounds, id) is Some,
    ensures
        effective_file(sounds, s, Some(o)) == sound_file_for(sounds, id),
{
}

/// A schedule with neither its own sound nor a replacement one resolves to
/// the default signal, not to an error.
pub proof fn lemma_no_sound_is_default(
    sounds: Seq<Sound>,
    s: Schedule,
    ov: Option<ScheduleOverride>,
)
    requires
        s.sound_id is None,
        ov matches Some(o) ==> o.new_sound_id is None,
    ensures
        effective_file(sounds, s, ov) is None,
{
}

} // verus!
