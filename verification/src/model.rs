//! The typed task snapshot.
//!
//! Dates are held as day numbers of the proleptic Gregorian calendar, with
//! January 1 of year 1 as day 1, which is what ordering and day differences
//! read. Every day lies in the range of days that a calendar date can have.

use vstd::prelude::*;

verus! {

/// The day number of the earliest calendar date.
pub const FIRST_DAY: i32 = -95746129i32;

/// The day number of the latest calendar date.
pub const LAST_DAY: i32 = 95745399i32;

/// A calendar day, as its day number: January 1 of year 1 is day 1.
#[derive(Clone, Copy, Debug, PartialEq, Eq, Hash, Structural)]
pub struct Date {
    days_from_ce: i32,
}

impl Date {
    /// The day number of this day.
    pub closed spec fn day_number(self) -> int {
        self.days_from_ce as int
    }

    /// Every day lies between the first and the last calendar date.
    #[verifier::type_invariant]
    pub closed spec fn in_calendar(self) -> bool {
        FIRST_DAY <= self.days_from_ce <= LAST_DAY
    }

    /// The day with the given day number, if a calendar date has it.
    pub fn from_days_from_ce(days_from_ce: i32) -> (r: Option<Date>)
        ensures
            r is Some <==> FIRST_DAY <= days_from_ce <= LAST_DAY,
            r matches Some(d) ==> d.day_number() == days_from_ce,
    {
        if FIRST_DAY <= days_from_ce && days_from_ce <= LAST_DAY {
            Some(Date { days_from_ce })
        } else {
            None
        }
    }

    /// The day number of this day.
    pub fn days_from_ce(&self) -> (r: i32)
        ensures
            r == self.day_number(),
            FIRST_DAY <= r <= LAST_DAY,
    {
        proof {
            use_type_invariant(self);
        }
        self.days_from_ce
    }

    /// The number of days from `earlier` to `self` (negative when `earlier`
    /// comes later).
    pub fn days_since(&self, earlier: &Date) -> (r: i64)
        ensures
            r == self.day_number() - earlier.day_number(),
    {
        self.days_from_ce as i64 - earlier.days_from_ce as i64
    }
}

#[derive(Clone, Copy, Debug, PartialEq, Eq, Hash, Structural)]
pub enum TaskStatus {
    Todo,
    Done,
}

#[derive(Clone, Copy, Debug, PartialEq, Eq, Hash, Structural)]
pub enum DailyStatus {
    Active,
    Later,
}


/// A value of a decision setting, as the snapshot file wrote it.
#[derive(Clone, Debug, PartialEq, Eq)]
pub enum SettingValue {
    Bool(bool),
    /// A number, in its canonical textual form.
    Number(String),
    Text(String),
    /// Any other value (null, list, mapping, tagged), in its diagnostic form.
    Other(String),
}

/// One named setting of a decision.
#[derive(Clone, Debug, PartialEq, Eq)]
pub struct Setting {
    pub key: String,
    pub value: SettingValue,
}

#[derive(Clone, Debug, PartialEq, Eq)]
pub struct Snapshot {
    pub schema_version: u32,
    pub captured_on: Date,
    pub source_files: Vec<String>,
    pub ingestion_rules: Vec<String>,
    pub tasks: Tasks,
    pub dailies: Dailies,
    pub session_state: SessionState,
    pub decisions: Vec<Decision>,
}

#[derive(Clone, Debug, PartialEq, Eq)]
pub struct Tasks {
    pub p1: Vec<P1Task>,
    pub p2: Vec<P2Task>,
    pub p3: Vec<P3Task>,
}

#[derive(Clone, Debug, PartialEq, Eq)]
pub struct Dailies {
    pub active: Vec<DailyTask>,
    pub later: Vec<DailyTask>,
}

#[derive(Clone, Debug, PartialEq, Eq)]
pub struct SessionState {
    pub active_work: Vec<String>,
    pub blocked: Vec<String>,
    pub daily_logs: Vec<DailyLog>,
}

#[derive(Clone, Debug, PartialEq, Eq)]
pub struct DailyLog {
    pub date: Date,
    pub done: Vec<String>,
    pub in_progress: Vec<String>,
    pub blocked: Vec<String>,
    pub tomorrow: Vec<String>,
}

#[derive(Clone, Debug, PartialEq, Eq)]
pub struct Decision {
    pub id: String,
    pub date: Date,
    pub title: String,
    /// One setting per key, in key order (see
    /// [`crate::settings::settings_in_key_order`]).
    pub settings: Vec<Setting>,
    pub summary: Vec<String>,
    pub startup_flow_notes: Vec<String>,
}

#[derive(Clone, Debug, PartialEq, Eq)]
pub struct P1Task {
    pub id: String,
    pub rank: u32,
    pub status: TaskStatus,
    pub title: String,
    pub raw_text: String,
    pub links: Vec<String>,
    pub notes: Vec<String>,
    pub completed_at: Option<Date>,
    pub estimate_minutes_min: Option<u32>,
    pub estimate_minutes_max: Option<u32>,
}

#[derive(Clone, Debug, PartialEq, Eq)]
pub struct P2Task {
    pub id: String,
    pub source_order: u32,
    pub status: TaskStatus,
    pub title: String,
    pub raw_text: String,
    pub links: Vec<String>,
    pub notes: Vec<String>,
    pub completed_at: Option<Date>,
    pub estimate_minutes_min: Option<u32>,
    pub estimate_minutes_max: Option<u32>,
}

#[derive(Clone, Debug, PartialEq, Eq)]
pub struct P3Task {
    pub id: String,
    pub source_order: u32,
    pub status: TaskStatus,
    pub title: String,
    pub raw_text: String,
    pub links: Vec<String>,
    pub notes: Vec<String>,
    pub completed_at: Option<Date>,
    pub estimate_minutes_min: Option<u32>,
    pub estimate_minutes_max: Option<u32>,
}

#[derive(Clone, Debug, PartialEq, Eq)]
pub struct DailyTask {
    pub id: String,
    pub status: DailyStatus,
    pub title: String,
    pub raw_text: String,
    pub links: Vec<String>,
    pub notes: Vec<String>,
    pub hit_dates: Vec<Date>,
}

} // verus!
