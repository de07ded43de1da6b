//! What the screens say: the rows of each list and the lines of the detail
//! panel, as styled pieces of text. Dates are written as chrono writes a
//! calendar date; each builder that shows a date also has a form that takes
//! the date already written out.

use vstd::prelude::*;

use crate::controller::{Controller, DailyBucket, DailyEntry, Screen, Selected, SelectedView};
use crate::settings::settings_in_key_order;
use crate::model::{Date, Decision, FIRST_DAY, LAST_DAY, P1Task, P2Task, P3Task, SettingValue, TaskStatus};

verus! {

/// How a piece of text is drawn.
#[derive(Clone, Copy, Debug, PartialEq, Eq, Structural)]
pub enum SpanStyle {
    /// No style of its own.
    Raw,
    /// The rank badge or bullet of a task.
    TaskAccent(TaskStatus),
    /// The title of a task in a list.
    TaskTitle(TaskStatus),
    /// The status label of a task in a list.
    TaskStatusLabel(TaskStatus),
    /// The bucket tag of a daily topic.
    BucketTag,
    /// Ordinary list text.
    Text,
    /// The last hit of a daily topic.
    LastHit,
    /// The staleness mark of a daily topic (stale or fresh).
    Staleness(bool),
    /// The date of a decision in a list.
    DecisionDate,
    /// The first line of the detail panel.
    DetailTitle,
    /// A section heading in the detail panel.
    SectionHeading,
    /// The application name in the header.
    AppName,
    /// The source path in the header.
    SourcePath,
    /// The capture date in the header.
    CapturedOn,
    /// The status message in the header.
    StatusMessage(crate::ui::Tone),
}

/// A piece of styled text.
#[derive(Clone, Debug, PartialEq, Eq)]
pub struct Span {
    pub text: String,
    pub style: SpanStyle,
}

impl View for Span {
    type V = (Seq<char>, SpanStyle);

    open spec fn view(&self) -> (Seq<char>, SpanStyle) {
        (self.text@, self.style)
    }
}

/// The date (year, month, day) of the proleptic Gregorian calendar that has
/// day number `n`, January 1 of year 1 being day 1. Days are counted from
/// March 1 of year 0 in 400-year cycles of 146097 days, years starting in
/// March so that the leap day ends a year.
pub open spec fn calendar_date(n: int) -> (int, int, int) {
    let z = n + 305;
    let era = z / 146097;
    let doe = z % 146097;
    let yoe = (doe - doe / 1460 + doe / 36524 - doe / 146096) / 365;
    let doy = doe - (365 * yoe + yoe / 4 - yoe / 100);
    let mp = (5 * doy + 2) / 153;
    let day = doy - (153 * mp + 2) / 5 + 1;
    let month = if mp < 10 {
        mp + 3
    } else {
        mp - 9
    };
    let year = era * 400 + yoe + if month <= 2 {
        1int
    } else {
        0int
    };
    (year, month, day)
}

/// `s` preceded by zeros up to `width` characters.
pub open spec fn zero_padded(s: Seq<char>, width: nat) -> Seq<char> {
    if s.len() >= width {
        s
    } else {
        Seq::new((width - s.len()) as nat, |i: int| '0') + s
    }
}

/// A year as ISO 8601 writes it: four digits from 0 to 9999, else a sign
/// and at least four digits.
pub open spec fn year_text(year: int) -> Seq<char> {
    if 0 <= year <= 9999 {
        zero_padded(decimal_text(year as nat), 4)
    } else if year < 0 {
        "-"@ + zero_padded(decimal_text((-year) as nat), 4)
    } else {
        "+"@ + zero_padded(decimal_text(year as nat), 4)
    }
}

/// The text of the day with day number `n`: `YYYY-MM-DD`, the year written
/// by [`year_text`], month and day in two digits.
pub open spec fn date_text_of(n: int) -> Seq<char> {
    let (year, month, day) = calendar_date(n);
    year_text(year) + "-"@ + zero_padded(decimal_text(month as nat), 2) + "-"@ + zero_padded(
        decimal_text(day as nat),
        2,
    )
}

/// The day with day number `days_from_ce`, written as chrono writes a
/// `NaiveDate` (`NaiveDate::from_num_days_from_ce_opt`, then `to_string`).
/// The day is in chrono's range, so the date exists; chrono documents its
/// text as `%Y-%m-%d` of the proleptic Gregorian date, with a sign on years
/// outside 0 to 9999, which is [`date_text_of`].
#[verifier::external_body]
fn date_text(days_from_ce: i32) -> (r: String)
    requires
        FIRST_DAY <= days_from_ce <= LAST_DAY,
    ensures
        r@ == date_text_of(days_from_ce as int),
{
    chrono::NaiveDate::from_num_days_from_ce_opt(days_from_ce).unwrap().to_string()
}

/// The text of a day.
pub open spec fn day_text(date: Date) -> Seq<char> {
    date_text_of(date.day_number())
}

/// The text of an optional day.
pub open spec fn day_text_opt(date: Option<Date>) -> Option<Seq<char>> {
    match date {
        Some(d) => Some(day_text(d)),
        None => None,
    }
}

/// The string slice of an optional string.
fn opt_str(s: &Option<String>) -> (r: Option<&str>)
    ensures
        str_opt_view(r) == string_opt(*s),
{
    match s {
        Some(t) => Some(t.as_str()),
        None => None,
    }
}

/// The text of an optional day.
fn written_date(date: Option<Date>) -> (r: Option<String>)
    ensures
        string_opt(r) == day_text_opt(date),
{
    match date {
        Some(d) => Some(date_text(d.days_from_ce())),
        None => None,
    }
}

/// The views of a sequence of spans.
pub open spec fn spans_view(spans: Seq<Span>) -> Seq<(Seq<char>, SpanStyle)> {
    spans.map_values(|s: Span| s@)
}

// ---------------------------------------------------------------------------
// Numbers and padding.
// ---------------------------------------------------------------------------
/// The decimal digit `d`.
pub open spec fn digit_text(d: nat) -> Seq<char> {
    if d == 0 {
        "0"@
    } else if d == 1 {
        "1"@
    } else if d == 2 {
        "2"@
    } else if d == 3 {
        "3"@
    } else if d == 4 {
        "4"@
    } else if d == 5 {
        "5"@
    } else if d == 6 {
        "6"@
    } else if d == 7 {
        "7"@
    } else if d == 8 {
        "8"@
    } else {
        "9"@
    }
}

/// `n` in decimal, without leading zeros.
pub open spec fn decimal_text(n: nat) -> Seq<char>
    decreases n,
{
    if n < 10 {
        digit_text(n)
    } else {
        decimal_text(n / 10) + digit_text(n % 10)
    }
}

fn digit(d: u32) -> (r: &'static str)
    requires
        d < 10,
    ensures
        r@ == digit_text(d as nat),
{
    if d == 0 {
        "0"
    } else if d == 1 {
        "1"
    } else if d == 2 {
        "2"
    } else if d == 3 {
        "3"
    } else if d == 4 {
        "4"
    } else if d == 5 {
        "5"
    } else if d == 6 {
        "6"
    } else if d == 7 {
        "7"
    } else if d == 8 {
        "8"
    } else {
        "9"
    }
}

/// `n` written in decimal.
pub fn decimal(n: u32) -> (r: String)
    ensures
        r@ == decimal_text(n as nat),
    decreases n,
{
    if n < 10 {
        String::from_str(digit(n))
    } else {
        let mut s = decimal(n / 10);
        s.append(digit(n % 10));
        s
    }
}

/// `n` spaces.
pub open spec fn spaces(n: nat) -> Seq<char> {
    Seq::new(n, |i: int| ' ')
}

/// `s` right-aligned in a field of `width` characters.
pub open spec fn pad_left(s: Seq<char>, width: nat) -> Seq<char> {
    if s.len() >= width {
        s
    } else {
        spaces((width - s.len()) as nat) + s
    }
}

fn padded_left(s: &str, width: usize) -> (r: String)
    ensures
        r@ == pad_left(s@, width as nat),
{
    let len = s.unicode_len();
    let mut r = String::new();
    if len < width {
        let mut i: usize = 0;
        while i < width - len
            invariant
                len < width,
                i <= width - len,
                r@ == spaces(i as nat),
            decreases width - len - i,
        {
            r.append(" ");
            proof {
                reveal_strlit(" ");
                assert(spaces(i as nat) + " "@ =~= spaces((i + 1) as nat));
            }
            i += 1;
        }
    }
    r.append(s);
    proof {
        if len >= width {
            assert(r@ =~= s@);
        }
    }
    r
}

fn span(text: String, style: SpanStyle) -> (r: Span)
    ensures
        r@ == (text@, style),
{
    Span { text, style }
}

fn span_str(text: &str, style: SpanStyle) -> (r: Span)
    ensures
        r@ == (text@, style),
{
    Span { text: String::from_str(text), style }
}

/// `prefix` followed by `rest`.
fn joined(prefix: &str, rest: &str) -> (r: String)
    ensures
        r@ == prefix@ + rest@,
{
    let mut s = String::from_str(prefix);
    s.append(rest);
    s
}

// ---------------------------------------------------------------------------
// List rows.
// ---------------------------------------------------------------------------
/// The label of a task status.
pub open spec fn status_text(status: TaskStatus) -> Seq<char> {
    match status {
        TaskStatus::Todo => "todo"@,
        TaskStatus::Done => "done"@,
    }
}

/// The rank badge of a P1 task: `#rank` right-aligned in four characters,
/// then a space.
pub open spec fn rank_badge(rank: nat) -> Seq<char> {
    pad_left("#"@ + decimal_text(rank), 4) + " "@
}

/// The row of a P1 task (top-three and P1 screens).
pub open spec fn p1_row_spec(task: P1Task) -> Seq<(Seq<char>, SpanStyle)> {
    seq![
        (rank_badge(task.rank as nat), SpanStyle::TaskAccent(task.status)),
        (task.title@, SpanStyle::TaskTitle(task.status)),
        (" "@, SpanStyle::Raw),
        (status_text(task.status), SpanStyle::TaskStatusLabel(task.status)),
    ]
}

/// The row of a P1 task.
pub fn p1_row(task: &P1Task) -> (r: Vec<Span>)
    ensures
        spans_view(r@) == p1_row_spec(*task),
{
    let badge = joined("#", decimal(task.rank).as_str());
    let mut badge = padded_left(badge.as_str(), 4);
    badge.append(" ");
    let mut r: Vec<Span> = Vec::new();
    r.push(span(badge, SpanStyle::TaskAccent(task.status)));
    r.push(span(task.title.clone(), SpanStyle::TaskTitle(task.status)));
    r.push(span_str(" ", SpanStyle::Raw));
    r.push(span_str(crate::ui::label_for_task_status(&task.status), SpanStyle::TaskStatusLabel(task.status)));
    assert(spans_view(r@) =~= p1_row_spec(*task));
    r
}

/// The row of a P2 task.
pub open spec fn p2_row_spec(task: P2Task) -> Seq<(Seq<char>, SpanStyle)> {
    seq![
        ("* "@, SpanStyle::TaskAccent(task.status)),
        (task.title@, SpanStyle::TaskTitle(task.status)),
    ]
}

/// The row of a P2 task.
pub fn p2_row(task: &P2Task) -> (r: Vec<Span>)
    ensures
        spans_view(r@) == p2_row_spec(*task),
{
    let mut r: Vec<Span> = Vec::new();
    r.push(span_str("* ", SpanStyle::TaskAccent(task.status)));
    r.push(span(task.title.clone(), SpanStyle::TaskTitle(task.status)));
    assert(spans_view(r@) =~= p2_row_spec(*task));
    r
}

/// The row of a P3 task.
pub open spec fn p3_row_spec(task: P3Task) -> Seq<(Seq<char>, SpanStyle)> {
    seq![
        ("* "@, SpanStyle::TaskAccent(task.status)),
        (task.title@, SpanStyle::TaskTitle(task.status)),
        (" "@, SpanStyle::Raw),
        (status_text(task.status), SpanStyle::TaskStatusLabel(task.status)),
    ]
}

/// The row of a P3 task.
pub fn p3_row(task: &P3Task) -> (r: Vec<Span>)
    ensures
        spans_view(r@) == p3_row_spec(*task),
{
    let mut r: Vec<Span> = Vec::new();
    r.push(span_str("* ", SpanStyle::TaskAccent(task.status)));
    r.push(span(task.title.clone(), SpanStyle::TaskTitle(task.status)));
    r.push(span_str(" ", SpanStyle::Raw));
    r.push(span_str(crate::ui::label_for_task_status(&task.status), SpanStyle::TaskStatusLabel(task.status)));
    assert(spans_view(r@) =~= p3_row_spec(*task));
    r
}

/// A date label, or `never` when there is no date.
pub open spec fn date_or_never(label: Option<Seq<char>>) -> Seq<char> {
    match label {
        Some(l) => l,
        None => "never"@,
    }
}

/// The view of an optional string slice.
pub open spec fn str_opt_view(s: Option<&str>) -> Option<Seq<char>> {
    match s {
        Some(s) => Some(s@),
        None => None,
    }
}

/// The row of a daily topic; `last_hit_label` is its last hit written out.
pub open spec fn daily_row_spec(
    bucket: DailyBucket,
    title: Seq<char>,
    stale: bool,
    last_hit_label: Option<Seq<char>>,
) -> Seq<(Seq<char>, SpanStyle)> {
    seq![
        (match bucket {
            DailyBucket::Active => "[A] "@,
            DailyBucket::Later => "[L] "@,
        }, SpanStyle::BucketTag),
        (title, SpanStyle::Text),
        (" "@, SpanStyle::Raw),
        (date_or_never(last_hit_label), SpanStyle::LastHit),
        (" "@, SpanStyle::Raw),
        (if stale {
            "STALE"@
        } else {
            "fresh"@
        }, SpanStyle::Staleness(stale)),
    ]
}

/// The row of a daily topic; `last_hit_label` is its last hit written out.
pub fn daily_list_item_labeled(entry: &DailyEntry<'_>, last_hit_label: Option<&str>) -> (r: Vec<Span>)
    ensures
        spans_view(r@) == daily_row_spec(
            entry.bucket,
            entry.task.title@,
            entry.stale,
            str_opt_view(last_hit_label),
        ),
{
    let bucket = match entry.bucket {
        DailyBucket::Active => "[A] ",
        DailyBucket::Later => "[L] ",
    };
    let last_hit = match last_hit_label {
        Some(l) => l,
        None => "never",
    };
    let mark = if entry.stale {
        "STALE"
    } else {
        "fresh"
    };
    let mut r: Vec<Span> = Vec::new();
    r.push(span_str(bucket, SpanStyle::BucketTag));
    r.push(span(entry.task.title.clone(), SpanStyle::Text));
    r.push(span_str(" ", SpanStyle::Raw));
    r.push(span_str(last_hit, SpanStyle::LastHit));
    r.push(span_str(" ", SpanStyle::Raw));
    r.push(span_str(mark, SpanStyle::Staleness(entry.stale)));
    assert(spans_view(r@) =~= daily_row_spec(
        entry.bucket,
        entry.task.title@,
        entry.stale,
        str_opt_view(last_hit_label),
    ));
    r
}

/// The row of a decision; `date_label` is its date written out.
pub open spec fn decision_row_spec(decision: Decision, date_label: Seq<char>) -> Seq<
    (Seq<char>, SpanStyle),
> {
    seq![(date_label + " "@, SpanStyle::DecisionDate), (decision.title@, SpanStyle::Text)]
}

/// The row of a decision; `date_label` is its date written out.
pub fn decision_list_item_labeled(decision: &Decision, date_label: &str) -> (r: Vec<Span>)
    ensures
        spans_view(r@) == decision_row_spec(*decision, date_label@),
{
    let mut date = String::from_str(date_label);
    date.append(" ");
    let mut r: Vec<Span> = Vec::new();
    r.push(span(date, SpanStyle::DecisionDate));
    r.push(span(decision.title.clone(), SpanStyle::Text));
    assert(spans_view(r@) =~= decision_row_spec(*decision, date_label@));
    r
}

// ---------------------------------------------------------------------------
// The detail panel.
// ---------------------------------------------------------------------------
/// An unstyled line.
pub open spec fn raw_line(text: Seq<char>) -> (Seq<char>, SpanStyle) {
    (text, SpanStyle::Raw)
}

/// One bulleted line per item.
pub open spec fn bullet_lines(items: Seq<String>) -> Seq<(Seq<char>, SpanStyle)> {
    items.map_values(|item: String| raw_line("  - "@ + item@))
}

/// A section of the detail panel: nothing when there are no items, else a
/// blank line, the heading, and one bulleted line per item.
pub open spec fn section(
    heading: Seq<char>,
    style: SpanStyle,
    items: Seq<String>,
) -> Seq<(Seq<char>, SpanStyle)> {
    if items.len() == 0 {
        seq![]
    } else {
        seq![raw_line(""@), (heading, style)] + bullet_lines(items)
    }
}

/// Appends a section (see [`section`]) to `lines`.
fn push_section(lines: &mut Vec<Span>, heading: &str, style: SpanStyle, items: &[String])
    ensures
        spans_view(final(lines)@) == spans_view(old(lines)@) + section(heading@, style, items@),
{
    if items.len() == 0 {
        assert(spans_view(lines@) =~= spans_view(lines@) + section(heading@, style, items@));
        return ;
    }
    let ghost start = spans_view(lines@);
    lines.push(span_str("", SpanStyle::Raw));
    lines.push(span_str(heading, style));
    assert(spans_view(lines@) =~= start + seq![raw_line(""@), (heading@, style)]);
    let mut i: usize = 0;
    while i < items.len()
        invariant
            i <= items@.len(),
            spans_view(lines@) == start + seq![raw_line(""@), (heading@, style)]
                + bullet_lines(items@.take(i as int)),
        decreases items@.len() - i,
    {
        let ghost before = spans_view(lines@);
        lines.push(span(joined("  - ", items[i].as_str()), SpanStyle::Raw));
        assert(items@.take(i + 1) =~= items@.take(i as int).push(items@[i as int]));
        assert(bullet_lines(items@.take(i + 1)) =~= bullet_lines(items@.take(i as int)).push(
            raw_line("  - "@ + items@[i as int]@),
        ));
        assert(spans_view(lines@) =~= before.push(raw_line("  - "@ + items@[i as int]@)));
        i += 1;
    }
    assert(items@.take(items@.len() as int) =~= items@);
    assert(spans_view(lines@) =~= start + section(heading@, style, items@));
}

/// The optional lines that a value gives: one when it is present.
pub open spec fn optional_line(text: Option<Seq<char>>) -> Seq<(Seq<char>, SpanStyle)> {
    match text {
        Some(t) => seq![raw_line(t)],
        None => seq![],
    }
}

/// The detail panel of a task: its title, its meta line and completion date
/// when there are any, its raw text, its notes and its links.
pub open spec fn task_text_spec(
    title: Seq<char>,
    raw_text: Seq<char>,
    links: Seq<String>,
    notes: Seq<String>,
    meta: Option<Seq<char>>,
    completed_label: Option<Seq<char>>,
) -> Seq<(Seq<char>, SpanStyle)> {
    seq![(title, SpanStyle::DetailTitle)] + optional_line(meta) + optional_line(
        match completed_label {
            Some(c) => Some("completed: "@ + c),
            None => None,
        },
    ) + seq![raw_line(""@), raw_line("raw:"@), raw_line("  "@ + raw_text)] + section(
        "notes:"@,
        SpanStyle::Raw,
        notes,
    ) + section("links:"@, SpanStyle::Raw, links)
}

/// The detail panel of a task; `completed_label` is its completion date
/// written out.
pub fn task_text_labeled(
    title: &str,
    raw_text: &str,
    links: &[String],
    notes: &[String],
    meta: Option<String>,
    completed_label: Option<&str>,
) -> (r: Vec<Span>)
    ensures
        spans_view(r@) == task_text_spec(
            title@,
            raw_text@,
            links@,
            notes@,
            string_opt(meta),
            str_opt_view(completed_label),
        ),
{
    let mut lines: Vec<Span> = Vec::new();
    lines.push(span_str(title, SpanStyle::DetailTitle));
    let ghost meta_view = string_opt(meta);
    match meta {
        Some(m) => lines.push(span(m, SpanStyle::Raw)),
        None => {},
    }
    match completed_label {
        Some(c) => lines.push(span(joined("completed: ", c), SpanStyle::Raw)),
        None => {},
    }
    lines.push(span_str("", SpanStyle::Raw));
    lines.push(span_str("raw:", SpanStyle::Raw));
    lines.push(span(joined("  ", raw_text), SpanStyle::Raw));
    assert(spans_view(lines@) =~= seq![(title@, SpanStyle::DetailTitle)] + optional_line(meta_view)
        + optional_line(
        match str_opt_view(completed_label) {
            Some(c) => Some("completed: "@ + c),
            None => None,
        },
    ) + seq![raw_line(""@), raw_line("raw:"@), raw_line("  "@ + raw_text@)]);
    push_section(&mut lines, "notes:", SpanStyle::Raw, notes);
    push_section(&mut lines, "links:", SpanStyle::Raw, links);
    lines
}

/// The view of an optional string.
pub open spec fn string_opt(s: Option<String>) -> Option<Seq<char>> {
    match s {
        Some(s) => Some(s@),
        None => None,
    }
}

/// The detail panel of a daily topic: title, bucket, last hit, staleness, raw
/// text, notes and links.
pub open spec fn daily_text_spec(
    bucket: DailyBucket,
    title: Seq<char>,
    raw_text: Seq<char>,
    links: Seq<String>,
    notes: Seq<String>,
    stale: bool,
    last_hit_label: Option<Seq<char>>,
) -> Seq<(Seq<char>, SpanStyle)> {
    seq![
        (title, SpanStyle::DetailTitle),
        raw_line(
            match bucket {
                DailyBucket::Active => "bucket: active"@,
                DailyBucket::Later => "bucket: later"@,
            },
        ),
        raw_line("last hit: "@ + date_or_never(last_hit_label)),
        raw_line(
            if stale {
                "stale: yes"@
            } else {
                "stale: no"@
            },
        ),
        raw_line(""@),
        raw_line("raw:"@),
        raw_line("  "@ + raw_text),
    ] + section("notes:"@, SpanStyle::Raw, notes) + section("links:"@, SpanStyle::Raw, links)
}

/// The detail panel of a daily topic; `last_hit_label` is its last hit
/// written out.
pub fn daily_text_labeled(entry: &DailyEntry<'_>, last_hit_label: Option<&str>) -> (r: Vec<Span>)
    ensures
        spans_view(r@) == daily_text_spec(
            entry.bucket,
            entry.task.title@,
            entry.task.raw_text@,
            entry.task.links@,
            entry.task.notes@,
            entry.stale,
            str_opt_view(last_hit_label),
        ),
{
    let mut lines: Vec<Span> = Vec::new();
    lines.push(span(entry.task.title.clone(), SpanStyle::DetailTitle));
    let bucket = match entry.bucket {
        DailyBucket::Active => "bucket: active",
        DailyBucket::Later => "bucket: later",
    };
    lines.push(span_str(bucket, SpanStyle::Raw));
    let last_hit = match last_hit_label {
        Some(l) => l,
        None => "never",
    };
    lines.push(span(joined("last hit: ", last_hit), SpanStyle::Raw));
    let stale = if entry.stale {
        "stale: yes"
    } else {
        "stale: no"
    };
    lines.push(span_str(stale, SpanStyle::Raw));
    lines.push(span_str("", SpanStyle::Raw));
    lines.push(span_str("raw:", SpanStyle::Raw));
    lines.push(span(joined("  ", entry.task.raw_text.as_str()), SpanStyle::Raw));
    push_section(&mut lines, "notes:", SpanStyle::Raw, entry.task.notes.as_slice());
    push_section(&mut lines, "links:", SpanStyle::Raw, entry.task.links.as_slice());
    assert(spans_view(lines@) =~= daily_text_spec(
        entry.bucket,
        entry.task.title@,
        entry.task.raw_text@,
        entry.task.links@,
        entry.task.notes@,
        entry.stale,
        str_opt_view(last_hit_label),
    ));
    lines
}

/// How a setting's value is written.
pub open spec fn setting_value_text(value: SettingValue) -> Seq<char> {
    match value {
        SettingValue::Bool(b) => if b {
            "true"@
        } else {
            "false"@
        },
        SettingValue::Number(n) => n@,
        SettingValue::Text(t) => t@,
        SettingValue::Other(o) => o@,
    }
}

/// How a setting's value is written.
pub fn format_setting_value(value: &SettingValue) -> (r: String)
    ensures
        r@ == setting_value_text(*value),
{
    match value {
        SettingValue::Bool(b) => if *b {
            String::from_str("true")
        } else {
            String::from_str("false")
        },
        SettingValue::Number(n) => n.clone(),
        SettingValue::Text(t) => t.clone(),
        SettingValue::Other(o) => o.clone(),
    }
}

/// The line of one setting.
pub open spec fn setting_line(setting: crate::model::Setting) -> (Seq<char>, SpanStyle) {
    raw_line("  "@ + setting.key@ + " = "@ + setting_value_text(setting.value))
}

/// The settings section of a decision.
pub open spec fn settings_section(settings: Seq<crate::model::Setting>) -> Seq<
    (Seq<char>, SpanStyle),
> {
    if settings.len() == 0 {
        seq![]
    } else {
        seq![raw_line(""@), ("settings"@, SpanStyle::SectionHeading)] + settings.map_values(
            |s: crate::model::Setting| setting_line(s),
        )
    }
}

/// The detail panel of a decision: its title and date, then its settings,
/// summary and notes, each section only when it has entries.
pub open spec fn decision_text_spec(decision: Decision, date_label: Seq<char>) -> Seq<
    (Seq<char>, SpanStyle),
> {
    seq![(decision.title@ + " ("@ + date_label + ")"@, SpanStyle::DetailTitle)] + settings_section(
        decision.settings@,
    ) + section("summary"@, SpanStyle::SectionHeading, decision.summary@) + section(
        "notes"@,
        SpanStyle::SectionHeading,
        decision.startup_flow_notes@,
    )
}

/// The detail panel of a decision; `date_label` is its date written out.
pub fn decision_text_labeled(decision: &Decision, date_label: &str) -> (r: Vec<Span>)
    ensures
        spans_view(r@) == decision_text_spec(*decision, date_label@),
{
    let mut lines: Vec<Span> = Vec::new();
    let mut title = decision.title.clone();
    title.append(" (");
    title.append(date_label);
    title.append(")");
    lines.push(span(title, SpanStyle::DetailTitle));
    let ghost start = spans_view(lines@);
    let settings = &decision.settings;
    if settings.len() > 0 {
        lines.push(span_str("", SpanStyle::Raw));
        lines.push(span_str("settings", SpanStyle::SectionHeading));
        let mut i: usize = 0;
        while i < settings.len()
            invariant
                i <= settings@.len(),
                spans_view(lines@) == start + seq![
                    raw_line(""@),
                    ("settings"@, SpanStyle::SectionHeading),
                ] + settings@.take(i as int).map_values(
                    |s: crate::model::Setting| setting_line(s),
                ),
            decreases settings@.len() - i,
        {
            let ghost before = spans_view(lines@);
            let mut line = joined("  ", settings[i].key.as_str());
            line.append(" = ");
            line.append(format_setting_value(&settings[i].value).as_str());
            lines.push(span(line, SpanStyle::Raw));
            assert(settings@.take(i + 1) =~= settings@.take(i as int).push(settings@[i as int]));
            assert(spans_view(lines@) =~= before.push(setting_line(settings@[i as int])));
            i += 1;
        }
        assert(settings@.take(settings@.len() as int) =~= settings@);
    }
    assert(spans_view(lines@) =~= start + settings_section(decision.settings@));
    push_section(&mut lines, "summary", SpanStyle::SectionHeading, decision.summary.as_slice());
    push_section(
        &mut lines,
        "notes",
        SpanStyle::SectionHeading,
        decision.startup_flow_notes.as_slice(),
    );
    lines
}

/// The date that the detail panel of a row shows: a task's completion, a
/// daily topic's last hit, a decision's date.
pub open spec fn selected_date_spec(selected: Selected<'_>) -> Option<Date> {
    match selected {
        Selected::P1(task) => task.completed_at,
        Selected::P2(task) => task.completed_at,
        Selected::P3(task) => task.completed_at,
        Selected::Daily(entry) => entry.last_hit,
        Selected::Decision(decision) => Some(decision.date),
    }
}

/// The date that the detail panel of a row shows.
pub fn selected_date(selected: &Selected<'_>) -> (r: Option<Date>)
    ensures
        r == selected_date_spec(*selected),
{
    match selected {
        Selected::P1(task) => task.completed_at,
        Selected::P2(task) => task.completed_at,
        Selected::P3(task) => task.completed_at,
        Selected::Daily(entry) => entry.last_hit,
        Selected::Decision(decision) => Some(decision.date),
    }
}

/// The detail panel of the selected row; `date_label` is its date (see
/// [`selected_date`]) written out.
pub open spec fn selected_detail_spec(
    selected: Option<Selected<'_>>,
    date_label: Option<Seq<char>>,
) -> Seq<(Seq<char>, SpanStyle)> {
    match selected {
        None => seq![raw_line("No item selected."@)],
        Some(Selected::P1(task)) => task_text_spec(
            task.title@,
            task.raw_text@,
            task.links@,
            task.notes@,
            Some("rank "@ + decimal_text(task.rank as nat)),
            date_label,
        ),
        Some(Selected::P2(task)) => task_text_spec(
            task.title@,
            task.raw_text@,
            task.links@,
            task.notes@,
            Some("source "@ + decimal_text(task.source_order as nat)),
            date_label,
        ),
        Some(Selected::P3(task)) => task_text_spec(
            task.title@,
            task.raw_text@,
            task.links@,
            task.notes@,
            Some("source "@ + decimal_text(task.source_order as nat)),
            date_label,
        ),
        Some(Selected::Daily(entry)) => daily_text_spec(
            entry.bucket,
            entry.task.title@,
            entry.task.raw_text@,
            entry.task.links@,
            entry.task.notes@,
            entry.stale,
            date_label,
        ),
        Some(Selected::Decision(decision)) => decision_text_spec(
            *decision,
            match date_label {
                Some(l) => l,
                None => ""@,
            },
        ),
    }
}

/// The detail panel of the selected row; `date_label` is its date (see
/// [`selected_date`]) written out.
pub fn selected_detail_text_labeled(selected: Option<Selected<'_>>, date_label: Option<&str>) -> (r: Vec<
    Span,
>)
    ensures
        spans_view(r@) == selected_detail_spec(selected, str_opt_view(date_label)),
{
    match selected {
        None => {
            let mut r: Vec<Span> = Vec::new();
            r.push(span_str("No item selected.", SpanStyle::Raw));
            assert(spans_view(r@) =~= seq![raw_line("No item selected."@)]);
            r
        },
        Some(Selected::P1(task)) => task_text_labeled(
            task.title.as_str(),
            task.raw_text.as_str(),
            task.links.as_slice(),
            task.notes.as_slice(),
            Some(joined("rank ", decimal(task.rank).as_str())),
            date_label,
        ),
        Some(Selected::P2(task)) => task_text_labeled(
            task.title.as_str(),
            task.raw_text.as_str(),
            task.links.as_slice(),
            task.notes.as_slice(),
            Some(joined("source ", decimal(task.source_order).as_str())),
            date_label,
        ),
        Some(Selected::P3(task)) => task_text_labeled(
            task.title.as_str(),
            task.raw_text.as_str(),
            task.links.as_slice(),
            task.notes.as_slice(),
            Some(joined("source ", decimal(task.source_order).as_str())),
            date_label,
        ),
        Some(Selected::Daily(entry)) => daily_text_labeled(&entry, date_label),
        Some(Selected::Decision(decision)) => {
            let label = match date_label {
                Some(l) => l,
                None => "",
            };
            decision_text_labeled(decision, label)
        },
    }
}

// ---------------------------------------------------------------------------
// The header.
// ---------------------------------------------------------------------------
/// The header: the application name, the source path, the capture date and
/// the status message.
pub open spec fn header_spec(
    path: Seq<char>,
    captured_label: Seq<char>,
    status: crate::ui::Status,
) -> Seq<(Seq<char>, SpanStyle)> {
    seq![
        (" LearningComputer "@, SpanStyle::AppName),
        (" "@, SpanStyle::Raw),
        (path, SpanStyle::SourcePath),
        ("  captured "@, SpanStyle::Raw),
        (captured_label, SpanStyle::CapturedOn),
        ("  "@, SpanStyle::Raw),
        (status.text@, SpanStyle::StatusMessage(status.tone)),
    ]
}

/// The header; `captured_label` is the capture date written out.
pub fn header_line_labeled(path: &str, captured_label: &str, status: &crate::ui::Status) -> (r: Vec<Span>)
    ensures
        spans_view(r@) == header_spec(path@, captured_label@, *status),
{
    let mut r: Vec<Span> = Vec::new();
    r.push(span_str(" LearningComputer ", SpanStyle::AppName));
    r.push(span_str(" ", SpanStyle::Raw));
    r.push(span(crate::ui::display_path(path), SpanStyle::SourcePath));
    r.push(span_str("  captured ", SpanStyle::Raw));
    r.push(span_str(captured_label, SpanStyle::CapturedOn));
    r.push(span_str("  ", SpanStyle::Raw));
    r.push(span(status.text.clone(), SpanStyle::StatusMessage(status.tone)));
    assert(spans_view(r@) =~= header_spec(path@, captured_label@, *status));
    r
}

// ---------------------------------------------------------------------------
// The same builders, writing their dates themselves.
// ---------------------------------------------------------------------------
/// The row of a daily topic, with its last hit written out.
pub fn daily_list_item(entry: &DailyEntry<'_>) -> (r: Vec<Span>)
    ensures
        spans_view(r@) == daily_row_spec(
            entry.bucket,
            entry.task.title@,
            entry.stale,
            day_text_opt(entry.last_hit),
        ),
{
    let label = written_date(entry.last_hit);
    daily_list_item_labeled(entry, opt_str(&label))
}

/// The row of a decision, with its date written out.
pub fn decision_list_item(decision: &Decision) -> (r: Vec<Span>)
    ensures
        spans_view(r@) == decision_row_spec(*decision, day_text(decision.date)),
{
    let label = date_text(decision.date.days_from_ce());
    decision_list_item_labeled(decision, label.as_str())
}

/// The detail panel of a task, with its completion date written out.
pub fn task_text(
    title: &str,
    raw_text: &str,
    links: &[String],
    notes: &[String],
    meta: Option<String>,
    completed_at: Option<Date>,
) -> (r: Vec<Span>)
    ensures
        spans_view(r@) == task_text_spec(
            title@,
            raw_text@,
            links@,
            notes@,
            string_opt(meta),
            day_text_opt(completed_at),
        ),
{
    let label = written_date(completed_at);
    task_text_labeled(title, raw_text, links, notes, meta, opt_str(&label))
}

/// The detail panel of a daily topic, with its last hit written out.
pub fn daily_text(entry: &DailyEntry<'_>) -> (r: Vec<Span>)
    ensures
        spans_view(r@) == daily_text_spec(
            entry.bucket,
            entry.task.title@,
            entry.task.raw_text@,
            entry.task.links@,
            entry.task.notes@,
            entry.stale,
            day_text_opt(entry.last_hit),
        ),
{
    let label = written_date(entry.last_hit);
    daily_text_labeled(entry, opt_str(&label))
}

/// The detail panel of a decision, with its date written out.
pub fn decision_text(decision: &Decision) -> (r: Vec<Span>)
    requires
        settings_in_key_order(decision.settings@),
    ensures
        spans_view(r@) == decision_text_spec(*decision, day_text(decision.date)),
{
    let label = date_text(decision.date.days_from_ce());
    decision_text_labeled(decision, label.as_str())
}

/// The detail panel of the selected row, with its date written out.
pub fn selected_detail_text(selected: Option<Selected<'_>>) -> (r: Vec<Span>)
    requires
        selected matches Some(Selected::Decision(d)) ==> settings_in_key_order(d.settings@),
    ensures
        spans_view(r@) == selected_detail_spec(
            selected,
            match selected {
                Some(s) => day_text_opt(selected_date_spec(s)),
                None => None,
            },
        ),
{
    let date = match &selected {
        Some(s) => selected_date(s),
        None => None,
    };
    let label = written_date(date);
    selected_detail_text_labeled(selected, opt_str(&label))
}

/// The header, with the capture date written out.
pub fn header_line(path: &str, captured_on: Date, status: &crate::ui::Status) -> (r: Vec<Span>)
    ensures
        spans_view(r@) == header_spec(path@, day_text(captured_on), *status),
{
    let label = date_text(captured_on.days_from_ce());
    header_line_labeled(path, label.as_str(), status)
}

// ---------------------------------------------------------------------------
// The lists of the screens.
// ---------------------------------------------------------------------------
/// The row that a list shows for an entry.
pub open spec fn row_spec(v: SelectedView) -> Seq<(Seq<char>, SpanStyle)> {
    match v {
        SelectedView::P1(task) => p1_row_spec(task),
        SelectedView::P2(task) => p2_row_spec(task),
        SelectedView::P3(task) => p3_row_spec(task),
        SelectedView::Daily(entry) => daily_row_spec(
            entry.bucket,
            entry.task.title@,
            entry.stale,
            day_text_opt(entry.last_hit),
        ),
        SelectedView::Decision(decision) => decision_row_spec(decision, day_text(decision.date)),
    }
}

/// The row of an entry, if there is an entry.
pub open spec fn entry_row_spec(v: Option<SelectedView>) -> Option<Seq<(Seq<char>, SpanStyle)>> {
    match v {
        Some(v) => Some(row_spec(v)),
        None => None,
    }
}

/// The row that a list shows for an entry.
pub fn list_row(selected: Selected<'_>) -> (r: Vec<Span>)
    ensures
        spans_view(r@) == row_spec(selected@),
{
    match selected {
        Selected::P1(task) => p1_row(task),
        Selected::P2(task) => p2_row(task),
        Selected::P3(task) => p3_row(task),
        Selected::Daily(entry) => daily_list_item(&entry),
        Selected::Decision(decision) => decision_list_item(decision),
    }
}

/// The rows of the list of `screen`, one per entry, in order.
pub fn screen_rows(controller: &Controller, screen: Screen) -> (r: Vec<Vec<Span>>)
    requires
        controller.wf(),
    ensures
        r@.len() == controller.spec_len(screen),
        forall|i: int|
            0 <= i < r@.len() ==> Some(spans_view(#[trigger] r@[i]@)) == entry_row_spec(
                controller.spec_entry(screen, i),
            ),
{
    let len = controller.len_for(screen);
    let mut r: Vec<Vec<Span>> = Vec::new();
    let mut i: usize = 0;
    while i < len
        invariant
            controller.wf(),
            len == controller.spec_len(screen),
            i <= len,
            r@.len() == i,
            forall|j: int|
                0 <= j < i ==> Some(spans_view(#[trigger] r@[j]@)) == entry_row_spec(
                    controller.spec_entry(screen, j),
                ),
        decreases len - i,
    {
        match controller.entry_at(screen, i) {
            Some(selected) => r.push(list_row(selected)),
            None => {},
        }
        i += 1;
    }
    r
}

} // verus!
