use learning_computer::controller::{DailyBucket, DailyEntry, Selected};
use learning_computer::model::{FIRST_DAY, LAST_DAY};
use learning_computer::model::{
    DailyStatus, DailyTask, Date, Decision, P1Task, P2Task, P3Task, Setting, SettingValue,
    TaskStatus,
};
use chrono::{Datelike, NaiveDate};
use learning_computer::text::{
    daily_list_item, daily_list_item_labeled, daily_text, daily_text_labeled, decimal,
    decision_list_item, decision_list_item_labeled, decision_text, decision_text_labeled,
    format_setting_value, header_line, header_line_labeled, p1_row, p2_row, p3_row,
    selected_date, selected_detail_text, selected_detail_text_labeled, task_text,
    task_text_labeled, Span, SpanStyle,
};
use learning_computer::ui::{Status, Tone};

fn day(year: i32, month: u32, day: u32) -> Date {
    Date::from_days_from_ce(NaiveDate::from_ymd_opt(year, month, day).unwrap().num_days_from_ce())
        .unwrap()
}

fn texts(spans: &[Span]) -> Vec<&str> {
    spans.iter().map(|s| s.text.as_str()).collect()
}

fn p1(rank: u32, status: TaskStatus) -> P1Task {
    P1Task {
        id: "p1-001".to_string(),
        rank,
        status,
        title: "Alpha".to_string(),
        raw_text: "raw alpha".to_string(),
        links: vec!["https://example.com".to_string()],
        notes: vec![],
        completed_at: None,
        estimate_minutes_min: None,
        estimate_minutes_max: None,
    }
}

fn daily_task() -> DailyTask {
    DailyTask {
        id: "daily-001".to_string(),
        status: DailyStatus::Active,
        title: "Topic".to_string(),
        raw_text: "topic raw".to_string(),
        links: vec![],
        notes: vec!["n1".to_string(), "n2".to_string()],
        hit_dates: vec![],
    }
}

fn decision() -> Decision {
    Decision {
        id: "policy-001".to_string(),
        date: day(2026, 3, 17),
        title: "Defaults".to_string(),
        settings: vec![
            Setting { key: "policy.auto_apply".to_string(), value: SettingValue::Bool(true) },
            Setting { key: "retries".to_string(), value: SettingValue::Number("3".to_string()) },
        ],
        summary: vec!["One summary line.".to_string()],
        startup_flow_notes: vec![],
    }
}

#[test]
fn decimal_numbers() {
    assert_eq!(decimal(0), "0");
    assert_eq!(decimal(7), "7");
    assert_eq!(decimal(10), "10");
    assert_eq!(decimal(4_294_967_295), "4294967295");
}

#[test]
fn p1_rows_show_a_right_aligned_rank_badge() {
    let row = p1_row(&p1(3, TaskStatus::Todo));
    assert_eq!(texts(&row), vec!["  #3 ", "Alpha", " ", "todo"]);
    assert_eq!(row[0].style, SpanStyle::TaskAccent(TaskStatus::Todo));
    assert_eq!(row[3].style, SpanStyle::TaskStatusLabel(TaskStatus::Todo));
    assert_eq!(texts(&p1_row(&p1(12345, TaskStatus::Done))), vec!["#12345 ", "Alpha", " ", "done"]);
}

#[test]
fn p2_and_p3_rows_are_bulleted() {
    let p2 = P2Task {
        id: "p2".to_string(),
        source_order: 1,
        status: TaskStatus::Todo,
        title: "Two".to_string(),
        raw_text: String::new(),
        links: vec![],
        notes: vec![],
        completed_at: None,
        estimate_minutes_min: None,
        estimate_minutes_max: None,
    };
    assert_eq!(texts(&p2_row(&p2)), vec!["* ", "Two"]);
    let p3 = P3Task {
        id: "p3".to_string(),
        source_order: 1,
        status: TaskStatus::Done,
        title: "Three".to_string(),
        raw_text: String::new(),
        links: vec![],
        notes: vec![],
        completed_at: None,
        estimate_minutes_min: None,
        estimate_minutes_max: None,
    };
    assert_eq!(texts(&p3_row(&p3)), vec!["* ", "Three", " ", "done"]);
}

#[test]
fn daily_rows_show_bucket_last_hit_and_staleness() {
    let task = daily_task();
    let entry = DailyEntry { bucket: DailyBucket::Active, task: &task, last_hit: None, stale: true };
    assert_eq!(texts(&daily_list_item_labeled(&entry, None)), vec!["[A] ", "Topic", " ", "never", " ", "STALE"]);
    let later = DailyEntry { bucket: DailyBucket::Later, task: &task, last_hit: None, stale: false };
    assert_eq!(
        texts(&daily_list_item_labeled(&later, Some("2026-03-15"))),
        vec!["[L] ", "Topic", " ", "2026-03-15", " ", "fresh"]
    );
}

#[test]
fn decision_rows_show_date_and_title() {
    assert_eq!(texts(&decision_list_item_labeled(&decision(), "2026-03-17")), vec!["2026-03-17 ", "Defaults"]);
}

#[test]
fn task_detail_lists_sections_only_when_present() {
    let lines = task_text_labeled(
        "Alpha",
        "raw alpha",
        &["l1".to_string()],
        &[],
        Some("rank 1".to_string()),
        Some("2026-03-17"),
    );
    assert_eq!(
        texts(&lines),
        vec!["Alpha", "rank 1", "completed: 2026-03-17", "", "raw:", "  raw alpha", "", "links:", "  - l1"]
    );
    assert_eq!(lines[0].style, SpanStyle::DetailTitle);
    let bare = task_text_labeled("T", "r", &[], &[], None, None);
    assert_eq!(texts(&bare), vec!["T", "", "raw:", "  r"]);
}

#[test]
fn daily_detail() {
    let task = daily_task();
    let entry = DailyEntry { bucket: DailyBucket::Later, task: &task, last_hit: None, stale: false };
    assert_eq!(
        texts(&daily_text_labeled(&entry, None)),
        vec![
            "Topic", "bucket: later", "last hit: never", "stale: no", "", "raw:", "  topic raw", "",
            "notes:", "  - n1", "  - n2",
        ]
    );
}

#[test]
fn decision_detail() {
    let lines = decision_text_labeled(&decision(), "2026-03-17");
    assert_eq!(
        texts(&lines),
        vec![
            "Defaults (2026-03-17)", "", "settings", "  policy.auto_apply = true", "  retries = 3", "",
            "summary", "  - One summary line.",
        ]
    );
    assert_eq!(lines[2].style, SpanStyle::SectionHeading);
}

#[test]
fn setting_values_are_written_plainly() {
    assert_eq!(format_setting_value(&SettingValue::Bool(false)), "false");
    assert_eq!(format_setting_value(&SettingValue::Number("1.5".to_string())), "1.5");
    assert_eq!(format_setting_value(&SettingValue::Text("on".to_string())), "on");
    assert_eq!(format_setting_value(&SettingValue::Other("Null".to_string())), "Null");
}

#[test]
fn selected_detail_dispatches_on_the_row() {
    assert_eq!(texts(&selected_detail_text_labeled(None, None)), vec!["No item selected."]);
    let task = p1(2, TaskStatus::Todo);
    let selected = Selected::P1(&task);
    assert_eq!(selected_date(&selected), None);
    assert_eq!(texts(&selected_detail_text_labeled(Some(selected), None))[1], "rank 2");
    let d = decision();
    let selected = Selected::Decision(&d);
    assert_eq!(selected_date(&selected), Some(d.date));
    assert_eq!(texts(&selected_detail_text_labeled(Some(selected), Some("2026-03-17")))[0], "Defaults (2026-03-17)");
}

#[test]
fn header_names_path_date_and_status() {
    let status = Status { tone: Tone::Warning, text: "reload rejected: x".to_string() };
    let line = header_line_labeled("data/tasks.yml", "2026-03-17", &status);
    assert_eq!(
        texts(&line),
        vec![" LearningComputer ", " ", "data/tasks.yml", "  captured ", "2026-03-17", "  ", "reload rejected: x"]
    );
    assert_eq!(line[6].style, SpanStyle::StatusMessage(Tone::Warning));
}

#[test]
fn dates_are_written_as_calendar_dates() {
    let d = decision();
    assert_eq!(texts(&decision_list_item(&d)), vec!["2026-03-17 ", "Defaults"]);
    assert_eq!(texts(&decision_text(&d))[0], "Defaults (2026-03-17)");
    let task = daily_task();
    let entry = DailyEntry {
        bucket: DailyBucket::Active,
        task: &task,
        last_hit: Some(day(2026, 3, 5)),
        stale: false,
    };
    assert_eq!(texts(&daily_list_item(&entry))[3], "2026-03-05");
    assert_eq!(texts(&daily_text(&entry))[2], "last hit: 2026-03-05");
    let never = DailyEntry { bucket: DailyBucket::Active, task: &task, last_hit: None, stale: true };
    assert_eq!(texts(&daily_list_item(&never))[3], "never");
    let lines = task_text("T", "r", &[], &[], None, Some(day(1999, 12, 31)));
    assert_eq!(texts(&lines)[1], "completed: 1999-12-31");
    let mut done = p1(1, TaskStatus::Done);
    done.completed_at = Some(day(2026, 1, 2));
    assert_eq!(texts(&selected_detail_text(Some(Selected::P1(&done))))[2], "completed: 2026-01-02");
    assert_eq!(texts(&selected_detail_text(Some(Selected::Decision(&d))))[0], "Defaults (2026-03-17)");
    assert_eq!(texts(&selected_detail_text(None)), vec!["No item selected."]);
    let status = Status { tone: Tone::Neutral, text: "ok".to_string() };
    assert_eq!(texts(&header_line("data/tasks.yml", day(2026, 3, 17), &status))[4], "2026-03-17");
}

#[test]
fn days_keep_their_numbers_within_the_calendar() {
    assert_eq!(Date::from_days_from_ce(1).unwrap().days_from_ce(), 1);
    assert_eq!(texts(&decision_list_item(&Decision { date: Date::from_days_from_ce(1).unwrap(), ..decision() }))[0], "0001-01-01 ");
    assert!(Date::from_days_from_ce(i32::MAX).is_none());
    assert!(Date::from_days_from_ce(i32::MIN).is_none());
    assert_eq!(day(2026, 3, 17).days_since(&day(2026, 3, 10)), 7);
}

#[test]
fn years_outside_four_digits_carry_a_sign() {
    let at = |n: i32| Decision { date: Date::from_days_from_ce(n).unwrap(), ..decision() };
    assert_eq!(texts(&decision_list_item(&at(0)))[0], "0000-12-31 ");
    assert_eq!(texts(&decision_list_item(&at(-366)))[0], "-0001-12-31 ");
    assert_eq!(texts(&decision_list_item(&at(3_652_060)))[0], "+10000-01-01 ");
    assert_eq!(texts(&decision_list_item(&at(FIRST_DAY)))[0], "-262143-01-01 ");
    assert_eq!(texts(&decision_list_item(&at(LAST_DAY)))[0], "+262142-12-31 ");
    assert_eq!(texts(&decision_list_item(&at(738_945)))[0], "2024-02-29 ");
}
