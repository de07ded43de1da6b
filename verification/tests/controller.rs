use chrono::{Datelike, NaiveDate};

use learning_computer::controller::{Controller, DailyBucket, DetailMode, Screen, Selected};
use learning_computer::text::{screen_rows, Span};
use learning_computer::model::{
    Dailies, DailyStatus, DailyTask, Date, Decision, P1Task, P2Task, P3Task, SessionState,
    Snapshot, TaskStatus, Tasks,
};

fn date(year: i32, month: u32, day: u32) -> Date {
    Date::from_days_from_ce(
        NaiveDate::from_ymd_opt(year, month, day)
            .unwrap()
            .num_days_from_ce(),
    )
    .unwrap()
}

fn p1(id: &str, rank: u32, title: &str) -> P1Task {
    P1Task {
        id: id.to_string(),
        rank,
        status: TaskStatus::Todo,
        title: title.to_string(),
        raw_text: title.to_string(),
        links: vec![],
        notes: vec![],
        completed_at: None,
        estimate_minutes_min: None,
        estimate_minutes_max: None,
    }
}

fn p2(id: &str, source_order: u32, title: &str) -> P2Task {
    P2Task {
        id: id.to_string(),
        source_order,
        status: TaskStatus::Todo,
        title: title.to_string(),
        raw_text: title.to_string(),
        links: vec![],
        notes: vec![],
        completed_at: None,
        estimate_minutes_min: None,
        estimate_minutes_max: None,
    }
}

fn p3(id: &str, source_order: u32, status: TaskStatus, title: &str, completed_at: Option<Date>) -> P3Task {
    P3Task {
        id: id.to_string(),
        source_order,
        status,
        title: title.to_string(),
        raw_text: title.to_string(),
        links: vec![],
        notes: vec![],
        completed_at,
        estimate_minutes_min: None,
        estimate_minutes_max: None,
    }
}

fn daily(id: &str, status: DailyStatus, title: &str, hit_dates: Vec<Date>) -> DailyTask {
    DailyTask {
        id: id.to_string(),
        status,
        title: title.to_string(),
        raw_text: title.to_string(),
        links: vec![],
        notes: vec![],
        hit_dates,
    }
}

/// The controller test fixture, with the P2 item "Secondary Item Alpha"
/// titled `p2_alpha_title`.
fn fixture_with(p2_alpha_title: &str) -> Snapshot {
    Snapshot {
        schema_version: 1,
        captured_on: date(2026, 3, 17),
        source_files: vec![],
        ingestion_rules: vec![],
        tasks: Tasks {
            p1: vec![
                p1("p1-003", 3, "Priority Item Gamma"),
                p1("p1-001", 1, "Priority Item Alpha"),
                p1("p1-004", 4, "Priority Item Delta"),
                p1("p1-002", 2, "Priority Item Beta"),
            ],
            p2: vec![
                p2("p2-002", 2, "Secondary Item Beta"),
                p2("p2-001", 1, p2_alpha_title),
            ],
            p3: vec![
                p3("p3-002", 2, TaskStatus::Done, "Background Item Beta", Some(date(2026, 3, 16))),
                p3("p3-001", 1, TaskStatus::Todo, "Background Item Alpha", None),
            ],
        },
        dailies: Dailies {
            active: vec![
                daily("daily-001", DailyStatus::Active, "Daily Topic Fresh", vec![date(2026, 3, 15)]),
                daily("daily-002", DailyStatus::Active, "Daily Topic Stale", vec![date(2026, 3, 1)]),
            ],
            later: vec![daily("daily-003", DailyStatus::Later, "Daily Topic Never", vec![])],
        },
        session_state: SessionState {
            active_work: vec![],
            blocked: vec![],
            daily_logs: vec![],
        },
        decisions: vec![Decision {
            id: "policy-001".to_string(),
            date: date(2026, 3, 17),
            title: "Generic operating defaults".to_string(),
            settings: vec![],
            summary: vec!["One summary line.".to_string()],
            startup_flow_notes: vec!["One startup note.".to_string()],
        }],
    }
}

fn test_controller() -> Controller {
    Controller::new(fixture_with("Secondary Item Alpha"), date(2026, 3, 17))
}

#[test]
fn derives_top_three_from_rank_order_once() {
    let controller = test_controller();
    let ids: Vec<_> = controller
        .top_three()
        .into_iter()
        .map(|task| task.id.as_str())
        .collect();

    assert_eq!(ids, vec!["p1-001", "p1-002", "p1-003"]);
}

#[test]
fn exposes_p1_in_rank_order() {
    let controller = test_controller();
    let ids: Vec<_> = controller.p1().into_iter().map(|task| task.id.as_str()).collect();

    assert_eq!(ids, vec!["p1-001", "p1-002", "p1-003", "p1-004"]);
}

#[test]
fn keeps_p2_and_p3_in_source_order() {
    let controller = test_controller();
    let p2_ids: Vec<_> = controller
        .p2()
        .iter()
        .map(|task| task.id.as_str())
        .collect();
    let p3_ids: Vec<_> = controller
        .p3()
        .iter()
        .map(|task| task.id.as_str())
        .collect();

    assert_eq!(p2_ids, vec!["p2-002", "p2-001"]);
    assert_eq!(p3_ids, vec!["p3-002", "p3-001"]);
}

#[test]
fn keeps_selections_independent_per_screen() {
    let mut controller = test_controller();

    controller.set_screen(Screen::P1);
    controller.select_last();
    assert_eq!(controller.selection(), 3);

    controller.set_screen(Screen::P2);
    controller.select_next();
    assert_eq!(controller.selection(), 1);

    controller.set_screen(Screen::P1);
    assert_eq!(controller.selection(), 3);
}

#[test]
fn wraps_selection_movement() {
    let mut controller = test_controller();

    controller.set_screen(Screen::P2);
    controller.select_previous();
    assert_eq!(controller.selection(), 1);

    controller.select_next();
    assert_eq!(controller.selection(), 0);

    controller.select_last();
    controller.select_next();
    assert_eq!(controller.selection(), 0);

    controller.select_first();
    assert_eq!(controller.selection(), 0);
}

#[test]
fn cycles_detail_modes() {
    let mut controller = test_controller();

    assert_eq!(controller.detail_mode, DetailMode::Closed);
    controller.cycle_detail_mode();
    assert_eq!(controller.detail_mode, DetailMode::Item);
    controller.cycle_detail_mode();
    assert_eq!(controller.detail_mode, DetailMode::Closed);
}

#[test]
fn derives_daily_last_hit_and_stale_state_once() {
    let controller = test_controller();
    let daily = controller.daily();

    assert_eq!(daily.len(), 3);
    assert_eq!(daily[0].bucket, DailyBucket::Active);
    assert_eq!(daily[0].last_hit, Some(date(2026, 3, 15)));
    assert!(!daily[0].stale);

    assert_eq!(daily[1].last_hit, Some(date(2026, 3, 1)));
    assert!(daily[1].stale);

    assert_eq!(daily[2].bucket, DailyBucket::Later);
    assert_eq!(daily[2].last_hit, None);
    assert!(daily[2].stale);
}

#[test]
fn exposes_selected_data_for_rendering() {
    let mut controller = test_controller();

    match controller.selected() {
        Some(Selected::P1(task)) => assert_eq!(task.id, "p1-001"),
        _ => panic!("expected top-three selection"),
    }

    controller.set_screen(Screen::Daily);
    controller.select_next();

    match controller.selected() {
        Some(Selected::Daily(entry)) => assert_eq!(entry.task.id, "daily-002"),
        _ => panic!("expected daily selection"),
    }
}

#[test]
fn exposes_decisions_for_the_decisions_screen() {
    let controller = test_controller();

    assert_eq!(controller.decisions().len(), 1);
    assert_eq!(controller.decisions()[0].id, "policy-001");
}

#[test]
fn exposes_selected_decision_for_rendering() {
    let mut controller = test_controller();
    controller.set_screen(Screen::Decisions);

    match controller.selected() {
        Some(Selected::Decision(decision)) => assert_eq!(decision.id, "policy-001"),
        _ => panic!("expected decision selection"),
    }
}

#[test]
fn preserves_selected_ids_across_snapshot_replacement() {
    let mut controller = test_controller();
    controller.set_screen(Screen::P2);
    controller.select_next();

    let replacement = fixture_with("Secondary Item Alpha Updated");

    controller.replace_snapshot(replacement);

    assert_eq!(controller.selection(), 1);
    match controller.selected() {
        Some(Selected::P2(task)) => assert_eq!(task.id, "p2-001"),
        _ => panic!("expected p2 selection"),
    }
}

// Further scenarios of the navigation model.

#[test]
fn new_controller_starts_on_top_three_with_first_rows() {
    let controller = test_controller();
    assert_eq!(controller.screen, Screen::Top3);
    assert_eq!(controller.detail_mode, DetailMode::Closed);
    assert_eq!(controller.screen(), Screen::Top3);
    assert_eq!(controller.detail_mode(), DetailMode::Closed);
    assert_eq!(controller.selection(), 0);
    assert_eq!(controller.entry_count(), 3);
    assert_eq!(controller.captured_on(), date(2026, 3, 17));
}

#[test]
fn equal_ranks_keep_snapshot_order() {
    let mut snapshot = fixture_with("Secondary Item Alpha");
    snapshot.tasks.p1 = vec![
        p1("b", 2, "B"),
        p1("a", 1, "A"),
        p1("c", 2, "C"),
        p1("d", 1, "D"),
    ];
    let controller = Controller::new(snapshot, date(2026, 3, 17));
    let ids: Vec<_> = controller.p1().into_iter().map(|task| task.id.as_str()).collect();
    assert_eq!(ids, vec!["a", "d", "b", "c"]);
    let top: Vec<_> = controller
        .top_three()
        .into_iter()
        .map(|task| task.id.as_str())
        .collect();
    assert_eq!(top, vec!["a", "d", "b"]);
}

#[test]
fn fewer_than_three_p1_tasks_fill_top_three_partially() {
    let mut snapshot = fixture_with("Secondary Item Alpha");
    snapshot.tasks.p1 = vec![p1("x", 9, "X")];
    let controller = Controller::new(snapshot, date(2026, 3, 17));
    assert_eq!(controller.top_three().len(), 1);
}

#[test]
fn empty_screen_keeps_selection_at_zero() {
    let mut snapshot = fixture_with("Secondary Item Alpha");
    snapshot.tasks.p3 = vec![];
    let mut controller = Controller::new(snapshot, date(2026, 3, 17));
    controller.set_screen(Screen::P3);
    controller.select_next();
    assert_eq!(controller.selection(), 0);
    controller.select_previous();
    assert_eq!(controller.selection(), 0);
    controller.select_last();
    assert_eq!(controller.selection(), 0);
    assert!(controller.selected().is_none());
}

#[test]
fn daily_staleness_boundary_is_seven_days() {
    let mut snapshot = fixture_with("Secondary Item Alpha");
    snapshot.dailies.active = vec![
        daily("seven", DailyStatus::Active, "Seven", vec![date(2026, 3, 10)]),
        daily("eight", DailyStatus::Active, "Eight", vec![date(2026, 3, 2), date(2026, 3, 9), date(2026, 3, 5)]),
    ];
    snapshot.dailies.later = vec![];
    let controller = Controller::new(snapshot, date(2026, 3, 17));
    let daily = controller.daily();
    assert!(!daily[0].stale);
    assert_eq!(daily[1].last_hit, Some(date(2026, 3, 9)));
    assert!(daily[1].stale);
}

#[test]
fn reload_clamps_selection_when_selected_id_is_gone() {
    let mut controller = test_controller();
    controller.set_screen(Screen::P1);
    controller.select_last();
    assert_eq!(controller.selection(), 3);

    let mut replacement = fixture_with("Secondary Item Alpha");
    replacement.tasks.p1 = vec![p1("p1-010", 1, "Only")];
    controller.replace_snapshot(replacement);
    assert_eq!(controller.selection(), 0);
    assert_eq!(controller.screen, Screen::P1);
}

#[test]
fn reload_follows_selected_id_to_its_new_position() {
    let mut controller = test_controller();
    controller.set_screen(Screen::P1);
    controller.select_next();
    match controller.selected() {
        Some(Selected::P1(task)) => assert_eq!(task.id, "p1-002"),
        _ => panic!("expected p1 selection"),
    }

    let mut replacement = fixture_with("Secondary Item Alpha");
    replacement.tasks.p1[3].rank = 10;
    controller.replace_snapshot(replacement);
    assert_eq!(controller.selection(), 3);
    match controller.selected() {
        Some(Selected::P1(task)) => assert_eq!(task.id, "p1-002"),
        _ => panic!("expected p1 selection"),
    }
}

#[test]
fn reload_of_same_snapshot_keeps_every_selection() {
    let mut controller = test_controller();
    controller.set_screen(Screen::Daily);
    controller.select_last();
    controller.set_screen(Screen::P3);
    controller.select_next();
    let before = controller.clone();
    controller.replace_snapshot(fixture_with("Secondary Item Alpha"));
    for screen in [Screen::Top3, Screen::P1, Screen::P2, Screen::P3, Screen::Daily, Screen::Decisions] {
        let mut a = before.clone();
        let mut b = controller.clone();
        a.set_screen(screen);
        b.set_screen(screen);
        assert_eq!(a.selection(), b.selection());
    }
}

#[test]
fn next_then_previous_returns_to_the_same_row() {
    let mut controller = test_controller();
    controller.set_screen(Screen::P1);
    for _ in 0..4 {
        let before = controller.selection();
        controller.select_next();
        controller.select_previous();
        assert_eq!(controller.selection(), before);
        controller.select_next();
    }
}

fn row_texts(row: &[Span]) -> Vec<String> {
    row.iter().map(|s| s.text.clone()).collect()
}

#[test]
fn each_screen_lists_one_row_per_entry() {
    let controller = test_controller();

    let top = screen_rows(&controller, Screen::Top3);
    assert_eq!(top.len(), 3);
    assert_eq!(row_texts(&top[0]), vec!["  #1 ", "Priority Item Alpha", " ", "todo"]);
    assert_eq!(screen_rows(&controller, Screen::P1).len(), 4);
    assert_eq!(row_texts(&screen_rows(&controller, Screen::P2)[1]), vec!["* ", "Secondary Item Alpha"]);
    assert_eq!(
        row_texts(&screen_rows(&controller, Screen::P3)[0]),
        vec!["* ", "Background Item Beta", " ", "done"]
    );
    let daily = screen_rows(&controller, Screen::Daily);
    assert_eq!(daily.len(), 3);
    assert_eq!(
        row_texts(&daily[1]),
        vec!["[A] ", "Daily Topic Stale", " ", "2026-03-01", " ", "STALE"]
    );
    assert_eq!(row_texts(&daily[2])[3], "never");
    assert_eq!(
        row_texts(&screen_rows(&controller, Screen::Decisions)[0]),
        vec!["2026-03-17 ", "Generic operating defaults"]
    );
}
