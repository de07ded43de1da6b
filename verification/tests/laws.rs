use chrono::{Datelike, NaiveDate};

use learning_computer::controller::{latest_hit, rank_order, Controller, DetailMode, Screen};
use learning_computer::model::{
    Dailies, Date, P1Task, SessionState, Snapshot, TaskStatus, Tasks,
};

fn date(year: i32, month: u32, day: u32) -> Date {
    Date::from_days_from_ce(NaiveDate::from_ymd_opt(year, month, day).unwrap().num_days_from_ce())
        .unwrap()
}

fn p1(id: &str, rank: u32) -> P1Task {
    P1Task {
        id: id.to_string(),
        rank,
        status: TaskStatus::Todo,
        title: id.to_string(),
        raw_text: id.to_string(),
        links: vec![],
        notes: vec![],
        completed_at: None,
        estimate_minutes_min: None,
        estimate_minutes_max: None,
    }
}

fn snapshot(p1s: Vec<P1Task>) -> Snapshot {
    Snapshot {
        schema_version: 1,
        captured_on: date(2026, 3, 17),
        source_files: vec![],
        ingestion_rules: vec![],
        tasks: Tasks { p1: p1s, p2: vec![], p3: vec![] },
        dailies: Dailies { active: vec![], later: vec![] },
        session_state: SessionState { active_work: vec![], blocked: vec![], daily_logs: vec![] },
        decisions: vec![],
    }
}

#[test]
fn rank_order_sorts_by_rank_then_position() {
    let tasks = vec![p1("a", 5), p1("b", 1), p1("c", 5), p1("d", 0)];
    assert_eq!(rank_order(&tasks), vec![3, 1, 0, 2]);
}

#[test]
fn top_three_is_a_prefix_of_p1() {
    let controller = Controller::new(
        snapshot(vec![p1("a", 4), p1("b", 3), p1("c", 2), p1("d", 1), p1("e", 0)]),
        date(2026, 3, 17),
    );
    let top: Vec<_> = controller.top_three().into_iter().map(|t| t.id.clone()).collect();
    let all: Vec<_> = controller.p1().into_iter().map(|t| t.id.clone()).collect();
    assert_eq!(top, all[..3].to_vec());
}

#[test]
fn cycling_detail_twice_is_identity() {
    let mut controller = Controller::new(snapshot(vec![]), date(2026, 3, 17));
    for _ in 0..2 {
        controller.cycle_detail_mode();
    }
    assert_eq!(controller.detail_mode, DetailMode::Closed);
}

#[test]
fn wrapping_at_both_ends() {
    let mut controller = Controller::new(snapshot(vec![p1("a", 1), p1("b", 2)]), date(2026, 3, 17));
    controller.set_screen(Screen::P1);
    controller.select_previous();
    assert_eq!(controller.selection(), 1);
    controller.select_next();
    assert_eq!(controller.selection(), 0);
}

#[test]
fn latest_hit_is_the_maximum() {
    assert_eq!(latest_hit(&vec![]), None);
    assert_eq!(
        latest_hit(&vec![date(2026, 3, 2), date(2026, 3, 9), date(2026, 3, 5)]),
        Some(date(2026, 3, 9))
    );
}
