use chrono::{Datelike, NaiveDate};

use learning_computer::controller::{Controller, DetailMode, Screen};
use learning_computer::loader::{source_state_of, ParseError, ReadOutcome, Timestamp, YamlError};
use learning_computer::model::{
    Dailies, Date, SessionState, Snapshot, TaskStatus, Tasks, P2Task,
};
use learning_computer::ui::{
    apply_command, command_for_key, default_tasks_paths, detail_mode_label, display_path,
    label_for_task_status, refresh_due, resolve_default_tasks_path, screen_label,
    screen_tab_index, screen_title, select_tasks_path, time_until_refresh, Command, Key,
    KeyEffect, Tone, Viewer, REFRESH_INTERVAL_NANOS,
};

fn date(year: i32, month: u32, day: u32) -> Date {
    Date::from_days_from_ce(NaiveDate::from_ymd_opt(year, month, day).unwrap().num_days_from_ce())
        .unwrap()
}

fn p2(id: &str) -> P2Task {
    P2Task {
        id: id.to_string(),
        source_order: 1,
        status: TaskStatus::Todo,
        title: id.to_string(),
        raw_text: id.to_string(),
        links: vec![],
        notes: vec![],
        completed_at: None,
        estimate_minutes_min: None,
        estimate_minutes_max: None,
    }
}

fn snapshot(p2_ids: &[&str]) -> Snapshot {
    Snapshot {
        schema_version: 1,
        captured_on: date(2026, 3, 17),
        source_files: vec![],
        ingestion_rules: vec![],
        tasks: Tasks { p1: vec![], p2: p2_ids.iter().map(|id| p2(id)).collect(), p3: vec![] },
        dailies: Dailies { active: vec![], later: vec![] },
        session_state: SessionState { active_work: vec![], blocked: vec![], daily_logs: vec![] },
        decisions: vec![],
    }
}

fn at(nanos: i128) -> Timestamp {
    Timestamp { nanos_since_epoch: nanos }
}

#[test]
fn default_path_prefers_yml_when_both_files_exist() {
    assert_eq!(resolve_default_tasks_path(&[true, true]), Some("data/tasks.yml".to_string()));
}

#[test]
fn default_path_falls_back_to_yaml() {
    assert_eq!(resolve_default_tasks_path(&[false, true]), Some("data/tasks.yaml".to_string()));
}

#[test]
fn default_path_returns_none_when_no_default_exists() {
    assert_eq!(resolve_default_tasks_path(&[false, false]), None);
    assert_eq!(resolve_default_tasks_path(&[]), None);
}

#[test]
fn default_paths_are_tried_in_order() {
    assert_eq!(default_tasks_paths(), vec!["data/tasks.yml".to_string(), "data/tasks.yaml".to_string()]);
}

#[test]
fn argument_wins_over_environment_and_default() {
    let s = |v: &str| Some(v.to_string());
    assert_eq!(select_tasks_path(s("a.yaml"), s("e.yaml"), s("d.yaml")), Ok("a.yaml".to_string()));
    assert_eq!(select_tasks_path(None, s("e.yaml"), s("d.yaml")), Ok("e.yaml".to_string()));
    assert_eq!(select_tasks_path(None, None, s("d.yaml")), Ok("d.yaml".to_string()));
    assert_eq!(
        select_tasks_path(None, None, None),
        Err(learning_computer::loader::LoadError::MissingDefaultPaths)
    );
}

#[test]
fn key_bindings() {
    assert_eq!(command_for_key(Key::Char('q')), Command::Quit);
    assert_eq!(command_for_key(Key::Char('0')), Command::Show(Screen::Top3));
    assert_eq!(command_for_key(Key::Char('1')), Command::Show(Screen::P1));
    assert_eq!(command_for_key(Key::Char('2')), Command::Show(Screen::P2));
    assert_eq!(command_for_key(Key::Char('3')), Command::Show(Screen::P3));
    assert_eq!(command_for_key(Key::Char('4')), Command::Show(Screen::Daily));
    assert_eq!(command_for_key(Key::Char('5')), Command::Show(Screen::Decisions));
    assert_eq!(command_for_key(Key::Char('j')), Command::Next);
    assert_eq!(command_for_key(Key::Down), Command::Next);
    assert_eq!(command_for_key(Key::Char('k')), Command::Previous);
    assert_eq!(command_for_key(Key::Up), Command::Previous);
    assert_eq!(command_for_key(Key::Char('g')), Command::First);
    assert_eq!(command_for_key(Key::Home), Command::First);
    assert_eq!(command_for_key(Key::Char('G')), Command::Last);
    assert_eq!(command_for_key(Key::End), Command::Last);
    assert_eq!(command_for_key(Key::Char('d')), Command::CycleDetail);
    assert_eq!(command_for_key(Key::Char('r')), Command::Reload);
    assert_eq!(command_for_key(Key::Char('x')), Command::Ignore);
    assert_eq!(command_for_key(Key::Other), Command::Ignore);
}

#[test]
fn commands_drive_the_controller() {
    let mut controller = Controller::new(snapshot(&["a", "b", "c"]), date(2026, 3, 17));
    assert_eq!(apply_command(&mut controller, Command::Show(Screen::P2)), KeyEffect::Continue);
    assert_eq!(controller.screen, Screen::P2);
    apply_command(&mut controller, Command::Last);
    assert_eq!(controller.selection(), 2);
    apply_command(&mut controller, Command::Next);
    assert_eq!(controller.selection(), 0);
    apply_command(&mut controller, Command::Previous);
    assert_eq!(controller.selection(), 2);
    apply_command(&mut controller, Command::First);
    assert_eq!(controller.selection(), 0);
    apply_command(&mut controller, Command::CycleDetail);
    assert_eq!(controller.detail_mode, DetailMode::Item);
    assert_eq!(apply_command(&mut controller, Command::Reload), KeyEffect::Reload);
    assert_eq!(apply_command(&mut controller, Command::Quit), KeyEffect::Quit);
    assert_eq!(apply_command(&mut controller, Command::Ignore), KeyEffect::Continue);
}

#[test]
fn refresh_timing() {
    assert_eq!(time_until_refresh(0), REFRESH_INTERVAL_NANOS);
    assert_eq!(time_until_refresh(250_000_000), 500_000_000);
    assert_eq!(time_until_refresh(2_000_000_000), 0);
    assert!(!refresh_due(749_999_999));
    assert!(refresh_due(750_000_000));
}

#[test]
fn labels() {
    assert_eq!(label_for_task_status(&TaskStatus::Todo), "todo");
    assert_eq!(label_for_task_status(&TaskStatus::Done), "done");
    assert_eq!(screen_label(Screen::Top3), "Top3");
    assert_eq!(screen_label(Screen::Decisions), "Decisions");
    assert_eq!(screen_title(Screen::Top3), " Today's Top 3 ");
    assert_eq!(screen_title(Screen::Daily), " Daily ");
    assert_eq!(screen_tab_index(Screen::P3), 3);
    assert_eq!(screen_tab_index(Screen::Decisions), 5);
    assert_eq!(detail_mode_label(DetailMode::Closed), "closed");
    assert_eq!(detail_mode_label(DetailMode::Item), "item");
    assert_eq!(display_path("data/tasks.yml"), "data/tasks.yml");
}

#[test]
fn viewer_reports_each_reload_outcome() {
    let state = source_state_of(at(1), "one");
    let mut viewer = Viewer::new(snapshot(&["a", "b"]), date(2026, 3, 17), state, "10:00:00");
    assert_eq!(viewer.status().tone, Tone::Success);
    assert_eq!(viewer.status().text, "loaded 10:00:00");

    let same = source_state_of(at(2), "one");
    viewer.apply_outcome(ReadOutcome::Unchanged { source_state: same }, false, "10:00:01");
    assert_eq!(viewer.status().text, "loaded 10:00:00");
    assert_eq!(viewer.source_state(), same);
    viewer.apply_outcome(ReadOutcome::Unchanged { source_state: same }, true, "10:00:02");
    assert_eq!(viewer.status().tone, Tone::Neutral);
    assert_eq!(viewer.status().text, "no changes 10:00:02");

    viewer.handle_key(Key::Char('2'));
    viewer.handle_key(Key::Char('j'));
    let changed = source_state_of(at(3), "two");
    viewer.apply_outcome(
        ReadOutcome::Loaded { snapshot: snapshot(&["c", "b", "a"]), source_state: changed },
        false,
        "10:00:03",
    );
    assert_eq!(viewer.status().tone, Tone::Success);
    assert_eq!(viewer.status().text, "reloaded 10:00:03");
    assert_eq!(viewer.controller().selection(), 1);
    assert_eq!(viewer.controller().p2()[1].id, "b");

    let broken = source_state_of(at(4), "three");
    viewer.apply_outcome(
        ReadOutcome::Rejected {
            error: ParseError::InvalidYaml(YamlError { message: "oops".to_string() }),
            source_state: broken,
        },
        false,
        "10:00:04",
    );
    assert_eq!(viewer.status().tone, Tone::Warning);
    assert_eq!(viewer.status().text, "reload rejected: failed to parse YAML snapshot: oops");
    assert_eq!(viewer.controller().p2().len(), 3);
    assert_eq!(viewer.source_state(), broken);
    assert_eq!(viewer.handle_key(Key::Char('q')), KeyEffect::Quit);
}
