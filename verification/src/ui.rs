//! The rules of the interactive viewer: key bindings, status messages, reload
//! timing, screen labels and the choice of the task file.

use vstd::prelude::*;

use crate::controller::{Controller, DetailMode, Screen};
use crate::loader::{LoadError, ReadOutcome, SourceState};
use crate::model::TaskStatus;

verus! {

/// How often the source is looked at again, in nanoseconds.
pub const REFRESH_INTERVAL_NANOS: u64 = 750_000_000;

// ---------------------------------------------------------------------------
// Keys.
// ---------------------------------------------------------------------------
/// A pressed key.
#[derive(Clone, Copy, Debug, PartialEq, Eq, Structural)]
pub enum Key {
    Char(char),
    Up,
    Down,
    Left,
    Right,
    Home,
    End,
    Other,
}

/// What a key asks for.
#[derive(Clone, Copy, Debug, PartialEq, Eq, Structural)]
pub enum Command {
    Quit,
    Show(Screen),
    Next,
    Previous,
    First,
    Last,
    CycleDetail,
    Reload,
    Ignore,
}

/// The key bindings.
pub open spec fn command_spec(key: Key) -> Command {
    match key {
        Key::Char('q') => Command::Quit,
        Key::Char('0') => Command::Show(Screen::Top3),
        Key::Char('1') => Command::Show(Screen::P1),
        Key::Char('2') => Command::Show(Screen::P2),
        Key::Char('3') => Command::Show(Screen::P3),
        Key::Char('4') => Command::Show(Screen::Daily),
        Key::Char('5') => Command::Show(Screen::Decisions),
        Key::Char('j') | Key::Down => Command::Next,
        Key::Char('k') | Key::Up => Command::Previous,
        Key::Char('g') | Key::Home => Command::First,
        Key::Char('G') | Key::End => Command::Last,
        Key::Char('d') => Command::CycleDetail,
        Key::Char('r') => Command::Reload,
        _ => Command::Ignore,
    }
}

/// The command bound to `key`.
pub fn command_for_key(key: Key) -> (r: Command)
    ensures
        r == command_spec(key),
{
    match key {
        Key::Char('q') => Command::Quit,
        Key::Char('0') => Command::Show(Screen::Top3),
        Key::Char('1') => Command::Show(Screen::P1),
        Key::Char('2') => Command::Show(Screen::P2),
        Key::Char('3') => Command::Show(Screen::P3),
        Key::Char('4') => Command::Show(Screen::Daily),
        Key::Char('5') => Command::Show(Screen::Decisions),
        Key::Char('j') | Key::Down => Command::Next,
        Key::Char('k') | Key::Up => Command::Previous,
        Key::Char('g') | Key::Home => Command::First,
        Key::Char('G') | Key::End => Command::Last,
        Key::Char('d') => Command::CycleDetail,
        Key::Char('r') => Command::Reload,
        _ => Command::Ignore,
    }
}

/// What is left for the caller after a command: nothing, quitting, or
/// reading the source again.
#[derive(Clone, Copy, Debug, PartialEq, Eq, Structural)]
pub enum KeyEffect {
    Continue,
    Quit,
    Reload,
}

/// `new` is `old` after the navigation part of `command`.
pub open spec fn applies(old: Controller, new: Controller, command: Command) -> bool {
    let s = old.spec_screen();
    let sel = old.spec_selection(s);
    let len = old.spec_len(s) as int;
    &&& new.wf()
    &&& new.same_content(&old)
    &&& match command {
        Command::Show(screen) => new.spec_screen() == screen,
        _ => new.spec_screen() == s,
    }
    &&& new.spec_detail_mode() == if command == Command::CycleDetail {
        crate::controller::cycled(old.spec_detail_mode())
    } else {
        old.spec_detail_mode()
    }
    &&& new.other_selections_kept(&old, s)
    &&& new.spec_selection(s) == match command {
        Command::Next => crate::controller::next_selection(sel, len),
        Command::Previous => crate::controller::previous_selection(sel, len),
        Command::First => 0,
        Command::Last => crate::controller::clamp_selection(len - 1, len),
        _ => sel,
    }
}

/// What is left to do after `command`.
pub open spec fn effect_of(command: Command) -> KeyEffect {
    match command {
        Command::Quit => KeyEffect::Quit,
        Command::Reload => KeyEffect::Reload,
        _ => KeyEffect::Continue,
    }
}

/// Carries out the navigation part of `command` on `controller`.
pub fn apply_command(controller: &mut Controller, command: Command) -> (r: KeyEffect)
    requires
        old(controller).wf(),
    ensures
        applies(*old(controller), *final(controller), command),
        r == effect_of(command),
{
    match command {
        Command::Quit => KeyEffect::Quit,
        Command::Show(screen) => {
            controller.set_screen(screen);
            KeyEffect::Continue
        },
        Command::Next => {
            controller.select_next();
            KeyEffect::Continue
        },
        Command::Previous => {
            controller.select_previous();
            KeyEffect::Continue
        },
        Command::First => {
            controller.select_first();
            KeyEffect::Continue
        },
        Command::Last => {
            controller.select_last();
            KeyEffect::Continue
        },
        Command::CycleDetail => {
            controller.cycle_detail_mode();
            KeyEffect::Continue
        },
        Command::Reload => KeyEffect::Reload,
        Command::Ignore => KeyEffect::Continue,
    }
}

// ---------------------------------------------------------------------------
// Reload timing.
// ---------------------------------------------------------------------------
/// How long to wait for a key before the next look at the source, given the
/// time elapsed since the last one.
pub fn time_until_refresh(elapsed_nanos: u64) -> (r: u64)
    ensures
        r == if elapsed_nanos < REFRESH_INTERVAL_NANOS {
            REFRESH_INTERVAL_NANOS - elapsed_nanos
        } else {
            0
        },
{
    REFRESH_INTERVAL_NANOS.saturating_sub(elapsed_nanos)
}

/// Whether the source is due for another look.
pub fn refresh_due(elapsed_nanos: u64) -> (r: bool)
    ensures
        r == (elapsed_nanos >= REFRESH_INTERVAL_NANOS),
{
    elapsed_nanos >= REFRESH_INTERVAL_NANOS
}

// ---------------------------------------------------------------------------
// Status line and reloads.
// ---------------------------------------------------------------------------
/// How a status message is coloured.
#[derive(Clone, Copy, Debug, PartialEq, Eq, Structural)]
pub enum Tone {
    Neutral,
    Success,
    Warning,
}

/// The message in the header.
#[derive(Clone, Debug, PartialEq, Eq)]
pub struct Status {
    pub tone: Tone,
    pub text: String,
}

/// `prefix` followed by `rest`.
fn joined(prefix: &str, rest: &str) -> (r: String)
    ensures
        r@ == prefix@ + rest@,
{
    let mut s = String::from_str(prefix);
    s.append(rest);
    s
}

/// The viewer: navigation over the last good snapshot, what is known of the
/// source, and the status message.
pub struct Viewer {
    controller: Controller,
    source_state: SourceState,
    status: Status,
}

impl Viewer {
    pub closed spec fn spec_controller(&self) -> Controller {
        self.controller
    }

    pub closed spec fn spec_source_state(&self) -> SourceState {
        self.source_state
    }

    pub closed spec fn spec_status(&self) -> Status {
        self.status
    }

    pub open spec fn wf(&self) -> bool {
        self.spec_controller().wf()
    }

    /// A viewer over a freshly loaded snapshot; `timestamp` is the wall-clock
    /// label of the load.
    pub fn new(
        snapshot: crate::model::Snapshot,
        today: crate::model::Date,
        source_state: SourceState,
        timestamp: &str,
    ) -> (r: Viewer)
        ensures
            r.wf(),
            r.spec_controller().spec_snapshot() == snapshot,
            r.spec_controller().spec_today() == today,
            r.spec_controller().spec_screen() == Screen::Top3,
            r.spec_controller().spec_detail_mode() == DetailMode::Closed,
            forall|s: Screen| #[trigger] r.spec_controller().spec_selection(s) == 0,
            r.spec_source_state() == source_state,
            r.spec_status().tone == Tone::Success,
            r.spec_status().text@ == "loaded "@ + timestamp@,
    {
        Viewer {
            controller: Controller::new(snapshot, today),
            source_state,
            status: Status { tone: Tone::Success, text: joined("loaded ", timestamp) },
        }
    }

    /// The navigation state.
    pub fn controller(&self) -> (r: &Controller)
        ensures
            *r == self.spec_controller(),
    {
        &self.controller
    }

    /// What is known of the source.
    pub fn source_state(&self) -> (r: SourceState)
        ensures
            r == self.spec_source_state(),
    {
        self.source_state
    }

    /// The status message.
    pub fn status(&self) -> (r: &Status)
        ensures
            *r == self.spec_status(),
    {
        &self.status
    }

    /// Reacts to a pressed key; see [`command_for_key`] and
    /// [`apply_command`].
    pub fn handle_key(&mut self, key: Key) -> (r: KeyEffect)
        requires
            old(self).wf(),
        ensures
            final(self).wf(),
            final(self).spec_source_state() == old(self).spec_source_state(),
            final(self).spec_status() == old(self).spec_status(),
            applies(old(self).spec_controller(), final(self).spec_controller(), command_spec(key)),
            r == effect_of(command_spec(key)),
    {
        apply_command(&mut self.controller, command_for_key(key))
    }

    /// Takes in the outcome of looking at the source again: a new snapshot
    /// replaces the shown one (selections follow their ids), a rejected one
    /// leaves it and says why; `manual` reloads also report when nothing
    /// changed. `timestamp` is the wall-clock label of the reload.
    pub fn apply_outcome(&mut self, outcome: ReadOutcome, manual: bool, timestamp: &str)
        requires
            old(self).wf(),
        ensures
            final(self).wf(),
            match outcome {
                ReadOutcome::Loaded { snapshot, source_state } => {
                    &&& final(self).spec_source_state() == source_state
                    &&& final(self).spec_controller().spec_snapshot() == snapshot
                    &&& final(self).spec_controller().spec_today() == old(
                        self,
                    ).spec_controller().spec_today()
                    &&& final(self).spec_controller().spec_screen() == old(
                        self,
                    ).spec_controller().spec_screen()
                    &&& final(self).spec_controller().spec_detail_mode() == old(
                        self,
                    ).spec_controller().spec_detail_mode()
                    &&& forall|s: Screen| #[trigger]
                        final(self).spec_controller().reload_restores(
                            &old(self).spec_controller(),
                            s,
                        )
                    &&& final(self).spec_status().tone == Tone::Success
                    &&& final(self).spec_status().text@ == "reloaded "@ + timestamp@
                },
                ReadOutcome::Unchanged { source_state } => {
                    &&& final(self).spec_source_state() == source_state
                    &&& final(self).spec_controller() == old(self).spec_controller()
                    &&& if manual {
                        &&& final(self).spec_status().tone == Tone::Neutral
                        &&& final(self).spec_status().text@ == "no changes "@ + timestamp@
                    } else {
                        final(self).spec_status() == old(self).spec_status()
                    }
                },
                ReadOutcome::Rejected { error, source_state } => {
                    &&& final(self).spec_source_state() == source_state
                    &&& final(self).spec_controller() == old(self).spec_controller()
                    &&& final(self).spec_status().tone == Tone::Warning
                    &&& final(self).spec_status().text@ == "reload rejected: "@
                        + crate::loader::parse_error_text(error)
                },
            },
    {
        match outcome {
            ReadOutcome::Loaded { snapshot, source_state } => {
                self.source_state = source_state;
                self.controller.replace_snapshot(snapshot);
                self.status = Status { tone: Tone::Success, text: joined("reloaded ", timestamp) };
            },
            ReadOutcome::Unchanged { source_state } => {
                self.source_state = source_state;
                if manual {
                    self.status = Status {
                        tone: Tone::Neutral,
                        text: joined("no changes ", timestamp),
                    };
                }
            },
            ReadOutcome::Rejected { error, source_state } => {
                self.source_state = source_state;
                let message = error.message();
                self.status = Status {
                    tone: Tone::Warning,
                    text: joined("reload rejected: ", message.as_str()),
                };
            },
        }
    }
}

// ---------------------------------------------------------------------------
// Labels.
// ---------------------------------------------------------------------------
/// The label of a task status.
pub fn label_for_task_status(status: &TaskStatus) -> (r: &'static str)
    ensures
        r@ == match *status {
            TaskStatus::Todo => "todo"@,
            TaskStatus::Done => "done"@,
        },
{
    match status {
        TaskStatus::Todo => "todo",
        TaskStatus::Done => "done",
    }
}

/// The short name of a screen.
pub fn screen_label(screen: Screen) -> (r: &'static str)
    ensures
        r@ == match screen {
            Screen::Top3 => "Top3"@,
            Screen::P1 => "P1"@,
            Screen::P2 => "P2"@,
            Screen::P3 => "P3"@,
            Screen::Daily => "Daily"@,
            Screen::Decisions => "Decisions"@,
        },
{
    match screen {
        Screen::Top3 => "Top3",
        Screen::P1 => "P1",
        Screen::P2 => "P2",
        Screen::P3 => "P3",
        Screen::Daily => "Daily",
        Screen::Decisions => "Decisions",
    }
}

/// The title of a screen's list panel.
pub fn screen_title(screen: Screen) -> (r: &'static str)
    ensures
        r@ == match screen {
            Screen::Top3 => " Today's Top 3 "@,
            Screen::P1 => " P1 "@,
            Screen::P2 => " P2 "@,
            Screen::P3 => " P3 "@,
            Screen::Daily => " Daily "@,
            Screen::Decisions => " Decisions "@,
        },
{
    match screen {
        Screen::Top3 => " Today's Top 3 ",
        Screen::P1 => " P1 ",
        Screen::P2 => " P2 ",
        Screen::P3 => " P3 ",
        Screen::Daily => " Daily ",
        Screen::Decisions => " Decisions ",
    }
}

/// The position of a screen among the tabs, which is also the digit key that
/// shows it.
pub fn screen_tab_index(screen: Screen) -> (r: usize)
    ensures
        r == match screen {
            Screen::Top3 => 0usize,
            Screen::P1 => 1,
            Screen::P2 => 2,
            Screen::P3 => 3,
            Screen::Daily => 4,
            Screen::Decisions => 5,
        },
        r < 6,
{
    match screen {
        Screen::Top3 => 0,
        Screen::P1 => 1,
        Screen::P2 => 2,
        Screen::P3 => 3,
        Screen::Daily => 4,
        Screen::Decisions => 5,
    }
}

/// The footer's name for the detail mode.
pub fn detail_mode_label(mode: DetailMode) -> (r: &'static str)
    ensures
        r@ == match mode {
            DetailMode::Closed => "closed"@,
            DetailMode::Item => "item"@,
        },
{
    match mode {
        DetailMode::Closed => "closed",
        DetailMode::Item => "item",
    }
}

/// How a source path is shown in the header.
pub fn display_path(path: &str) -> (r: String)
    ensures
        r@ == path@,
{
    path.to_owned()
}

// ---------------------------------------------------------------------------
// Choosing the task file.
// ---------------------------------------------------------------------------
/// The default task files, tried in this order, relative to the working
/// directory.
pub open spec fn default_tasks_path_spec(i: int) -> Seq<char> {
    if i == 0 {
        "data/tasks.yml"@
    } else {
        "data/tasks.yaml"@
    }
}

/// Number of default task files.
pub const DEFAULT_TASKS_PATH_COUNT: usize = 2;

/// The default task files, in the order they are tried.
pub fn default_tasks_paths() -> (r: Vec<String>)
    ensures
        r@.len() == DEFAULT_TASKS_PATH_COUNT,
        forall|i: int| 0 <= i < r@.len() ==> #[trigger] r@[i]@ == default_tasks_path_spec(i),
{
    let mut r: Vec<String> = Vec::new();
    r.push(String::from_str("data/tasks.yml"));
    r.push(String::from_str("data/tasks.yaml"));
    r
}

/// The first default task file that is a regular file, given for each
/// default (in order) whether it is one.
pub fn resolve_default_tasks_path(is_file: &[bool]) -> (r: Option<String>)
    ensures
        match r {
            Some(path) => exists|i: int|
                0 <= i < DEFAULT_TASKS_PATH_COUNT && i < is_file@.len() && is_file@[i]
                    && path@ == default_tasks_path_spec(i) && forall|j: int|
                    0 <= j < i ==> !#[trigger] is_file@[j],
            None => forall|i: int|
                0 <= i < DEFAULT_TASKS_PATH_COUNT && i < is_file@.len() ==> !#[trigger] is_file@[i],
        },
{
    let candidates = default_tasks_paths();
    let mut i: usize = 0;
    while i < candidates.len() && i < is_file.len()
        invariant
            candidates@.len() == DEFAULT_TASKS_PATH_COUNT,
            forall|k: int|
                0 <= k < candidates@.len() ==> #[trigger] candidates@[k]@ == default_tasks_path_spec(k),
            i <= DEFAULT_TASKS_PATH_COUNT,
            forall|j: int| 0 <= j < i && j < is_file@.len() ==> !#[trigger] is_file@[j],
        decreases DEFAULT_TASKS_PATH_COUNT - i,
    {
        if is_file[i] {
            let path = candidates[i].clone();
            assert(path@ == default_tasks_path_spec(i as int));
            return Some(path);
        }
        i += 1;
    }
    None
}

/// The task file to show: the first command-line argument, else the path in
/// the environment, else the first default that exists.
pub fn select_tasks_path(
    argument: Option<String>,
    environment: Option<String>,
    default: Option<String>,
) -> (r: Result<String, LoadError>)
    ensures
        r == match (argument, environment, default) {
            (Some(a), _, _) => Ok(a),
            (None, Some(e), _) => Ok(e),
            (None, None, Some(d)) => Ok(d),
            (None, None, None) => Err(LoadError::MissingDefaultPaths),
        },
{
    match argument {
        Some(a) => Ok(a),
        None => match environment {
            Some(e) => Ok(e),
            None => match default {
                Some(d) => Ok(d),
                None => Err(LoadError::MissingDefaultPaths),
            },
        },
    }
}

} // verus!
