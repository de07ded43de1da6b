//! Navigation state over a snapshot: which screen is shown, which row of each
//! screen is selected, and the views derived once per snapshot (P1 tasks in
//! rank order, the top three of them, and the daily topics with their last
//! hit and staleness).

use vstd::prelude::*;

use crate::model::{DailyTask, Date, Decision, P1Task, P2Task, P3Task, Snapshot};

verus! {

/// How many P1 tasks the top-three screen shows.
pub const TOP_THREE_LIMIT: usize = 3;

/// A daily topic whose last hit lies more than this many days back is stale.
pub const DAILY_STALE_DAYS: i64 = 7;

#[derive(Clone, Copy, Debug, PartialEq, Eq, Structural)]
pub enum Screen {
    Top3,
    P1,
    P2,
    P3,
    Daily,
    Decisions,
}

#[derive(Clone, Copy, Debug, PartialEq, Eq, Structural)]
pub enum DetailMode {
    Closed,
    Item,
}

#[derive(Clone, Copy, Debug, PartialEq, Eq, Structural)]
pub enum DailyBucket {
    Active,
    Later,
}

/// A daily topic as the daily screen shows it.
#[derive(Clone, Copy, Debug, PartialEq, Eq)]
pub struct DailyEntry<'a> {
    pub bucket: DailyBucket,
    pub task: &'a DailyTask,
    pub last_hit: Option<Date>,
    pub stale: bool,
}

/// The row under the cursor, whatever screen it belongs to.
#[derive(Clone, Copy, Debug, PartialEq, Eq)]
pub enum Selected<'a> {
    P1(&'a P1Task),
    P2(&'a P2Task),
    P3(&'a P3Task),
    Daily(DailyEntry<'a>),
    Decision(&'a Decision),
}

/// The mathematical content of a [`DailyEntry`].
pub struct DailyEntryView {
    pub bucket: DailyBucket,
    pub task: DailyTask,
    pub last_hit: Option<Date>,
    pub stale: bool,
}

/// The mathematical content of a [`Selected`].
pub enum SelectedView {
    P1(P1Task),
    P2(P2Task),
    P3(P3Task),
    Daily(DailyEntryView),
    Decision(Decision),
}

impl<'a> View for DailyEntry<'a> {
    type V = DailyEntryView;

    open spec fn view(&self) -> DailyEntryView {
        DailyEntryView {
            bucket: self.bucket,
            task: *self.task,
            last_hit: self.last_hit,
            stale: self.stale,
        }
    }
}

impl<'a> View for Selected<'a> {
    type V = SelectedView;

    open spec fn view(&self) -> SelectedView {
        match *self {
            Selected::P1(task) => SelectedView::P1(*task),
            Selected::P2(task) => SelectedView::P2(*task),
            Selected::P3(task) => SelectedView::P3(*task),
            Selected::Daily(entry) => SelectedView::Daily(entry@),
            Selected::Decision(decision) => SelectedView::Decision(*decision),
        }
    }
}

/// The view of an optional selection.
pub open spec fn selected_view(selected: Option<Selected<'_>>) -> Option<SelectedView> {
    match selected {
        Some(s) => Some(s@),
        None => None,
    }
}

// ---------------------------------------------------------------------------
// What the screens show, as functions of the snapshot and the current day.
// ---------------------------------------------------------------------------
/// P1 task `a` comes before P1 task `b`: lower rank first, and for equal
/// ranks the one written first in the snapshot.
pub open spec fn rank_before(p1: Seq<P1Task>, a: usize, b: usize) -> bool {
    ||| p1[a as int].rank < p1[b as int].rank
    ||| (p1[a as int].rank == p1[b as int].rank && a < b)
}

/// `order` lists the positions of all P1 tasks, each once, sorted by rank,
/// ties kept in snapshot order.
pub open spec fn is_rank_order(p1: Seq<P1Task>, order: Seq<usize>) -> bool {
    &&& order.len() == p1.len()
    &&& forall|i: int| 0 <= i < order.len() ==> #[trigger] order[i] < p1.len()
    &&& forall|i: int, j: int|
        0 <= i < j < order.len() ==> rank_before(p1, #[trigger] order[i], #[trigger] order[j])
}

/// The latest of the given dates, if there is any.
pub open spec fn latest_date(dates: Seq<Date>) -> Option<Date>
    decreases dates.len(),
{
    if dates.len() == 0 {
        None
    } else {
        let last = dates.last();
        match latest_date(dates.drop_last()) {
            Some(d) => if last.day_number() <= d.day_number() {
                Some(d)
            } else {
                Some(last)
            },
            None => Some(last),
        }
    }
}

/// A topic is stale when it was never hit, or last hit more than
/// `DAILY_STALE_DAYS` days before `today`.
pub open spec fn is_stale(today: Date, last_hit: Option<Date>) -> bool {
    match last_hit {
        Some(d) => today.day_number() - d.day_number() > DAILY_STALE_DAYS,
        None => true,
    }
}

/// Number of rows of each screen.
pub open spec fn screen_len(snapshot: Snapshot, screen: Screen) -> nat {
    match screen {
        Screen::Top3 => if snapshot.tasks.p1@.len() < TOP_THREE_LIMIT {
            snapshot.tasks.p1@.len()
        } else {
            TOP_THREE_LIMIT as nat
        },
        Screen::P1 => snapshot.tasks.p1@.len(),
        Screen::P2 => snapshot.tasks.p2@.len(),
        Screen::P3 => snapshot.tasks.p3@.len(),
        Screen::Daily => snapshot.dailies.active@.len() + snapshot.dailies.later@.len(),
        Screen::Decisions => snapshot.decisions@.len(),
    }
}

/// Row `i` of the daily screen: the active topics first, then the later ones.
pub open spec fn daily_entry_view(snapshot: Snapshot, today: Date, i: int) -> DailyEntryView {
    let active = snapshot.dailies.active@;
    let task = if i < active.len() {
        active[i]
    } else {
        snapshot.dailies.later@[i - active.len()]
    };
    let last_hit = latest_date(task.hit_dates@);
    DailyEntryView {
        bucket: if i < active.len() {
            DailyBucket::Active
        } else {
            DailyBucket::Later
        },
        task,
        last_hit,
        stale: is_stale(today, last_hit),
    }
}

/// Row `i` of `screen`, where `order` is the rank order of the P1 tasks.
pub open spec fn entry_view(
    snapshot: Snapshot,
    today: Date,
    order: Seq<usize>,
    screen: Screen,
    i: int,
) -> Option<SelectedView> {
    if 0 <= i < screen_len(snapshot, screen) {
        Some(
            match screen {
                Screen::Top3 => SelectedView::P1(snapshot.tasks.p1@[order[i] as int]),
                Screen::P1 => SelectedView::P1(snapshot.tasks.p1@[order[i] as int]),
                Screen::P2 => SelectedView::P2(snapshot.tasks.p2@[i]),
                Screen::P3 => SelectedView::P3(snapshot.tasks.p3@[i]),
                Screen::Daily => SelectedView::Daily(daily_entry_view(snapshot, today, i)),
                Screen::Decisions => SelectedView::Decision(snapshot.decisions@[i]),
            },
        )
    } else {
        None
    }
}

/// The stable id of a row.
pub open spec fn view_id(v: SelectedView) -> Seq<char> {
    match v {
        SelectedView::P1(task) => task.id@,
        SelectedView::P2(task) => task.id@,
        SelectedView::P3(task) => task.id@,
        SelectedView::Daily(entry) => entry.task.id@,
        SelectedView::Decision(decision) => decision.id@,
    }
}

/// The id of row `i` of `screen`, if there is such a row.
pub open spec fn entry_id(
    snapshot: Snapshot,
    today: Date,
    order: Seq<usize>,
    screen: Screen,
    i: int,
) -> Option<Seq<char>> {
    match entry_view(snapshot, today, order, screen, i) {
        Some(v) => Some(view_id(v)),
        None => None,
    }
}

/// The row below `selection` among `len` rows, wrapping to the first.
pub open spec fn next_selection(selection: int, len: int) -> int {
    if len > 0 {
        (selection + 1) % len
    } else {
        selection
    }
}

/// The row above `selection` among `len` rows, wrapping to the last.
pub open spec fn previous_selection(selection: int, len: int) -> int {
    if len <= 0 {
        selection
    } else if selection == 0 {
        len - 1
    } else {
        selection - 1
    }
}

/// The detail mode after one press of the detail key.
pub open spec fn cycled(mode: DetailMode) -> DetailMode {
    match mode {
        DetailMode::Closed => DetailMode::Item,
        DetailMode::Item => DetailMode::Closed,
    }
}

/// A stored selection brought back into `0..len` (0 when there are no rows).
pub open spec fn clamp_selection(selection: int, len: int) -> int {
    if len <= 0 {
        0
    } else if selection < len {
        selection
    } else {
        len - 1
    }
}

/// After a reload, `selection` is where the row with id `saved_id` now is
/// (its first occurrence); when there was no selected row, or the id is gone,
/// it is the previous selection clamped to the new rows.
pub open spec fn restores(
    snapshot: Snapshot,
    today: Date,
    order: Seq<usize>,
    screen: Screen,
    saved_id: Option<Seq<char>>,
    previous: int,
    selection: int,
) -> bool {
    let len = screen_len(snapshot, screen);
    if saved_id is Some && exists|i: int|
        0 <= i < len && #[trigger] entry_id(snapshot, today, order, screen, i) == saved_id {
        &&& 0 <= selection < len
        &&& entry_id(snapshot, today, order, screen, selection) == saved_id
        &&& forall|j: int|
            0 <= j < selection ==> #[trigger] entry_id(snapshot, today, order, screen, j)
                != saved_id
    } else {
        selection == clamp_selection(previous, len as int)
    }
}

// ---------------------------------------------------------------------------
// Per-screen selections.
// ---------------------------------------------------------------------------
/// The selected row of each screen.
#[derive(Clone, Copy, Debug, PartialEq, Eq, Structural)]
pub struct Selections {
    pub top3: usize,
    pub p1: usize,
    pub p2: usize,
    pub p3: usize,
    pub daily: usize,
    pub decisions: usize,
}

impl Selections {
    pub open spec fn spec_at(self, screen: Screen) -> usize {
        match screen {
            Screen::Top3 => self.top3,
            Screen::P1 => self.p1,
            Screen::P2 => self.p2,
            Screen::P3 => self.p3,
            Screen::Daily => self.daily,
            Screen::Decisions => self.decisions,
        }
    }

    pub open spec fn spec_set(self, screen: Screen, value: usize) -> Selections {
        match screen {
            Screen::Top3 => Selections { top3: value, ..self },
            Screen::P1 => Selections { p1: value, ..self },
            Screen::P2 => Selections { p2: value, ..self },
            Screen::P3 => Selections { p3: value, ..self },
            Screen::Daily => Selections { daily: value, ..self },
            Screen::Decisions => Selections { decisions: value, ..self },
        }
    }

    /// The selection of `screen`.
    pub fn at(&self, screen: Screen) -> (r: &usize)
        ensures
            *r == self.spec_at(screen),
    {
        match screen {
            Screen::Top3 => &self.top3,
            Screen::P1 => &self.p1,
            Screen::P2 => &self.p2,
            Screen::P3 => &self.p3,
            Screen::Daily => &self.daily,
            Screen::Decisions => &self.decisions,
        }
    }

    /// The selection of `screen`, to be changed in place; the others stay.
    pub fn at_mut(&mut self, screen: Screen) -> (r: &mut usize)
        ensures
            *r == old(self).spec_at(screen),
            *final(self) == old(self).spec_set(screen, *final(r)),
    {
        match screen {
            Screen::Top3 => &mut self.top3,
            Screen::P1 => &mut self.p1,
            Screen::P2 => &mut self.p2,
            Screen::P3 => &mut self.p3,
            Screen::Daily => &mut self.daily,
            Screen::Decisions => &mut self.decisions,
        }
    }
}

// ---------------------------------------------------------------------------
// The controller.
// ---------------------------------------------------------------------------
/// Navigation over one snapshot.
#[derive(Clone, Debug, PartialEq, Eq)]
pub struct Controller {
    snapshot: Snapshot,
    today: Date,
    pub screen: Screen,
    pub detail_mode: DetailMode,
    derived: Derived,
    selections: Selections,
}

impl Controller {
    /// The snapshot shown.
    pub closed spec fn spec_snapshot(&self) -> Snapshot {
        self.snapshot
    }

    /// The day against which staleness is judged.
    pub closed spec fn spec_today(&self) -> Date {
        self.today
    }

    /// The rank order of the P1 tasks, as derived for this snapshot.
    pub closed spec fn spec_p1_order(&self) -> Seq<usize> {
        self.derived.p1_order@
    }

    /// The screen shown.
    pub closed spec fn spec_screen(&self) -> Screen {
        self.screen
    }

    /// Whether the detail panel is open.
    pub closed spec fn spec_detail_mode(&self) -> DetailMode {
        self.detail_mode
    }

    /// The stored selection of `screen`.
    pub closed spec fn spec_selection(&self, screen: Screen) -> int {
        self.selections.spec_at(screen) as int
    }

    /// The derived views are those of the snapshot and day.
    pub closed spec fn derived_ok(&self) -> bool {
        self.derived.describes(self.snapshot, self.today)
    }

    /// Number of rows of `screen`.
    pub open spec fn spec_len(&self, screen: Screen) -> nat {
        screen_len(self.spec_snapshot(), screen)
    }

    /// Row `i` of `screen`.
    pub open spec fn spec_entry(&self, screen: Screen, i: int) -> Option<SelectedView> {
        entry_view(self.spec_snapshot(), self.spec_today(), self.spec_p1_order(), screen, i)
    }

    /// The id of row `i` of `screen`.
    pub open spec fn spec_entry_id(&self, screen: Screen, i: int) -> Option<Seq<char>> {
        entry_id(self.spec_snapshot(), self.spec_today(), self.spec_p1_order(), screen, i)
    }

    /// Every selection points at a row of its screen, or is 0 on an empty
    /// screen.
    pub open spec fn selections_in_range(&self) -> bool {
        &&& self.selection_ok(Screen::Top3)
        &&& self.selection_ok(Screen::P1)
        &&& self.selection_ok(Screen::P2)
        &&& self.selection_ok(Screen::P3)
        &&& self.selection_ok(Screen::Daily)
        &&& self.selection_ok(Screen::Decisions)
    }

    /// The selection of `screen` points at a row, or is 0 on an empty screen.
    pub open spec fn selection_ok(&self, screen: Screen) -> bool {
        0 <= self.spec_selection(screen) == clamp_selection(
            self.spec_selection(screen),
            self.spec_len(screen) as int,
        )
    }

    proof fn lemma_selection_ok(&self, screen: Screen)
        requires
            self.selections_in_range(),
        ensures
            self.selection_ok(screen),
    {
        match screen {
            Screen::Top3 => {},
            Screen::P1 => {},
            Screen::P2 => {},
            Screen::P3 => {},
            Screen::Daily => {},
            Screen::Decisions => {},
        }
    }

    /// Well-formedness: the derived views match the snapshot and every
    /// selection is in range.
    pub open spec fn wf(&self) -> bool {
        &&& self.derived_ok()
        &&& is_rank_order(self.spec_snapshot().tasks.p1@, self.spec_p1_order())
        &&& self.selections_in_range()
    }

    /// Same snapshot, day and derived views.
    pub open spec fn same_content(&self, other: &Controller) -> bool {
        &&& self.spec_snapshot() == other.spec_snapshot()
        &&& self.spec_today() == other.spec_today()
        &&& self.spec_p1_order() == other.spec_p1_order()
    }

    /// Only the selection of `screen` may differ from `other`.
    pub open spec fn other_selections_kept(&self, other: &Controller, screen: Screen) -> bool {
        forall|s: Screen|
            s != screen ==> #[trigger] self.spec_selection(s) == other.spec_selection(s)
    }

    proof fn lemma_derived(&self)
        requires
            self.derived_ok(),
        ensures
            is_rank_order(self.spec_snapshot().tasks.p1@, self.spec_p1_order()),
    {
    }

    /// A controller on the top-three screen with the detail panel closed and
    /// the first row of every screen selected.
    pub fn new(snapshot: Snapshot, today: Date) -> (r: Controller)
        ensures
            r.wf(),
            r.spec_snapshot() == snapshot,
            r.spec_today() == today,
            r.spec_screen() == Screen::Top3,
            r.spec_detail_mode() == DetailMode::Closed,
            forall|s: Screen| #[trigger] r.spec_selection(s) == 0,
    {
        let derived = Derived::build(&snapshot, today);
        let mut controller = Controller {
            snapshot,
            today,
            screen: Screen::Top3,
            detail_mode: DetailMode::Closed,
            derived,
            selections: Selections { top3: 0, p1: 0, p2: 0, p3: 0, daily: 0, decisions: 0 },
        };
        controller.repair_all_selections();
        controller
    }

    /// Shows `screen`; its stored selection is kept.
    pub fn set_screen(&mut self, screen: Screen)
        requires
            old(self).wf(),
        ensures
            final(self).wf(),
            final(self).same_content(old(self)),
            final(self).spec_screen() == screen,
            final(self).spec_detail_mode() == old(self).spec_detail_mode(),
            forall|s: Screen| #[trigger] final(self).spec_selection(s) == old(self).spec_selection(s),
    {
        self.screen = screen;
        self.repair_selection(screen);
    }

    /// Opens the detail panel when closed, closes it when open.
    pub fn cycle_detail_mode(&mut self)
        requires
            old(self).wf(),
        ensures
            final(self).wf(),
            final(self).same_content(old(self)),
            final(self).spec_screen() == old(self).spec_screen(),
            final(self).spec_detail_mode() == cycled(old(self).spec_detail_mode()),
            forall|s: Screen| #[trigger] final(self).spec_selection(s) == old(self).spec_selection(s),
    {
        self.detail_mode = match self.detail_mode {
            DetailMode::Closed => DetailMode::Item,
            DetailMode::Item => DetailMode::Closed,
        };
    }

    /// The screen shown (the `screen` field, as the contracts speak of it).
    pub fn screen(&self) -> (r: Screen)
        ensures
            r == self.spec_screen(),
    {
        self.screen
    }

    /// Whether the detail panel is open (the `detail_mode` field, as the
    /// contracts speak of it).
    pub fn detail_mode(&self) -> (r: DetailMode)
        ensures
            r == self.spec_detail_mode(),
    {
        self.detail_mode
    }

    /// The selected row of the current screen.
    pub fn selection(&self) -> (r: usize)
        ensures
            r == self.spec_selection(self.spec_screen()),
    {
        *self.selections.at(self.screen)
    }

    /// Number of rows of the current screen.
    pub fn entry_count(&self) -> (r: usize)
        requires
            self.wf(),
        ensures
            r == self.spec_len(self.spec_screen()),
    {
        self.len_for(self.screen)
    }

    /// Moves the selection one row down, wrapping from the last row to the
    /// first.
    pub fn select_next(&mut self)
        requires
            old(self).wf(),
        ensures
            final(self).wf(),
            final(self).same_content(old(self)),
            final(self).spec_screen() == old(self).spec_screen(),
            final(self).spec_detail_mode() == old(self).spec_detail_mode(),
            final(self).other_selections_kept(old(self), old(self).spec_screen()),
            final(self).spec_selection(old(self).spec_screen()) == next_selection(
                old(self).spec_selection(old(self).spec_screen()),
                old(self).spec_len(old(self).spec_screen()) as int,
            ),
    {
        proof {
            old(self).lemma_selection_ok(old(self).spec_screen());
        }
        let len = self.entry_count();
        if len > 0 {
            let selection = self.selections.at_mut(self.screen);
            *selection = (*selection + 1) % len;
        }
    }

    /// Moves the selection one row up, wrapping from the first row to the
    /// last.
    pub fn select_previous(&mut self)
        requires
            old(self).wf(),
        ensures
            final(self).wf(),
            final(self).same_content(old(self)),
            final(self).spec_screen() == old(self).spec_screen(),
            final(self).spec_detail_mode() == old(self).spec_detail_mode(),
            final(self).other_selections_kept(old(self), old(self).spec_screen()),
            final(self).spec_selection(old(self).spec_screen()) == previous_selection(
                old(self).spec_selection(old(self).spec_screen()),
                old(self).spec_len(old(self).spec_screen()) as int,
            ),
    {
        proof {
            old(self).lemma_selection_ok(old(self).spec_screen());
        }
        let len = self.entry_count();
        if len > 0 {
            let selection = self.selections.at_mut(self.screen);
            *selection = if *selection == 0 {
                len - 1
            } else {
                *selection - 1
            };
        }
    }

    /// Selects the first row of the current screen.
    pub fn select_first(&mut self)
        requires
            old(self).wf(),
        ensures
            final(self).wf(),
            final(self).same_content(old(self)),
            final(self).spec_screen() == old(self).spec_screen(),
            final(self).spec_detail_mode() == old(self).spec_detail_mode(),
            final(self).other_selections_kept(old(self), old(self).spec_screen()),
            final(self).spec_selection(old(self).spec_screen()) == 0,
    {
        proof {
            old(self).lemma_selection_ok(old(self).spec_screen());
        }
        *self.selections.at_mut(self.screen) = 0;
    }

    /// Selects the last row of the current screen (the first when it is
    /// empty).
    pub fn select_last(&mut self)
        requires
            old(self).wf(),
        ensures
            final(self).wf(),
            final(self).same_content(old(self)),
            final(self).spec_screen() == old(self).spec_screen(),
            final(self).spec_detail_mode() == old(self).spec_detail_mode(),
            final(self).other_selections_kept(old(self), old(self).spec_screen()),
            final(self).spec_selection(old(self).spec_screen()) == clamp_selection(
                old(self).spec_len(old(self).spec_screen()) - 1,
                old(self).spec_len(old(self).spec_screen()) as int,
            ),
    {
        proof {
            old(self).lemma_selection_ok(old(self).spec_screen());
        }
        let len = self.entry_count();
        *self.selections.at_mut(self.screen) = len.saturating_sub(1);
    }

    /// The top three P1 tasks, in rank order.
    pub fn top_three(&self) -> (r: Vec<&P1Task>)
        requires
            self.wf(),
        ensures
            r@.len() == self.spec_len(Screen::Top3),
            forall|i: int|
                0 <= i < r@.len() ==> self.spec_entry(Screen::Top3, i) == Some(
                    SelectedView::P1(*#[trigger] r@[i]),
                ),
    {
        let mut r: Vec<&P1Task> = Vec::new();
        let len = self.derived.top3_order.len();
        let mut i: usize = 0;
        while i < len
            invariant
                self.wf(),
                len == self.spec_len(Screen::Top3),
                i <= len,
                r@.len() == i,
                forall|j: int|
                    0 <= j < i ==> self.spec_entry(Screen::Top3, j) == Some(
                        SelectedView::P1(*#[trigger] r@[j]),
                    ),
            decreases len - i,
        {
            match self.top_three_at(i) {
                Some(task) => r.push(task),
                None => {},
            }
            i += 1;
        }
        r
    }

    /// All P1 tasks, in rank order (ties in snapshot order).
    pub fn p1(&self) -> (r: Vec<&P1Task>)
        requires
            self.wf(),
        ensures
            r@.len() == self.spec_len(Screen::P1),
            forall|i: int|
                0 <= i < r@.len() ==> self.spec_entry(Screen::P1, i) == Some(
                    SelectedView::P1(*#[trigger] r@[i]),
                ),
    {
        let mut r: Vec<&P1Task> = Vec::new();
        let len = self.derived.p1_order.len();
        let mut i: usize = 0;
        while i < len
            invariant
                self.wf(),
                len == self.spec_len(Screen::P1),
                i <= len,
                r@.len() == i,
                forall|j: int|
                    0 <= j < i ==> self.spec_entry(Screen::P1, j) == Some(
                        SelectedView::P1(*#[trigger] r@[j]),
                    ),
            decreases len - i,
        {
            match self.p1_at(i) {
                Some(task) => r.push(task),
                None => {},
            }
            i += 1;
        }
        r
    }

    /// The P2 tasks, in snapshot order.
    pub fn p2(&self) -> (r: &[P2Task])
        ensures
            r@ == self.spec_snapshot().tasks.p2@,
    {
        self.snapshot.tasks.p2.as_slice()
    }

    /// The P3 tasks, in snapshot order.
    pub fn p3(&self) -> (r: &[P3Task])
        ensures
            r@ == self.spec_snapshot().tasks.p3@,
    {
        self.snapshot.tasks.p3.as_slice()
    }

    /// The daily topics: the active ones, then the later ones, each with its
    /// last hit and staleness.
    pub fn daily(&self) -> (r: Vec<DailyEntry<'_>>)
        requires
            self.wf(),
        ensures
            r@.len() == self.spec_len(Screen::Daily),
            forall|i: int|
                0 <= i < r@.len() ==> self.spec_entry(Screen::Daily, i) == Some(
                    SelectedView::Daily(#[trigger] r@[i]@),
                ),
    {
        let mut r: Vec<DailyEntry<'_>> = Vec::new();
        let len = self.derived.daily.len();
        let mut i: usize = 0;
        while i < len
            invariant
                self.wf(),
                len == self.spec_len(Screen::Daily),
                i <= len,
                r@.len() == i,
                forall|j: int|
                    0 <= j < i ==> self.spec_entry(Screen::Daily, j) == Some(
                        SelectedView::Daily(#[trigger] r@[j]@),
                    ),
            decreases len - i,
        {
            match self.daily_at(i) {
                Some(entry) => r.push(entry),
                None => {},
            }
            i += 1;
        }
        r
    }

    /// The row under the cursor of the current screen, if the screen has rows.
    pub fn selected(&self) -> (r: Option<Selected<'_>>)
        requires
            self.wf(),
        ensures
            selected_view(r) == self.spec_entry(
                self.spec_screen(),
                self.spec_selection(self.spec_screen()),
            ),
    {
        self.entry_at(self.screen, self.selection())
    }

    /// The decisions, in snapshot order.
    pub fn decisions(&self) -> (r: &[Decision])
        ensures
            r@ == self.spec_snapshot().decisions@,
    {
        self.snapshot.decisions.as_slice()
    }

    /// The day the snapshot was captured.
    pub fn captured_on(&self) -> (r: Date)
        ensures
            r == self.spec_snapshot().captured_on,
    {
        self.snapshot.captured_on
    }

    /// Row `index` of `screen`.
    pub fn entry_at(&self, screen: Screen, index: usize) -> (r: Option<Selected<'_>>)
        requires
            self.derived_ok(),
        ensures
            selected_view(r) == self.spec_entry(screen, index as int),
    {
        match screen {
            Screen::Top3 => match self.top_three_at(index) {
                Some(task) => Some(Selected::P1(task)),
                None => None,
            },
            Screen::P1 => match self.p1_at(index) {
                Some(task) => Some(Selected::P1(task)),
                None => None,
            },
            Screen::P2 => if index < self.snapshot.tasks.p2.len() {
                Some(Selected::P2(&self.snapshot.tasks.p2[index]))
            } else {
                None
            },
            Screen::P3 => if index < self.snapshot.tasks.p3.len() {
                Some(Selected::P3(&self.snapshot.tasks.p3[index]))
            } else {
                None
            },
            Screen::Daily => match self.daily_at(index) {
                Some(entry) => Some(Selected::Daily(entry)),
                None => None,
            },
            Screen::Decisions => if index < self.snapshot.decisions.len() {
                Some(Selected::Decision(&self.snapshot.decisions[index]))
            } else {
                None
            },
        }
    }

    fn top_three_at(&self, index: usize) -> (r: Option<&P1Task>)
        requires
            self.derived_ok(),
        ensures
            match r {
                Some(task) => self.spec_entry(Screen::Top3, index as int) == Some(
                    SelectedView::P1(*task),
                ),
                None => self.spec_entry(Screen::Top3, index as int) is None,
            },
    {
        if index < self.derived.top3_order.len() {
            let task_index = self.derived.top3_order[index];
            Some(&self.snapshot.tasks.p1[task_index])
        } else {
            None
        }
    }

    fn p1_at(&self, index: usize) -> (r: Option<&P1Task>)
        requires
            self.derived_ok(),
        ensures
            match r {
                Some(task) => self.spec_entry(Screen::P1, index as int) == Some(
                    SelectedView::P1(*task),
                ),
                None => self.spec_entry(Screen::P1, index as int) is None,
            },
    {
        if index < self.derived.p1_order.len() {
            let task_index = self.derived.p1_order[index];
            Some(&self.snapshot.tasks.p1[task_index])
        } else {
            None
        }
    }

    fn daily_at(&self, index: usize) -> (r: Option<DailyEntry<'_>>)
        requires
            self.derived_ok(),
        ensures
            match r {
                Some(entry) => self.spec_entry(Screen::Daily, index as int) == Some(
                    SelectedView::Daily(entry@),
                ),
                None => self.spec_entry(Screen::Daily, index as int) is None,
            },
    {
        if index < self.derived.daily.len() {
            self.daily_from(&self.derived.daily[index])
        } else {
            None
        }
    }

    /// The daily row that `entry` describes, if its task exists.
    fn daily_from(&self, entry: &DailyDerived) -> (r: Option<DailyEntry<'_>>)
        ensures
            match r {
                Some(e) => {
                    &&& e.bucket == entry.bucket
                    &&& e.last_hit == entry.last_hit
                    &&& e.stale == entry.stale
                    &&& *e.task == match entry.bucket {
                        DailyBucket::Active => self.spec_snapshot().dailies.active@[entry.task_index as int],
                        DailyBucket::Later => self.spec_snapshot().dailies.later@[entry.task_index as int],
                    }
                },
                None => entry.task_index >= match entry.bucket {
                    DailyBucket::Active => self.spec_snapshot().dailies.active@.len(),
                    DailyBucket::Later => self.spec_snapshot().dailies.later@.len(),
                },
            },
    {
        let tasks = match entry.bucket {
            DailyBucket::Active => &self.snapshot.dailies.active,
            DailyBucket::Later => &self.snapshot.dailies.later,
        };
        if entry.task_index < tasks.len() {
            Some(
                DailyEntry {
                    bucket: entry.bucket,
                    task: &tasks[entry.task_index],
                    last_hit: entry.last_hit,
                    stale: entry.stale,
                },
            )
        } else {
            None
        }
    }

    /// After this controller replaced the snapshot of `old`, the selection of
    /// `screen` follows the id that was selected before.
    pub open spec fn reload_restores(&self, old: &Controller, screen: Screen) -> bool {
        restores(
            self.spec_snapshot(),
            self.spec_today(),
            self.spec_p1_order(),
            screen,
            old.spec_entry_id(screen, old.spec_selection(screen)),
            old.spec_selection(screen),
            self.spec_selection(screen),
        )
    }

    /// Shows `snapshot` in place of the current one. Every screen keeps the
    /// row it had selected, found again by its id; when that row is gone the
    /// selection stays where it was, brought back into range.
    pub fn replace_snapshot(&mut self, snapshot: Snapshot)
        requires
            old(self).wf(),
        ensures
            final(self).wf(),
            final(self).spec_snapshot() == snapshot,
            final(self).spec_today() == old(self).spec_today(),
            final(self).spec_screen() == old(self).spec_screen(),
            final(self).spec_detail_mode() == old(self).spec_detail_mode(),
            forall|s: Screen| #[trigger] final(self).reload_restores(old(self), s),
    {
        let restore_state = SelectionRestoreState {
            top3_selected_id: self.id_for(Screen::Top3),
            p1_selected_id: self.id_for(Screen::P1),
            p2_selected_id: self.id_for(Screen::P2),
            p3_selected_id: self.id_for(Screen::P3),
            daily_selected_id: self.id_for(Screen::Daily),
            decisions_selected_id: self.id_for(Screen::Decisions),
        };
        let previous = self.selections;

        self.snapshot = snapshot;
        self.derived = Derived::build(&self.snapshot, self.today);
        let selections = Selections {
            top3: self.restore(Screen::Top3, &restore_state.top3_selected_id, previous.top3),
            p1: self.restore(Screen::P1, &restore_state.p1_selected_id, previous.p1),
            p2: self.restore(Screen::P2, &restore_state.p2_selected_id, previous.p2),
            p3: self.restore(Screen::P3, &restore_state.p3_selected_id, previous.p3),
            daily: self.restore(Screen::Daily, &restore_state.daily_selected_id, previous.daily),
            decisions: self.restore(
                Screen::Decisions,
                &restore_state.decisions_selected_id,
                previous.decisions,
            ),
        };
        self.selections = selections;
        proof {
            assert forall|s: Screen| #[trigger] final(self).reload_restores(old(self), s) by {
                match s {
                    Screen::Top3 => {},
                    Screen::P1 => {},
                    Screen::P2 => {},
                    Screen::P3 => {},
                    Screen::Daily => {},
                    Screen::Decisions => {},
                }
            }
            self.lemma_restored_in_range(old(self), Screen::Top3);
            self.lemma_restored_in_range(old(self), Screen::P1);
            self.lemma_restored_in_range(old(self), Screen::P2);
            self.lemma_restored_in_range(old(self), Screen::P3);
            self.lemma_restored_in_range(old(self), Screen::Daily);
            self.lemma_restored_in_range(old(self), Screen::Decisions);
            self.lemma_derived();
        }
    }

    proof fn lemma_restored_in_range(&self, old: &Controller, screen: Screen)
        requires
            self.reload_restores(old, screen),
        ensures
            self.selection_ok(screen),
    {
    }

    /// The id of the row selected on `screen`, if it has one.
    fn id_for(&self, screen: Screen) -> (r: Option<String>)
        requires
            self.wf(),
        ensures
            string_view(r) == self.spec_entry_id(screen, self.spec_selection(screen)),
    {
        match self.entry_at(screen, *self.selections.at(screen)) {
            Some(selected) => Some(selected_id(selected)),
            None => None,
        }
    }

    /// The row of `screen` to select after a reload: the first with id
    /// `saved_id`, or the `previous` selection brought back into range when
    /// there is no such row.
    fn restore(&self, screen: Screen, saved_id: &Option<String>, previous: usize) -> (r: usize)
        requires
            self.derived_ok(),
        ensures
            restores(
                self.spec_snapshot(),
                self.spec_today(),
                self.spec_p1_order(),
                screen,
                string_view(*saved_id),
                previous as int,
                r as int,
            ),
    {
        let found = match saved_id {
            Some(id) => self.index_for(screen, id),
            None => None,
        };
        match found {
            Some(index) => {
                proof {
                    assert(entry_id(
                        self.spec_snapshot(),
                        self.spec_today(),
                        self.spec_p1_order(),
                        screen,
                        index as int,
                    ) == string_view(*saved_id));
                    assert forall|j: int| 0 <= j < index implies #[trigger] entry_id(
                        self.spec_snapshot(),
                        self.spec_today(),
                        self.spec_p1_order(),
                        screen,
                        j,
                    ) != string_view(*saved_id) by {
                        assert(self.spec_entry_id(screen, j) != string_view(*saved_id));
                    }
                }
                index
            },
            None => {
                proof {
                    if saved_id is Some {
                        let id = saved_id->0;
                        assert forall|i: int|
                            0 <= i < self.spec_len(screen) implies #[trigger] entry_id(
                            self.spec_snapshot(),
                            self.spec_today(),
                            self.spec_p1_order(),
                            screen,
                            i,
                        ) != string_view(*saved_id) by {
                            assert(self.spec_entry_id(screen, i) != Some(id@));
                        }
                    }
                }
                let len = self.len_for(screen);
                if len == 0 {
                    0
                } else if previous < len - 1 {
                    previous
                } else {
                    len - 1
                }
            },
        }
    }

    /// The first row of `screen` with id `id`.
    fn index_for(&self, screen: Screen, id: &String) -> (r: Option<usize>)
        requires
            self.derived_ok(),
        ensures
            match r {
                Some(i) => {
                    &&& i < self.spec_len(screen)
                    &&& self.spec_entry_id(screen, i as int) == Some(id@)
                    &&& forall|j: int|
                        0 <= j < i ==> #[trigger] self.spec_entry_id(screen, j) != Some(id@)
                },
                None => forall|j: int|
                    0 <= j < self.spec_len(screen) ==> #[trigger] self.spec_entry_id(screen, j)
                        != Some(id@),
            },
    {
        let len = self.len_for(screen);
        let mut index: usize = 0;
        while index < len
            invariant
                self.derived_ok(),
                len == self.spec_len(screen),
                index <= len,
                forall|j: int|
                    0 <= j < index ==> #[trigger] self.spec_entry_id(screen, j) != Some(id@),
            decreases len - index,
        {
            match self.entry_at(screen, index) {
                Some(selected) => {
                    if *selected_id_ref(selected) == *id {
                        return Some(index);
                    }
                },
                None => {},
            }
            index += 1;
        }
        None
    }

    /// Number of rows of `screen`.
    pub fn len_for(&self, screen: Screen) -> (r: usize)
        requires
            self.derived_ok(),
        ensures
            r == self.spec_len(screen),
    {
        match screen {
            Screen::Top3 => self.derived.top3_order.len(),
            Screen::P1 => self.derived.p1_order.len(),
            Screen::P2 => self.snapshot.tasks.p2.len(),
            Screen::P3 => self.snapshot.tasks.p3.len(),
            Screen::Daily => self.derived.daily.len(),
            Screen::Decisions => self.snapshot.decisions.len(),
        }
    }

    /// Brings the selection of `screen` back into range.
    fn repair_selection(&mut self, screen: Screen)
        requires
            old(self).derived_ok(),
        ensures
            final(self).derived_ok(),
            final(self).same_content(old(self)),
            final(self).spec_screen() == old(self).spec_screen(),
            final(self).spec_detail_mode() == old(self).spec_detail_mode(),
            final(self).other_selections_kept(old(self), screen),
            final(self).spec_selection(screen) == clamp_selection(
                old(self).spec_selection(screen),
                old(self).spec_len(screen) as int,
            ),
    {
        let len = self.len_for(screen);
        let selection = self.selections.at_mut(screen);
        *selection = if len == 0 {
            0
        } else if *selection < len - 1 {
            *selection
        } else {
            len - 1
        };
    }

    fn repair_all_selections(&mut self)
        requires
            old(self).derived_ok(),
        ensures
            final(self).wf(),
            final(self).same_content(old(self)),
            final(self).spec_screen() == old(self).spec_screen(),
            final(self).spec_detail_mode() == old(self).spec_detail_mode(),
            forall|s: Screen| #[trigger]
                final(self).spec_selection(s) == clamp_selection(
                    old(self).spec_selection(s),
                    old(self).spec_len(s) as int,
                ),
    {
        self.repair_selection(Screen::Top3);
        self.repair_selection(Screen::P1);
        self.repair_selection(Screen::P2);
        self.repair_selection(Screen::P3);
        self.repair_selection(Screen::Daily);
        self.repair_selection(Screen::Decisions);
        proof {
            self.lemma_derived();
            assert forall|s: Screen| #[trigger]
                self.spec_selection(s) == clamp_selection(
                    old(self).spec_selection(s),
                    old(self).spec_len(s) as int,
                ) by {
                match s {
                    Screen::Top3 => {},
                    Screen::P1 => {},
                    Screen::P2 => {},
                    Screen::P3 => {},
                    Screen::Daily => {},
                    Screen::Decisions => {},
                }
            }
        }
    }
}

// ---------------------------------------------------------------------------
// Views derived once per snapshot.
// ---------------------------------------------------------------------------
/// One row of the daily screen, by position in its bucket.
#[derive(Clone, Copy, Debug, PartialEq, Eq, Structural)]
pub struct DailyDerived {
    pub bucket: DailyBucket,
    pub task_index: usize,
    pub last_hit: Option<Date>,
    pub stale: bool,
}

/// The rank order of the P1 tasks, its first three, and the daily rows.
#[derive(Clone, Debug, PartialEq, Eq)]
pub struct Derived {
    pub p1_order: Vec<usize>,
    pub top3_order: Vec<usize>,
    pub daily: Vec<DailyDerived>,
}

impl Derived {
    /// These derived views are those of `snapshot` on day `today`.
    pub open spec fn describes(self, snapshot: Snapshot, today: Date) -> bool {
        let active = snapshot.dailies.active@;
        &&& is_rank_order(snapshot.tasks.p1@, self.p1_order@)
        &&& self.top3_order@ == self.p1_order@.take(screen_len(snapshot, Screen::Top3) as int)
        &&& self.daily@.len() == screen_len(snapshot, Screen::Daily)
        &&& forall|i: int|
            0 <= i < self.daily@.len() ==> {
                let v = daily_entry_view(snapshot, today, i);
                let d = #[trigger] self.daily@[i];
                &&& d.bucket == v.bucket
                &&& d.task_index == (if i < active.len() {
                    i
                } else {
                    i - active.len()
                })
                &&& d.last_hit == v.last_hit
                &&& d.stale == v.stale
            }
    }

    fn build(snapshot: &Snapshot, today: Date) -> (r: Derived)
        ensures
            r.describes(*snapshot, today),
    {
        let p1_order = rank_order(&snapshot.tasks.p1);
        let top3_len = if p1_order.len() < TOP_THREE_LIMIT {
            p1_order.len()
        } else {
            TOP_THREE_LIMIT
        };
        let mut top3_order: Vec<usize> = Vec::new();
        let mut k: usize = 0;
        while k < top3_len
            invariant
                top3_len <= p1_order@.len(),
                k <= top3_len,
                top3_order@ == p1_order@.take(k as int),
            decreases top3_len - k,
        {
            top3_order.push(p1_order[k]);
            k += 1;
            assert(top3_order@ =~= p1_order@.take(k as int));
        }

        let active = &snapshot.dailies.active;
        let later = &snapshot.dailies.later;
        let mut daily: Vec<DailyDerived> = Vec::new();
        let mut i: usize = 0;
        while i < active.len()
            invariant
                i <= active@.len(),
                daily@.len() == i,
                active == &snapshot.dailies.active,
                forall|j: int|
                    0 <= j < i ==> {
                        let v = daily_entry_view(*snapshot, today, j);
                        let d = #[trigger] daily@[j];
                        &&& d.bucket == v.bucket
                        &&& d.task_index == j
                        &&& d.last_hit == v.last_hit
                        &&& d.stale == v.stale
                    },
            decreases active@.len() - i,
        {
            daily.push(DailyDerived::new(DailyBucket::Active, i, &active[i], today));
            i += 1;
        }
        let a = active.len();
        let mut i: usize = 0;
        while i < later.len()
            invariant
                i <= later@.len(),
                a == snapshot.dailies.active@.len(),
                later == &snapshot.dailies.later,
                daily@.len() == a + i,
                forall|j: int|
                    0 <= j < a + i ==> {
                        let v = daily_entry_view(*snapshot, today, j);
                        let d = #[trigger] daily@[j];
                        &&& d.bucket == v.bucket
                        &&& d.task_index == (if j < a {
                            j
                        } else {
                            j - a
                        })
                        &&& d.last_hit == v.last_hit
                        &&& d.stale == v.stale
                    },
            decreases later@.len() - i,
        {
            daily.push(DailyDerived::new(DailyBucket::Later, i, &later[i], today));
            i += 1;
        }
        Derived { p1_order, top3_order, daily }
    }
}

impl DailyDerived {
    fn new(bucket: DailyBucket, task_index: usize, task: &DailyTask, today: Date) -> (r:
        DailyDerived)
        ensures
            r.bucket == bucket,
            r.task_index == task_index,
            r.last_hit == latest_date(task.hit_dates@),
            r.stale == is_stale(today, r.last_hit),
    {
        let last_hit = latest_hit(&task.hit_dates);
        let stale = match last_hit {
            Some(d) => today.days_since(&d) > DAILY_STALE_DAYS,
            None => true,
        };
        DailyDerived { bucket, task_index, last_hit, stale }
    }
}

/// The latest of `dates`, if there is any.
pub fn latest_hit(dates: &Vec<Date>) -> (r: Option<Date>)
    ensures
        r == latest_date(dates@),
{
    let mut last: Option<Date> = None;
    let mut i: usize = 0;
    while i < dates.len()
        invariant
            i <= dates@.len(),
            last == latest_date(dates@.take(i as int)),
        decreases dates@.len() - i,
    {
        let d = dates[i];
        assert(dates@.take(i + 1).drop_last() =~= dates@.take(i as int));
        last = match last {
            Some(m) => if d.days_from_ce() <= m.days_from_ce() {
                Some(m)
            } else {
                Some(d)
            },
            None => Some(d),
        };
        i += 1;
    }
    assert(dates@.take(dates@.len() as int) =~= dates@);
    last
}

/// The positions of the P1 tasks sorted by rank, ties in snapshot order.
pub fn rank_order(p1: &Vec<P1Task>) -> (order: Vec<usize>)
    ensures
        is_rank_order(p1@, order@),
{
    let n = p1.len();
    let mut order: Vec<usize> = Vec::new();
    let mut k: usize = 0;
    while k < n
        invariant
            n == p1@.len(),
            k <= n,
            order@.len() == k,
            forall|i: int| 0 <= i < k ==> #[trigger] order@[i] < k,
            forall|i: int, j: int|
                0 <= i < j < k ==> rank_before(p1@, #[trigger] order@[i], #[trigger] order@[j]),
        decreases n - k,
    {
        let rank = p1[k].rank;
        let mut pos: usize = 0;
        while pos < order.len() && p1[order[pos]].rank <= rank
            invariant
                n == p1@.len(),
                k < n,
                order@.len() == k,
                pos <= k,
                rank == p1@[k as int].rank,
                forall|i: int| 0 <= i < k ==> #[trigger] order@[i] < k,
                forall|i: int| 0 <= i < pos ==> p1@[#[trigger] order@[i] as int].rank <= rank,
            decreases k - pos,
        {
            pos += 1;
        }
        let ghost before = order@;
        assert forall|i: int| pos <= i < k implies rank < p1@[#[trigger] before[i] as int].rank by {
            if i > pos {
                assert(rank_before(p1@, before[pos as int], before[i]));
            }
        }
        order.insert(pos, k);
        assert forall|i: int, j: int|
            0 <= i < j < k + 1 implies rank_before(p1@, #[trigger] order@[i], #[trigger] order@[j]) by {
            if j < pos {
                assert(order@[i] == before[i] && order@[j] == before[j]);
            } else if j == pos {
                assert(order@[i] == before[i]);
            } else if i < pos {
                assert(order@[i] == before[i] && order@[j] == before[j - 1]);
            } else if i == pos {
                assert(order@[j] == before[j - 1]);
            } else {
                assert(order@[i] == before[i - 1] && order@[j] == before[j - 1]);
            }
        }
        k += 1;
    }
    order
}

/// The view of an optional string.
pub open spec fn string_view(s: Option<String>) -> Option<Seq<char>> {
    match s {
        Some(s) => Some(s@),
        None => None,
    }
}

/// The id of a row.
fn selected_id_ref<'a>(selected: Selected<'a>) -> (r: &'a String)
    ensures
        r@ == view_id(selected@),
{
    match selected {
        Selected::P1(task) => &task.id,
        Selected::P2(task) => &task.id,
        Selected::P3(task) => &task.id,
        Selected::Daily(entry) => &entry.task.id,
        Selected::Decision(decision) => &decision.id,
    }
}

/// A copy of the id of a row.
fn selected_id(selected: Selected<'_>) -> (r: String)
    ensures
        r@ == view_id(selected@),
{
    selected_id_ref(selected).clone()
}

/// The ids selected on each screen before a reload.
struct SelectionRestoreState {
    top3_selected_id: Option<String>,
    p1_selected_id: Option<String>,
    p2_selected_id: Option<String>,
    p3_selected_id: Option<String>,
    daily_selected_id: Option<String>,
    decisions_selected_id: Option<String>,
}

} // verus!
