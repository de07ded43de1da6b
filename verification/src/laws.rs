//! Properties of the navigation model that span several operations.

use vstd::prelude::*;
use vstd::set_lib::{lemma_int_range, lemma_subset_equality, set_int_range};

use crate::controller::{
    cycled, entry_id, is_rank_order, is_stale, latest_date, next_selection, previous_selection, rank_before,
    screen_len, Controller, DailyBucket, DailyEntry, DetailMode, Screen, Selected,
};
use crate::model::{Date, Decision, P1Task, P2Task, P3Task, TaskStatus};
use crate::text::{
    daily_row_spec, daily_text_spec, date_text_of, decision_row_spec, decision_text_spec,
    p1_row_spec, p2_row_spec, p3_row_spec,
    decimal_text, section, selected_date_spec, selected_detail_spec, setting_value_text, task_text_spec,
    SpanStyle,
};

verus! {

/// A rank order lists every P1 task.
proof fn lemma_rank_order_covers(p1: Seq<P1Task>, order: Seq<usize>)
    requires
        is_rank_order(p1, order),
    ensures
        forall|k: usize| k < p1.len() ==> #[trigger] order.contains(k),
{
    let n = p1.len() as int;
    let ints = order.map_values(|x: usize| x as int);
    assert(ints.no_duplicates()) by {
        assert forall|i: int, j: int| 0 <= i < ints.len() && 0 <= j < ints.len() && i != j implies ints[i]
            != ints[j] by {
            if i < j {
                assert(rank_before(p1, order[i], order[j]));
            } else {
                assert(rank_before(p1, order[j], order[i]));
            }
        }
    }
    ints.unique_seq_to_set();
    lemma_int_range(0, n);
    assert(ints.to_set().subset_of(set_int_range(0, n))) by {
        assert forall|x: int| ints.to_set().contains(x) implies set_int_range(0, n).contains(x) by {
            let i = choose|i: int| 0 <= i < ints.len() && ints[i] == x;
            assert(order[i] < p1.len());
        }
    }
    lemma_subset_equality(ints.to_set(), set_int_range(0, n));
    assert forall|k: usize| k < p1.len() implies #[trigger] order.contains(k) by {
        assert(set_int_range(0, n).contains(k as int));
        assert(ints.to_set().contains(k as int));
        let i = choose|i: int| 0 <= i < ints.len() && ints[i] == k as int;
        assert(order[i] == k);
    }
}

proof fn lemma_rank_orders_agree_below(p1: Seq<P1Task>, a: Seq<usize>, b: Seq<usize>, i: int)
    requires
        is_rank_order(p1, a),
        is_rank_order(p1, b),
        forall|k: usize| k < p1.len() ==> #[trigger] a.contains(k),
        forall|k: usize| k < p1.len() ==> #[trigger] b.contains(k),
        0 <= i <= p1.len(),
    ensures
        forall|m: int| 0 <= m < i ==> a[m] == b[m],
    decreases i,
{
    if i > 0 {
        lemma_rank_orders_agree_below(p1, a, b, i - 1);
        let m = i - 1;
        let x = a[m];
        let y = b[m];
        assert(b.contains(x));
        let j = choose|j: int| 0 <= j < b.len() && b[j] == x;
        assert(a.contains(y));
        let jj = choose|j: int| 0 <= j < a.len() && a[j] == y;
        if j < m {
            assert(a[j] == b[j]);
            assert(rank_before(p1, a[j], a[m]));
        }
        if jj < m {
            assert(a[jj] == b[jj]);
            assert(rank_before(p1, b[jj], b[m]));
        }
        if j > m && jj > m {
            assert(rank_before(p1, b[m], b[j]));
            assert(rank_before(p1, a[m], a[jj]));
        }
    }
}

/// The rank order of the P1 tasks is determined by the tasks: there is only
/// one.
pub proof fn lemma_rank_order_unique(p1: Seq<P1Task>, a: Seq<usize>, b: Seq<usize>)
    requires
        is_rank_order(p1, a),
        is_rank_order(p1, b),
    ensures
        a == b,
{
    lemma_rank_order_covers(p1, a);
    lemma_rank_order_covers(p1, b);
    lemma_rank_orders_agree_below(p1, a, b, p1.len() as int);
    assert(a =~= b);
}

/// The top-three screen shows the first three rows of the P1 screen (all of
/// them when there are fewer).
pub proof fn lemma_top_three_is_prefix_of_p1(c: &Controller)
    requires
        c.wf(),
    ensures
        c.spec_len(Screen::Top3) == if c.spec_len(Screen::P1) < 3 {
            c.spec_len(Screen::P1)
        } else {
            3
        },
        forall|i: int|
            0 <= i < c.spec_len(Screen::Top3) ==> #[trigger] c.spec_entry(Screen::Top3, i)
                == c.spec_entry(Screen::P1, i),
{
}

/// Moving down and then up, or up and then down, comes back to the same row.
pub proof fn lemma_next_previous_inverse(selection: int, len: int)
    requires
        0 <= selection < len,
    ensures
        previous_selection(next_selection(selection, len), len) == selection,
        next_selection(previous_selection(selection, len), len) == selection,
{
    if selection + 1 == len {
        assert((selection + 1) % len == 0) by (nonlinear_arith)
            requires
                selection + 1 == len,
                len > 0,
        ;
    } else {
        assert((selection + 1) % len == selection + 1) by (nonlinear_arith)
            requires
                0 <= selection + 1 < len,
        ;
    }
    if selection == 0 {
        assert((len - 1 + 1) % len == 0) by (nonlinear_arith)
            requires
                len > 0,
        ;
    } else {
        assert((selection - 1 + 1) % len == selection) by (nonlinear_arith)
            requires
                0 <= selection < len,
        ;
    }
}

/// Moving down from the last row wraps to the first, and up from the first
/// wraps to the last.
pub proof fn lemma_selection_wraps(len: int)
    requires
        len > 0,
    ensures
        next_selection(len - 1, len) == 0,
        previous_selection(0, len) == len - 1,
{
    assert((len - 1 + 1) % len == 0) by (nonlinear_arith)
        requires
            len > 0,
    ;
}

/// Pressing the detail key twice gives back the mode it started in.
pub proof fn lemma_cycle_detail_twice(mode: DetailMode)
    ensures
        cycled(cycled(mode)) == mode,
{
}

/// The last hit of a daily topic is the latest of its hit dates: one of them,
/// and no earlier than any other; there is none only when there are no hit
/// dates.
pub proof fn lemma_latest_date_is_max(dates: Seq<Date>)
    ensures
        latest_date(dates) is None <==> dates.len() == 0,
        latest_date(dates) matches Some(d) ==> dates.contains(d),
        latest_date(dates) matches Some(d) ==> forall|i: int|
            0 <= i < dates.len() ==> #[trigger] dates[i].day_number() <= d.day_number(),
    decreases dates.len(),
{
    if dates.len() > 0 {
        let rest = dates.drop_last();
        lemma_latest_date_is_max(rest);
        assert(dates =~= rest.push(dates.last()));
        match latest_date(rest) {
            Some(d) => {
                let i = choose|i: int| 0 <= i < rest.len() && rest[i] == d;
                assert(dates[i] == d);
            },
            None => {
                assert(dates[dates.len() - 1] == dates.last());
            },
        }
    }
}

/// Reloading the very snapshot that is shown keeps, on every screen, a row
/// with the id that was selected; when no earlier row has that id, the
/// selection does not move at all.
pub proof fn lemma_reload_of_same_snapshot_keeps_selection(old: &Controller, new: &Controller)
    requires
        old.wf(),
        new.wf(),
        new.spec_snapshot() == old.spec_snapshot(),
        new.spec_today() == old.spec_today(),
        forall|s: Screen| #[trigger] new.reload_restores(old, s),
    ensures
        forall|s: Screen|
            #[trigger] new.spec_entry_id(s, new.spec_selection(s)) == old.spec_entry_id(
                s,
                old.spec_selection(s),
            ),
        forall|s: Screen|
            (forall|j: int|
                0 <= j < old.spec_selection(s) ==> #[trigger] old.spec_entry_id(s, j)
                    != old.spec_entry_id(s, old.spec_selection(s))) ==> #[trigger] new.spec_selection(s)
                == old.spec_selection(s),
{
    lemma_rank_order_unique(old.spec_snapshot().tasks.p1@, old.spec_p1_order(), new.spec_p1_order());
    assert forall|s: Screen|
        #[trigger] new.spec_entry_id(s, new.spec_selection(s)) == old.spec_entry_id(
            s,
            old.spec_selection(s),
        ) by {
        reload_same_screen(old, new, s);
    }
    assert forall|s: Screen|
        (forall|j: int|
            0 <= j < old.spec_selection(s) ==> #[trigger] old.spec_entry_id(s, j)
                != old.spec_entry_id(s, old.spec_selection(s))) implies #[trigger] new.spec_selection(s)
            == old.spec_selection(s) by {
        reload_same_screen(old, new, s);
    }
}

proof fn reload_same_screen(old: &Controller, new: &Controller, s: Screen)
    requires
        old.wf(),
        new.wf(),
        new.spec_snapshot() == old.spec_snapshot(),
        new.spec_today() == old.spec_today(),
        new.spec_p1_order() == old.spec_p1_order(),
        new.reload_restores(old, s),
    ensures
        new.spec_entry_id(s, new.spec_selection(s)) == old.spec_entry_id(s, old.spec_selection(s)),
        (forall|j: int|
            0 <= j < old.spec_selection(s) ==> #[trigger] old.spec_entry_id(s, j)
                != old.spec_entry_id(s, old.spec_selection(s))) ==> new.spec_selection(s)
            == old.spec_selection(s),
{
    let snap = old.spec_snapshot();
    let today = old.spec_today();
    let order = old.spec_p1_order();
    let len = screen_len(snap, s);
    let sel = old.spec_selection(s);
    match s {
        Screen::Top3 => {},
        Screen::P1 => {},
        Screen::P2 => {},
        Screen::P3 => {},
        Screen::Daily => {},
        Screen::Decisions => {},
    }
    assert(old.selection_ok(s));
    let nsel = new.spec_selection(s);
    if len > 0 {
        assert(0 <= sel < len);
        assert(entry_id(snap, today, order, s, sel as int) is Some);
        if (forall|j: int|
            0 <= j < sel ==> #[trigger] old.spec_entry_id(s, j) != old.spec_entry_id(s, sel as int)) {
            if nsel < sel {
                assert(old.spec_entry_id(s, nsel as int) != old.spec_entry_id(s, sel as int));
            }
            if nsel > sel {
                assert(entry_id(snap, today, order, s, sel as int) != old.spec_entry_id(
                    s,
                    sel as int,
                ));
            }
        }
    } else {
        assert(sel == 0);
    }
}

/// The stored selection of every screen with rows names one of its rows, so
/// the row under the cursor can always be asked for; on an empty screen it
/// is 0.
pub proof fn lemma_selection_names_a_row(c: &Controller, s: Screen)
    requires
        c.wf(),
    ensures
        c.spec_len(s) > 0 ==> c.spec_entry(s, c.spec_selection(s)) is Some,
        c.spec_len(s) == 0 ==> c.spec_selection(s) == 0,
{
    match s {
        Screen::Top3 => {},
        Screen::P1 => {},
        Screen::P2 => {},
        Screen::P3 => {},
        Screen::Daily => {},
        Screen::Decisions => {},
    }
}

/// After a reload in which the row that was selected is gone, the cursor
/// stays at the same position when the new rows still reach it, goes to the
/// last row when they no longer do, and is 0 when there are no rows.
pub proof fn lemma_reload_without_selected_row_keeps_position(
    old: &Controller,
    new: &Controller,
    s: Screen,
)
    requires
        old.wf(),
        new.wf(),
        new.reload_restores(old, s),
        forall|i: int|
            0 <= i < new.spec_len(s) ==> #[trigger] new.spec_entry_id(s, i) != old.spec_entry_id(
                s,
                old.spec_selection(s),
            ),
    ensures
        new.spec_len(s) == 0 ==> new.spec_selection(s) == 0,
        old.spec_selection(s) < new.spec_len(s) ==> new.spec_selection(s) == old.spec_selection(s),
        0 < new.spec_len(s) <= old.spec_selection(s) ==> new.spec_selection(s) == new.spec_len(s)
            - 1,
{
    let saved = old.spec_entry_id(s, old.spec_selection(s));
    if saved is Some {
        assert forall|i: int| 0 <= i < new.spec_len(s) implies #[trigger] entry_id(
            new.spec_snapshot(),
            new.spec_today(),
            new.spec_p1_order(),
            s,
            i,
        ) != saved by {
            assert(new.spec_entry_id(s, i) != saved);
        }
    }
}

/// The lines of a section: none without items, else a blank line, the
/// heading and one bulleted line per item.
proof fn lemma_section_lines(heading: Seq<char>, style: SpanStyle, items: Seq<String>)
    ensures
        section(heading, style, items).len() == if items.len() > 0 {
            items.len() + 2
        } else {
            0
        },
        items.len() > 0 ==> section(heading, style, items)[0] == (""@, SpanStyle::Raw),
        items.len() > 0 ==> section(heading, style, items)[1] == (heading, style),
        forall|k: int|
            0 <= k < items.len() ==> #[trigger] section(heading, style, items)[k + 2] == (
                "  - "@ + items[k]@,
                SpanStyle::Raw,
            ),
{
}

/// The detail panel of a task: its title, then its meta line and its
/// completion date when it has them, its raw text, then every note under a
/// `notes:` heading and every link under a `links:` heading, in order, each
/// heading only when there is something under it.
pub proof fn lemma_task_detail_shows_every_note_and_link(
    title: Seq<char>,
    raw_text: Seq<char>,
    links: Seq<String>,
    notes: Seq<String>,
    meta: Option<Seq<char>>,
    completed: Option<Seq<char>>,
)
    ensures
        ({
            let lines = task_text_spec(title, raw_text, links, notes, meta, completed);
            let m: int = if meta is Some {
                1
            } else {
                0
            };
            let c: int = if completed is Some {
                1
            } else {
                0
            };
            let b = 4 + m + c;
            let after_notes = b + if notes.len() > 0 {
                notes.len() + 2
            } else {
                0
            };
            &&& lines.len() == after_notes + if links.len() > 0 {
                links.len() + 2
            } else {
                0
            }
            &&& lines[0] == (title, SpanStyle::DetailTitle)
            &&& meta matches Some(t) ==> lines[1] == (t, SpanStyle::Raw)
            &&& completed matches Some(d) ==> lines[1 + m] == ("completed: "@ + d, SpanStyle::Raw)
            &&& lines[b - 2] == ("raw:"@, SpanStyle::Raw)
            &&& lines[b - 1] == ("  "@ + raw_text, SpanStyle::Raw)
            &&& notes.len() > 0 ==> lines[b] == (""@, SpanStyle::Raw) && lines[b + 1] == (
                "notes:"@,
                SpanStyle::Raw,
            )
            &&& forall|k: int|
                0 <= k < notes.len() ==> lines[b + 2 + k] == ("  - "@ + notes[k]@, SpanStyle::Raw)
            &&& links.len() > 0 ==> lines[after_notes] == (""@, SpanStyle::Raw)
                && lines[after_notes + 1] == ("links:"@, SpanStyle::Raw)
            &&& forall|k: int|
                0 <= k < links.len() ==> lines[after_notes + 2 + k] == (
                    "  - "@ + links[k]@,
                    SpanStyle::Raw,
                )
        }),
{
    lemma_section_lines("notes:"@, SpanStyle::Raw, notes);
    lemma_section_lines("links:"@, SpanStyle::Raw, links);
    let lines = task_text_spec(title, raw_text, links, notes, meta, completed);
    let head = task_text_spec(title, raw_text, seq![], seq![], meta, completed);
    let ns = section("notes:"@, SpanStyle::Raw, notes);
    let ls = section("links:"@, SpanStyle::Raw, links);
    let e = section("notes:"@, SpanStyle::Raw, Seq::<String>::empty());
    let el = section("links:"@, SpanStyle::Raw, Seq::<String>::empty());
    assert(e =~= seq![]);
    assert(el =~= seq![]);
    assert(lines =~= head + ns + ls);
    let b = head.len() as int;
    assert forall|k: int| 0 <= k < notes.len() implies lines[b + 2 + k] == (
        "  - "@ + notes[k]@,
        SpanStyle::Raw,
    ) by {
        assert(ns[k + 2] == ("  - "@ + notes[k]@, SpanStyle::Raw));
    }
    assert forall|k: int| 0 <= k < links.len() implies lines[b + ns.len() + 2 + k] == (
        "  - "@ + links[k]@,
        SpanStyle::Raw,
    ) by {
        assert(ls[k + 2] == ("  - "@ + links[k]@, SpanStyle::Raw));
    }
}

/// The detail panel of a daily topic: its title, its bucket, its last hit
/// (the given date text, or `never`), its staleness and raw text, then every
/// note and every link under their headings.
pub proof fn lemma_daily_detail_shows_last_hit_and_notes(
    bucket: DailyBucket,
    title: Seq<char>,
    raw_text: Seq<char>,
    links: Seq<String>,
    notes: Seq<String>,
    stale: bool,
    last_hit: Option<Seq<char>>,
)
    ensures
        ({
            let lines = daily_text_spec(bucket, title, raw_text, links, notes, stale, last_hit);
            let after_notes: int = 7int + if notes.len() > 0 {
                notes.len() + 2
            } else {
                0
            };
            &&& lines.len() == after_notes + if links.len() > 0 {
                links.len() + 2
            } else {
                0
            }
            &&& lines[0] == (title, SpanStyle::DetailTitle)
            &&& lines[1] == (
                if bucket == DailyBucket::Active {
                    "bucket: active"@
                } else {
                    "bucket: later"@
                },
                SpanStyle::Raw,
            )
            &&& lines[2] == (
                "last hit: "@ + match last_hit {
                    Some(d) => d,
                    None => "never"@,
                },
                SpanStyle::Raw,
            )
            &&& lines[3] == (
                if stale {
                    "stale: yes"@
                } else {
                    "stale: no"@
                },
                SpanStyle::Raw,
            )
            &&& lines[6] == ("  "@ + raw_text, SpanStyle::Raw)
            &&& notes.len() > 0 ==> lines[8] == ("notes:"@, SpanStyle::Raw)
            &&& forall|k: int|
                0 <= k < notes.len() ==> lines[9 + k] == ("  - "@ + notes[k]@, SpanStyle::Raw)
            &&& links.len() > 0 ==> lines[after_notes + 1] == ("links:"@, SpanStyle::Raw)
            &&& forall|k: int|
                0 <= k < links.len() ==> lines[after_notes + 2 + k] == (
                    "  - "@ + links[k]@,
                    SpanStyle::Raw,
                )
        }),
{
    lemma_section_lines("notes:"@, SpanStyle::Raw, notes);
    lemma_section_lines("links:"@, SpanStyle::Raw, links);
    let lines = daily_text_spec(bucket, title, raw_text, links, notes, stale, last_hit);
    let ns = section("notes:"@, SpanStyle::Raw, notes);
    let ls = section("links:"@, SpanStyle::Raw, links);
    let head = daily_text_spec(
        bucket,
        title,
        raw_text,
        Seq::<String>::empty(),
        Seq::<String>::empty(),
        stale,
        last_hit,
    );
    assert(section("notes:"@, SpanStyle::Raw, Seq::<String>::empty()) =~= seq![]);
    assert(section("links:"@, SpanStyle::Raw, Seq::<String>::empty()) =~= seq![]);
    assert(lines =~= head + ns + ls);
    assert(head.len() == 7);
    assert forall|k: int| 0 <= k < notes.len() implies lines[9 + k] == (
        "  - "@ + notes[k]@,
        SpanStyle::Raw,
    ) by {
        assert(ns[k + 2] == ("  - "@ + notes[k]@, SpanStyle::Raw));
    }
    assert forall|k: int| 0 <= k < links.len() implies lines[7 + ns.len() + 2 + k] == (
        "  - "@ + links[k]@,
        SpanStyle::Raw,
    ) by {
        assert(ls[k + 2] == ("  - "@ + links[k]@, SpanStyle::Raw));
    }
}

/// The detail panel of a selected daily topic shows the same last hit as its
/// row in the list: for a given date text both show it, and the panel opened
/// on the selection shows the topic's own last hit written out, or `never`.
pub proof fn lemma_selected_daily_detail_shows_its_last_hit(
    entry: DailyEntry,
    label: Option<Seq<char>>,
)
    ensures
        selected_detail_spec(Some(Selected::Daily(entry)), label)[2] == (
            "last hit: "@ + daily_row_spec(entry.bucket, entry.task.title@, entry.stale, label)[3].0,
            SpanStyle::Raw,
        ),
        selected_detail_spec(Some(Selected::Daily(entry)), label)[2].0 == "last hit: "@
            + match label {
            Some(l) => l,
            None => "never"@,
        },
        selected_date_spec(Selected::Daily(entry)) == entry.last_hit,
        ({
            let shown = match entry.last_hit {
                Some(d) => Some(date_text_of(d.day_number())),
                None => None,
            };
            selected_detail_spec(Some(Selected::Daily(entry)), shown)[2].0 == "last hit: "@
                + match entry.last_hit {
                Some(d) => date_text_of(d.day_number()),
                None => "never"@,
            }
        }),
{
    let t = entry.task;
    lemma_daily_detail_shows_last_hit_and_notes(
        entry.bucket,
        t.title@,
        t.raw_text@,
        t.links@,
        t.notes@,
        entry.stale,
        label,
    );
    let shown = match entry.last_hit {
        Some(d) => Some(date_text_of(d.day_number())),
        None => None,
    };
    lemma_daily_detail_shows_last_hit_and_notes(
        entry.bucket,
        t.title@,
        t.raw_text@,
        t.links@,
        t.notes@,
        entry.stale,
        shown,
    );
}

/// The rows of P1 and P3 tasks end with the label of the task's status,
/// `todo` or `done`, after the title.
pub proof fn lemma_task_rows_end_with_status(p1: P1Task, p3: P3Task)
    ensures
        p1_row_spec(p1).len() == 4,
        p1_row_spec(p1)[1] == (p1.title@, SpanStyle::TaskTitle(p1.status)),
        p1_row_spec(p1)[3] == (
            match p1.status {
                TaskStatus::Todo => "todo"@,
                TaskStatus::Done => "done"@,
            },
            SpanStyle::TaskStatusLabel(p1.status),
        ),
        p3_row_spec(p3).len() == 4,
        p3_row_spec(p3)[0] == ("* "@, SpanStyle::TaskAccent(p3.status)),
        p3_row_spec(p3)[1] == (p3.title@, SpanStyle::TaskTitle(p3.status)),
        p3_row_spec(p3)[3] == (
            match p3.status {
                TaskStatus::Todo => "todo"@,
                TaskStatus::Done => "done"@,
            },
            SpanStyle::TaskStatusLabel(p3.status),
        ),
{
}

/// The detail panel of a decision: its title with its date, then each
/// setting as `key = value` under `settings`, each summary line under
/// `summary`, and each startup note under `notes`, in that order, each
/// heading only when there is something under it.
pub proof fn lemma_decision_detail_shows_every_section(decision: Decision, date: Seq<char>)
    ensures
        ({
            let lines = decision_text_spec(decision, date);
            let settings = decision.settings@;
            let summary = decision.summary@;
            let notes = decision.startup_flow_notes@;
            let a: int = 1int + if settings.len() > 0 {
                settings.len() + 2
            } else {
                0
            };
            let b: int = a + if summary.len() > 0 {
                summary.len() + 2
            } else {
                0
            };
            &&& lines.len() == b + if notes.len() > 0 {
                notes.len() + 2
            } else {
                0
            }
            &&& lines[0] == (decision.title@ + " ("@ + date + ")"@, SpanStyle::DetailTitle)
            &&& settings.len() > 0 ==> lines[1] == (""@, SpanStyle::Raw) && lines[2] == (
                "settings"@,
                SpanStyle::SectionHeading,
            )
            &&& forall|k: int|
                0 <= k < settings.len() ==> lines[3 + k] == (
                    "  "@ + settings[k].key@ + " = "@ + setting_value_text(settings[k].value),
                    SpanStyle::Raw,
                )
            &&& summary.len() > 0 ==> lines[a] == (""@, SpanStyle::Raw) && lines[a + 1] == (
                "summary"@,
                SpanStyle::SectionHeading,
            )
            &&& forall|k: int|
                0 <= k < summary.len() ==> lines[a + 2 + k] == (
                    "  - "@ + summary[k]@,
                    SpanStyle::Raw,
                )
            &&& notes.len() > 0 ==> lines[b] == (""@, SpanStyle::Raw) && lines[b + 1] == (
                "notes"@,
                SpanStyle::SectionHeading,
            )
            &&& forall|k: int|
                0 <= k < notes.len() ==> lines[b + 2 + k] == ("  - "@ + notes[k]@, SpanStyle::Raw)
        }),
{
    let settings = decision.settings@;
    let summary = decision.summary@;
    let notes = decision.startup_flow_notes@;
    lemma_section_lines("summary"@, SpanStyle::SectionHeading, summary);
    lemma_section_lines("notes"@, SpanStyle::SectionHeading, notes);
    let lines = decision_text_spec(decision, date);
    let head = seq![(decision.title@ + " ("@ + date + ")"@, SpanStyle::DetailTitle)];
    let st = crate::text::settings_section(settings);
    let ms = section("summary"@, SpanStyle::SectionHeading, summary);
    let ns = section("notes"@, SpanStyle::SectionHeading, notes);
    assert(lines =~= head + st + ms + ns);
    assert(st.len() == if settings.len() > 0 {
        settings.len() + 2
    } else {
        0
    });
    assert forall|k: int| 0 <= k < settings.len() implies lines[3 + k] == (
        "  "@ + settings[k].key@ + " = "@ + setting_value_text(settings[k].value),
        SpanStyle::Raw,
    ) by {
        assert(st[k + 2] == crate::text::setting_line(settings[k]));
    }
    let a = 1 + st.len();
    assert forall|k: int| 0 <= k < summary.len() implies lines[a + 2 + k] == (
        "  - "@ + summary[k]@,
        SpanStyle::Raw,
    ) by {
        assert(ms[k + 2] == ("  - "@ + summary[k]@, SpanStyle::Raw));
    }
    let b = a + ms.len();
    assert forall|k: int| 0 <= k < notes.len() implies lines[b + 2 + k] == (
        "  - "@ + notes[k]@,
        SpanStyle::Raw,
    ) by {
        assert(ns[k + 2] == ("  - "@ + notes[k]@, SpanStyle::Raw));
    }
}

/// A daily topic is stale when it was never hit, or when its last hit lies
/// eight or more days before the day; a topic stale on one day is stale on
/// every later day.
pub proof fn lemma_staleness(today: Date, later: Date, last_hit: Option<Date>)
    requires
        today.day_number() <= later.day_number(),
    ensures
        is_stale(today, last_hit) <==> match last_hit {
            None => true,
            Some(d) => today.day_number() - d.day_number() >= 8,
        },
        is_stale(today, last_hit) ==> is_stale(later, last_hit),
{
}

/// The rows of the other lists: a P2 task is a bullet and its title; a daily
/// topic shows its bucket, title, last hit (the given date text, or `never`)
/// and `STALE` or `fresh`; a decision shows its date followed by a space, then
/// its title.
pub proof fn lemma_list_rows(
    p2: P2Task,
    bucket: DailyBucket,
    title: Seq<char>,
    stale: bool,
    last_hit: Option<Seq<char>>,
    decision: Decision,
    date: Seq<char>,
)
    ensures
        p2_row_spec(p2) == seq![
            ("* "@, SpanStyle::TaskAccent(p2.status)),
            (p2.title@, SpanStyle::TaskTitle(p2.status)),
        ],
        daily_row_spec(bucket, title, stale, last_hit).len() == 6,
        daily_row_spec(bucket, title, stale, last_hit)[0].0 == if bucket == DailyBucket::Active {
            "[A] "@
        } else {
            "[L] "@
        },
        daily_row_spec(bucket, title, stale, last_hit)[1] == (title, SpanStyle::Text),
        daily_row_spec(bucket, title, stale, last_hit)[3] == (
            match last_hit {
                Some(d) => d,
                None => "never"@,
            },
            SpanStyle::LastHit,
        ),
        daily_row_spec(bucket, title, stale, last_hit)[5] == (
            if stale {
                "STALE"@
            } else {
                "fresh"@
            },
            SpanStyle::Staleness(stale),
        ),
        decision_row_spec(decision, date) == seq![
            (date + " "@, SpanStyle::DecisionDate),
            (decision.title@, SpanStyle::Text),
        ],
{
}

/// After a reload in which the row that was selected is still there, the
/// selection is on that row: on the first row with the selected id.
pub proof fn lemma_reload_follows_selected_id(old: &Controller, new: &Controller, s: Screen, i: int)
    requires
        old.wf(),
        new.wf(),
        new.reload_restores(old, s),
        old.spec_len(s) > 0,
        0 <= i < new.spec_len(s),
        new.spec_entry_id(s, i) == old.spec_entry_id(s, old.spec_selection(s)),
    ensures
        0 <= new.spec_selection(s) <= i,
        new.spec_entry_id(s, new.spec_selection(s)) == old.spec_entry_id(s, old.spec_selection(s)),
        forall|j: int|
            0 <= j < new.spec_selection(s) ==> #[trigger] new.spec_entry_id(s, j)
                != old.spec_entry_id(s, old.spec_selection(s)),
{
    lemma_selection_names_a_row(old, s);
    let saved = old.spec_entry_id(s, old.spec_selection(s));
    assert(entry_id(new.spec_snapshot(), new.spec_today(), new.spec_p1_order(), s, i) == saved);
    match s {
        Screen::Top3 => {},
        Screen::P1 => {},
        Screen::P2 => {},
        Screen::P3 => {},
        Screen::Daily => {},
        Screen::Decisions => {},
    }
    assert(saved is Some);
    let sel = new.spec_selection(s);
    if sel > i {
        assert(entry_id(new.spec_snapshot(), new.spec_today(), new.spec_p1_order(), s, i) != saved);
    }
    assert forall|j: int| 0 <= j < sel implies #[trigger] new.spec_entry_id(s, j) != saved by {
        assert(entry_id(new.spec_snapshot(), new.spec_today(), new.spec_p1_order(), s, j) != saved);
    }
}

/// The detail panel of the selected row: `No item selected.` without one; a
/// P1 task's panel names its rank and a P2 or P3 task's its source position,
/// each followed by the completion date when one is given; a decision's title
/// carries its date.
pub proof fn lemma_selected_detail_heads(
    p1: P1Task,
    p2: P2Task,
    p3: P3Task,
    decision: Decision,
    label: Option<Seq<char>>,
)
    ensures
        selected_detail_spec(None, label) == seq![(("No item selected."@, SpanStyle::Raw))],
        selected_detail_spec(Some(Selected::P1(&p1)), label)[0] == (p1.title@, SpanStyle::DetailTitle),
        selected_detail_spec(Some(Selected::P1(&p1)), label)[1] == (
            "rank "@ + decimal_text(p1.rank as nat),
            SpanStyle::Raw,
        ),
        selected_detail_spec(Some(Selected::P2(&p2)), label)[1] == (
            "source "@ + decimal_text(p2.source_order as nat),
            SpanStyle::Raw,
        ),
        selected_detail_spec(Some(Selected::P3(&p3)), label)[1] == (
            "source "@ + decimal_text(p3.source_order as nat),
            SpanStyle::Raw,
        ),
        label matches Some(c) ==> selected_detail_spec(Some(Selected::P1(&p1)), label)[2] == (
            "completed: "@ + c,
            SpanStyle::Raw,
        ),
        label matches Some(c) ==> selected_detail_spec(Some(Selected::P2(&p2)), label)[2] == (
            "completed: "@ + c,
            SpanStyle::Raw,
        ),
        label matches Some(c) ==> selected_detail_spec(Some(Selected::P3(&p3)), label)[2] == (
            "completed: "@ + c,
            SpanStyle::Raw,
        ),
        label matches Some(c) ==> selected_detail_spec(Some(Selected::Decision(&decision)), label)[0]
            == (decision.title@ + " ("@ + c + ")"@, SpanStyle::DetailTitle),
        selected_date_spec(Selected::P1(&p1)) == p1.completed_at,
        selected_date_spec(Selected::P3(&p3)) == p3.completed_at,
        selected_date_spec(Selected::Decision(&decision)) == Some(decision.date),
{
    lemma_task_detail_shows_every_note_and_link(
        p1.title@,
        p1.raw_text@,
        p1.links@,
        p1.notes@,
        Some("rank "@ + decimal_text(p1.rank as nat)),
        label,
    );
    lemma_task_detail_shows_every_note_and_link(
        p2.title@,
        p2.raw_text@,
        p2.links@,
        p2.notes@,
        Some("source "@ + decimal_text(p2.source_order as nat)),
        label,
    );
    lemma_task_detail_shows_every_note_and_link(
        p3.title@,
        p3.raw_text@,
        p3.links@,
        p3.notes@,
        Some("source "@ + decimal_text(p3.source_order as nat)),
        label,
    );
    match label {
        Some(c) => lemma_decision_detail_shows_every_section(decision, c),
        None => {},
    }
}

} // verus!
