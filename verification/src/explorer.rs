//! The interactive explorer's navigation: which view is shown, which
//! filters apply, what is selected, and how each key press changes that.
//! Time is in milliseconds since the explorer opened; held keys repeat at
//! most every 120 ms when moving and every 180 ms when switching views.
use vstd::prelude::*;
use crate::audit::{CheckStatus, RuleCategory};
use crate::ui::{
    filter_matches, next_category, next_category_spec, next_filter, next_index, next_index_spec,
    ActiveView, StatusFilter, UiMode,
};

verus! {

/// The keys the explorer reacts to.
#[derive(Debug, Clone, Copy, PartialEq, Eq, Structural)]
pub enum Key {
    Char(char),
    Esc,
    Tab,
    BackTab,
    Down,
    Up,
    Enter,
    Other,
}

#[derive(Debug, Clone, Copy, PartialEq, Eq, Structural)]
pub enum KeyKind {
    Press,
    Repeat,
    Release,
}

/// The status and category of a listed check or diagnostic.
#[derive(Debug, Clone, Copy)]
pub struct ItemTag {
    pub status: CheckStatus,
    pub category: RuleCategory,
}

/// What the explorer shows and where it is.
#[derive(Debug, Clone, Copy)]
pub struct Navigation {
    pub active_view: ActiveView,
    pub status_filter: StatusFilter,
    pub category_filter: Option<RuleCategory>,
    pub detail_open: bool,
    pub selected_check: usize,
    pub selected_diagnostic: usize,
    pub selected_file: usize,
    pub last_nav_repeat_at: Option<u64>,
    pub last_view_repeat_at: Option<u64>,
    pub last_interaction_at: u64,
}

/// The explorer: the report's mode, its checks, diagnostics and file count,
/// and the navigation.
#[derive(Debug, Clone)]
pub struct ExplorerState {
    pub mode: UiMode,
    pub checks: Vec<ItemTag>,
    pub diagnostics: Vec<ItemTag>,
    pub file_count: usize,
    pub nav: Navigation,
}

pub open spec fn nav_repeat_ms() -> u64 {
    120
}

pub open spec fn view_repeat_ms() -> u64 {
    180
}

// ---------------------------------------------------------------------------
// The rules
// ---------------------------------------------------------------------------

pub open spec fn tag_shown(t: ItemTag, sf: StatusFilter, cf: Option<RuleCategory>) -> bool {
    filter_matches(sf, t.status) && match cf {
        Some(c) => t.category == c,
        None => true,
    }
}

/// How many items the filters leave.
pub open spec fn shown_count(tags: Seq<ItemTag>, sf: StatusFilter, cf: Option<RuleCategory>) -> nat
    decreases tags.len(),
{
    if tags.len() == 0 {
        0
    } else {
        shown_count(tags.drop_last(), sf, cf) + if tag_shown(tags.last(), sf, cf) {
            1nat
        } else {
            0nat
        }
    }
}

/// A selection kept inside a list of `len` items.
pub open spec fn clamp_to(sel: usize, len: nat) -> usize {
    if len == 0 {
        0
    } else if sel > len - 1 {
        (len - 1) as usize
    } else {
        sel
    }
}

/// Every selection kept inside what the filters leave.
pub open spec fn clamped(
    n: Navigation,
    checks: Seq<ItemTag>,
    diags: Seq<ItemTag>,
    files: usize,
) -> Navigation {
    Navigation {
        selected_check: clamp_to(n.selected_check, shown_count(checks, n.status_filter, n.category_filter)),
        selected_diagnostic: clamp_to(
            n.selected_diagnostic,
            shown_count(diags, n.status_filter, n.category_filter),
        ),
        selected_file: clamp_to(n.selected_file, files as nat),
        ..n
    }
}

/// The views of a report: the plan view only for plans.
pub open spec fn views_for(mode: UiMode) -> Seq<ActiveView> {
    if mode == UiMode::Plan {
        seq![ActiveView::Overview, ActiveView::Checks, ActiveView::Diagnostics, ActiveView::Plan]
    } else {
        seq![ActiveView::Overview, ActiveView::Checks, ActiveView::Diagnostics]
    }
}

/// The position of a view among the report's views; 0 when it is not one.
pub open spec fn view_pos(vs: Seq<ActiveView>, v: ActiveView) -> int {
    if vs.len() > 0 && vs[0] == v {
        0
    } else if vs.len() > 1 && vs[1] == v {
        1
    } else if vs.len() > 2 && vs[2] == v {
        2
    } else if vs.len() > 3 && vs[3] == v {
        3
    } else {
        0
    }
}

pub open spec fn next_view_spec(mode: UiMode, v: ActiveView) -> ActiveView {
    let vs = views_for(mode);
    vs[(view_pos(vs, v) + 1) % (vs.len() as int)]
}

pub open spec fn prev_view_spec(mode: UiMode, v: ActiveView) -> ActiveView {
    let vs = views_for(mode);
    vs[(view_pos(vs, v) + vs.len() - 1) % (vs.len() as int)]
}

/// Whether a key event gets through the repeat throttle, and the time the
/// throttle remembers afterwards.
pub open spec fn throttle(last: Option<u64>, kind: KeyKind, now: u64, interval: u64) -> (bool, Option<u64>) {
    if kind == KeyKind::Press {
        (true, Some(now))
    } else {
        match last {
            Some(t) => if (if now >= t {
                now - t
            } else {
                0
            }) < interval {
                (false, last)
            } else {
                (true, Some(now))
            },
            None => (true, Some(now)),
        }
    }
}

/// The selection moved by `delta` in the shown view.
pub open spec fn moved(
    n: Navigation,
    delta: int,
    checks: Seq<ItemTag>,
    diags: Seq<ItemTag>,
    files: usize,
    now: u64,
) -> Navigation {
    let m = match n.active_view {
        ActiveView::Checks => Navigation {
            selected_check: next_index_spec(
                n.selected_check as int,
                shown_count(checks, n.status_filter, n.category_filter) as int,
                delta,
            ) as usize,
            ..n
        },
        ActiveView::Diagnostics => Navigation {
            selected_diagnostic: next_index_spec(
                n.selected_diagnostic as int,
                shown_count(diags, n.status_filter, n.category_filter) as int,
                delta,
            ) as usize,
            ..n
        },
        ActiveView::Plan => Navigation {
            selected_file: next_index_spec(n.selected_file as int, files as int, delta) as usize,
            ..n
        },
        ActiveView::Overview => n,
    };
    Navigation { last_interaction_at: now, ..m }
}

/// What a key event does: the new navigation, and whether to quit.
pub open spec fn key_step(
    mode: UiMode,
    checks: Seq<ItemTag>,
    diags: Seq<ItemTag>,
    files: usize,
    n: Navigation,
    key: Key,
    kind: KeyKind,
    now: u64,
) -> (Navigation, bool) {
    if kind == KeyKind::Release {
        (n, false)
    } else {
        match key {
            Key::Char('q') | Key::Esc => (n, true),
            Key::Tab | Key::BackTab => {
                let (go, last) = throttle(n.last_view_repeat_at, kind, now, view_repeat_ms());
                let t = Navigation { last_view_repeat_at: last, ..n };
                if go {
                    let v = if key == Key::Tab {
                        next_view_spec(mode, n.active_view)
                    } else {
                        prev_view_spec(mode, n.active_view)
                    };
                    (
                        Navigation {
                            last_interaction_at: now,
                            ..clamped(Navigation { active_view: v, ..t }, checks, diags, files)
                        },
                        false,
                    )
                } else {
                    (t, false)
                }
            },
            Key::Down | Key::Up => {
                let (go, last) = throttle(n.last_nav_repeat_at, kind, now, nav_repeat_ms());
                let t = Navigation { last_nav_repeat_at: last, ..n };
                if go {
                    (moved(t, if key == Key::Down { 1 } else { -1 }, checks, diags, files, now), false)
                } else {
                    (t, false)
                }
            },
            Key::Enter => if kind == KeyKind::Repeat {
                (n, false)
            } else {
                (Navigation { detail_open: !n.detail_open, last_interaction_at: now, ..n }, false)
            },
            Key::Char('f') => (
                Navigation {
                    last_interaction_at: now,
                    ..clamped(
                        Navigation { status_filter: next_filter(n.status_filter), ..n },
                        checks,
                        diags,
                        files,
                    )
                },
                false,
            ),
            Key::Char('c') => (
                Navigation {
                    last_interaction_at: now,
                    ..clamped(
                        Navigation { category_filter: next_category_spec(n.category_filter), ..n },
                        checks,
                        diags,
                        files,
                    )
                },
                false,
            ),
            _ => (n, false),
        }
    }
}

// ---------------------------------------------------------------------------
// Running the rules
// ---------------------------------------------------------------------------

fn shown_count_exec(tags: &Vec<ItemTag>, sf: StatusFilter, cf: Option<RuleCategory>) -> (n: usize)
    ensures
        n == shown_count(tags@, sf, cf),
{
    let mut n: usize = 0;
    let mut i: usize = 0;
    while i < tags.len()
        invariant
            i <= tags.len(),
            n <= i,
            n == shown_count(tags@.take(i as int), sf, cf),
        decreases tags.len() - i,
    {
        assert(tags@.take(i + 1).drop_last() =~= tags@.take(i as int));
        let t = tags[i];
        let shown = sf.matches(t.status) && match cf {
            Some(c) => t.category == c,
            None => true,
        };
        if shown {
            n = n + 1;
        }
        i += 1;
    }
    assert(tags@.take(tags.len() as int) =~= tags@);
    n
}

fn clamp_to_exec(sel: usize, len: usize) -> (r: usize)
    ensures
        r == clamp_to(sel, len as nat),
{
    if len == 0 {
        0
    } else if sel > len - 1 {
        len - 1
    } else {
        sel
    }
}

fn throttle_exec(last: Option<u64>, kind: KeyKind, now: u64, interval: u64) -> (r: (bool, Option<u64>))
    ensures
        r == throttle(last, kind, now, interval),
{
    if kind == KeyKind::Press {
        return (true, Some(now));
    }
    match last {
        Some(t) => {
            let elapsed = if now >= t {
                now - t
            } else {
                0
            };
            if elapsed < interval {
                (false, last)
            } else {
                (true, Some(now))
            }
        },
        None => (true, Some(now)),
    }
}

fn views_exec(mode: UiMode) -> (r: Vec<ActiveView>)
    ensures
        r@ == views_for(mode),
{
    let mut v = vec![ActiveView::Overview, ActiveView::Checks, ActiveView::Diagnostics];
    if mode == UiMode::Plan {
        v.push(ActiveView::Plan);
    }
    assert(v@ =~= views_for(mode));
    v
}

fn view_pos_exec(vs: &Vec<ActiveView>, v: ActiveView) -> (r: usize)
    requires
        vs@.len() <= 4,
    ensures
        r == view_pos(vs@, v),
{
    if vs.len() > 0 && vs[0] == v {
        0
    } else if vs.len() > 1 && vs[1] == v {
        1
    } else if vs.len() > 2 && vs[2] == v {
        2
    } else if vs.len() > 3 && vs[3] == v {
        3
    } else {
        0
    }
}

impl ExplorerState {
    /// The explorer as it opens: the overview, no filter, nothing selected.
    pub fn new(
        mode: UiMode,
        checks: Vec<ItemTag>,
        diagnostics: Vec<ItemTag>,
        file_count: usize,
        now: u64,
    ) -> (s: ExplorerState)
        ensures
            s.mode == mode,
            s.checks@ == checks@,
            s.diagnostics@ == diagnostics@,
            s.file_count == file_count,
            s.nav == (Navigation {
                active_view: ActiveView::Overview,
                status_filter: StatusFilter::All,
                category_filter: None,
                detail_open: false,
                selected_check: 0,
                selected_diagnostic: 0,
                selected_file: 0,
                last_nav_repeat_at: None,
                last_view_repeat_at: None,
                last_interaction_at: now,
            }),
    {
        ExplorerState {
            mode,
            checks,
            diagnostics,
            file_count,
            nav: Navigation {
                active_view: ActiveView::Overview,
                status_filter: StatusFilter::All,
                category_filter: None,
                detail_open: false,
                selected_check: 0,
                selected_diagnostic: 0,
                selected_file: 0,
                last_nav_repeat_at: None,
                last_view_repeat_at: None,
                last_interaction_at: now,
            },
        }
    }

    fn clamp_nav(&self, n: Navigation) -> (r: Navigation)
        ensures
            r == clamped(n, self.checks@, self.diagnostics@, self.file_count),
    {
        let c = shown_count_exec(&self.checks, n.status_filter, n.category_filter);
        let d = shown_count_exec(&self.diagnostics, n.status_filter, n.category_filter);
        Navigation {
            selected_check: clamp_to_exec(n.selected_check, c),
            selected_diagnostic: clamp_to_exec(n.selected_diagnostic, d),
            selected_file: clamp_to_exec(n.selected_file, self.file_count),
            ..n
        }
    }

    fn move_nav(&self, n: Navigation, down: bool, now: u64) -> (r: Navigation)
        ensures
            r == moved(n, if down { 1 } else { -1 }, self.checks@, self.diagnostics@, self.file_count, now),
    {
        let delta: isize = if down {
            1
        } else {
            -1
        };
        let m = match n.active_view {
            ActiveView::Checks => {
                let len = shown_count_exec(&self.checks, n.status_filter, n.category_filter);
                if n.selected_check == usize::MAX && down {
                    Navigation { selected_check: clamp_to_exec(n.selected_check, len), ..n }
                } else {
                    Navigation { selected_check: next_index(n.selected_check, len, delta), ..n }
                }
            },
            ActiveView::Diagnostics => {
                let len = shown_count_exec(&self.diagnostics, n.status_filter, n.category_filter);
                if n.selected_diagnostic == usize::MAX && down {
                    Navigation { selected_diagnostic: clamp_to_exec(n.selected_diagnostic, len), ..n }
                } else {
                    Navigation {
                        selected_diagnostic: next_index(n.selected_diagnostic, len, delta),
                        ..n
                    }
                }
            },
            ActiveView::Plan => {
                if n.selected_file == usize::MAX && down {
                    Navigation { selected_file: clamp_to_exec(n.selected_file, self.file_count), ..n }
                } else {
                    Navigation {
                        selected_file: next_index(n.selected_file, self.file_count, delta),
                        ..n
                    }
                }
            },
            ActiveView::Overview => n,
        };
        Navigation { last_interaction_at: now, ..m }
    }

    /// Applies a key event at time `now`; true when the explorer should
    /// quit.
    pub fn handle_key_at(&mut self, key: Key, kind: KeyKind, now: u64) -> (quit: bool)
        ensures
            final(self).mode == old(self).mode,
            final(self).checks@ == old(self).checks@,
            final(self).diagnostics@ == old(self).diagnostics@,
            final(self).file_count == old(self).file_count,
            (final(self).nav, quit) == key_step(
                old(self).mode,
                old(self).checks@,
                old(self).diagnostics@,
                old(self).file_count,
                old(self).nav,
                key,
                kind,
                now,
            ),
    {
        if kind == KeyKind::Release {
            return false;
        }
        let n = self.nav;
        match key {
            Key::Char('q') | Key::Esc => {
                return true;
            },
            Key::Tab | Key::BackTab => {
                let (go, last) = throttle_exec(n.last_view_repeat_at, kind, now, 180);
                let t = Navigation { last_view_repeat_at: last, ..n };
                if go {
                    let vs = views_exec(self.mode);
                    let pos = view_pos_exec(&vs, n.active_view);
                    let len = vs.len();
                    let v = if key == Key::Tab {
                        vs[(pos + 1) % len]
                    } else {
                        vs[(pos + len - 1) % len]
                    };
                    let c = self.clamp_nav(Navigation { active_view: v, ..t });
                    self.nav = Navigation { last_interaction_at: now, ..c };
                } else {
                    self.nav = t;
                }
            },
            Key::Down | Key::Up => {
                let (go, last) = throttle_exec(n.last_nav_repeat_at, kind, now, 120);
                let t = Navigation { last_nav_repeat_at: last, ..n };
                if go {
                    self.nav = self.move_nav(t, key == Key::Down, now);
                } else {
                    self.nav = t;
                }
            },
            Key::Enter => {
                if kind != KeyKind::Repeat {
                    self.nav = Navigation { detail_open: !n.detail_open, last_interaction_at: now, ..n };
                }
            },
            Key::Char('f') => {
                let c = self.clamp_nav(Navigation { status_filter: n.status_filter.next(), ..n });
                self.nav = Navigation { last_interaction_at: now, ..c };
            },
            Key::Char('c') => {
                let c = self.clamp_nav(
                    Navigation { category_filter: next_category(n.category_filter), ..n },
                );
                self.nav = Navigation { last_interaction_at: now, ..c };
            },
            _ => {},
        }
        false
    }

    /// A key pressed at time `now`.
    pub fn handle_key(&mut self, key: Key, now: u64) -> (quit: bool)
        ensures
            final(self).mode == old(self).mode,
            final(self).checks@ == old(self).checks@,
            final(self).diagnostics@ == old(self).diagnostics@,
            final(self).file_count == old(self).file_count,
            (final(self).nav, quit) == key_step(
                old(self).mode,
                old(self).checks@,
                old(self).diagnostics@,
                old(self).file_count,
                old(self).nav,
                key,
                KeyKind::Press,
                now,
            ),
    {
        self.handle_key_at(key, KeyKind::Press, now)
    }

    pub fn active_view(&self) -> (v: ActiveView)
        ensures
            v == self.nav.active_view,
    {
        self.nav.active_view
    }

    pub fn status_filter(&self) -> (f: StatusFilter)
        ensures
            f == self.nav.status_filter,
    {
        self.nav.status_filter
    }

    pub fn category_filter(&self) -> (c: Option<RuleCategory>)
        ensures
            c == self.nav.category_filter,
    {
        self.nav.category_filter
    }

    pub fn detail_open(&self) -> (b: bool)
        ensures
            b == self.nav.detail_open,
    {
        self.nav.detail_open
    }

    pub fn selected_check(&self) -> (i: usize)
        ensures
            i == self.nav.selected_check,
    {
        self.nav.selected_check
    }
}

} // verus!
