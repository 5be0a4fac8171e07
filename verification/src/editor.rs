//! The editor screen: its pane grids across the main and popped-out
//! windows, the focused pane, and the command palette and theme editor it
//! can have open.
use vstd::prelude::*;
use vstd::string::StrSliceExecFns;
use vstd::string::StringExecFns;

use crate::config::Config;
use crate::event;
use crate::pane;
use crate::preview;
use crate::strutil;
use crate::theme_editor::ThemeEditor;

use self::command_palette::CommandPalette;
use self::command_palette::VersionInfo;

pub mod command_palette;

verus! {

/// The pane that has keyboard focus, named by its window and its pane id.
#[derive(Clone, Copy, Debug, PartialEq, Eq, Structural)]
pub struct Focus {
    pub window: u64,
    pub pane: u64,
}

/// What one pane is editing.
#[derive(Debug)]
pub struct PaneState {
    pub file: Option<String>,
}

impl Clone for PaneState {
    fn clone(&self) -> (r: Self)
        ensures
            r == *self,
    {
        let file = match &self.file {
            Some(f) => Some(f.clone()),
            None => None,
        };
        proof {
            assert(file == self.file);
        }
        PaneState { file }
    }
}

impl PaneState {
    /// A fresh pane editing nothing.
    pub fn new() -> (p: PaneState)
        ensures
            p.file is None,
    {
        PaneState { file: None }
    }
}

/// One window's pane grid: the layout tree, and one entry per leaf, in
/// leaf order, each carrying its pane id and state.
#[derive(Debug)]
pub struct Grid {
    pub layout: pane::Pane,
    pub panes: Vec<(u64, PaneState)>,
}

impl Clone for Grid {
    fn clone(&self) -> (r: Self)
        ensures
            r.layout == self.layout,
            r.panes@ == self.panes@,
    {
        let mut panes: Vec<(u64, PaneState)> = Vec::new();
        let mut i: usize = 0;
        while i < self.panes.len()
            invariant
                i <= self.panes@.len(),
                panes@ == self.panes@.subrange(0, i as int),
            decreases self.panes@.len() - i,
        {
            panes.push((self.panes[i].0, self.panes[i].1.clone()));
            proof {
                assert(panes@ =~= self.panes@.subrange(0, i + 1));
            }
            i += 1;
        }
        proof {
            assert(self.panes@.subrange(0, self.panes@.len() as int) =~= self.panes@);
        }
        Grid { layout: self.layout.clone(), panes }
    }
}

/// The state stored under a pane id, if any.
pub open spec fn spec_grid_find(panes: Seq<(u64, PaneState)>, id: u64) -> Option<PaneState>
    decreases panes.len(),
{
    if panes.len() == 0 {
        Option::<PaneState>::None
    } else if panes[0].0 == id {
        Some(panes[0].1)
    } else {
        spec_grid_find(panes.drop_first(), id)
    }
}

impl Grid {
    /// A grid is well formed when it has exactly one entry per leaf of its
    /// layout tree, the layout is well formed, and no pane id repeats.
    pub open spec fn well_formed(&self) -> bool {
        &&& self.layout.well_formed()
        &&& self.panes@.len() == self.layout.spec_leaves()
        &&& forall|i: int, j: int|
            0 <= i < j < self.panes@.len() ==> #[trigger] self.panes@[i].0 != #[trigger] self.panes@[j].0
    }

    /// A grid of a single pane under the given id.
    pub fn new(first_id: u64) -> (g: Grid)
        ensures
            g.well_formed(),
            g.layout == pane::Pane::Empty,
            g.panes@.len() == 1,
            g.panes@[0].0 == first_id,
            g.panes@[0].1.file is None,
    {
        let mut panes: Vec<(u64, PaneState)> = Vec::new();
        panes.push((first_id, PaneState::new()));
        Grid { layout: pane::Pane::Empty, panes }
    }

    /// Looks a pane up by id.
    pub fn get(&self, id: u64) -> (r: Option<&PaneState>)
        ensures
            match r {
                Some(p) => spec_grid_find(self.panes@, id) == Some(*p),
                None => spec_grid_find(self.panes@, id) is None,
            },
    {
        proof {
            assert(self.panes@.subrange(0, self.panes@.len() as int) =~= self.panes@);
        }
        let mut i: usize = 0;
        while i < self.panes.len()
            invariant
                i <= self.panes@.len(),
                spec_grid_find(self.panes@, id) == spec_grid_find(
                    self.panes@.subrange(i as int, self.panes@.len() as int),
                    id,
                ),
            decreases self.panes@.len() - i,
        {
            let ghost rest = self.panes@.subrange(i as int, self.panes@.len() as int);
            proof {
                assert(rest[0] == self.panes@[i as int]);
                assert(rest.drop_first() =~= self.panes@.subrange(
                    i + 1,
                    self.panes@.len() as int,
                ));
            }
            if self.panes[i].0 == id {
                return Some(&self.panes[i].1);
            }
            i += 1;
        }
        None
    }

    /// Replaces the state of pane `id`; says whether the pane exists.
    pub fn replace(&mut self, id: u64, state: PaneState) -> (found: bool)
        ensures
            old(self).well_formed() ==> final(self).well_formed(),
            final(self).layout == old(self).layout,
            found == (spec_grid_find(old(self).panes@, id) is Some),
            found ==> exists|i: int|
                {
                    &&& 0 <= i < old(self).panes@.len()
                    &&& old(self).panes@[i].0 == id
                    &&& final(self).panes@ == old(self).panes@.update(i, (id, state))
                },
            !found ==> final(self).panes@ == old(self).panes@,
    {
        proof {
            assert(self.panes@.subrange(0, self.panes@.len() as int) =~= self.panes@);
        }
        let mut i: usize = 0;
        while i < self.panes.len()
            invariant
                i <= self.panes@.len(),
                *self == *old(self),
                spec_grid_find(self.panes@, id) == spec_grid_find(
                    self.panes@.subrange(i as int, self.panes@.len() as int),
                    id,
                ),
            decreases self.panes@.len() - i,
        {
            let ghost rest = self.panes@.subrange(i as int, self.panes@.len() as int);
            proof {
                assert(rest[0] == self.panes@[i as int]);
                assert(rest.drop_first() =~= self.panes@.subrange(
                    i + 1,
                    self.panes@.len() as int,
                ));
            }
            if self.panes[i].0 == id {
                self.panes.set(i, (id, state));
                return true;
            }
            i += 1;
        }
        false
    }

    /// Splits leaf number `index` along `axis` at `ratio`; the new pane
    /// gets `new_id` and sits right after the split one, so the grid stays
    /// well formed and grows by one pane.
    pub fn split(&mut self, index: usize, axis: pane::Axis, ratio: u16, new_id: u64)
        requires
            old(self).well_formed(),
            index < old(self).panes@.len(),
            ratio <= pane::RATIO_UNIT,
            forall|i: int|
                0 <= i < old(self).panes@.len() ==> #[trigger] old(self).panes@[i].0 != new_id,
        ensures
            final(self).well_formed(),
            final(self).layout == old(self).layout.spec_split_at(index as int, axis, ratio),
            final(self).panes@.len() == old(self).panes@.len() + 1,
            final(self).panes@ == old(self).panes@.insert(
                index + 1,
                (new_id, PaneState { file: Option::<String>::None }),
            ),
    {
        let n = self.panes.len();
        proof {
            pane::lemma_split_at(self.layout, index as int, axis, ratio);
            assert(self.layout.spec_leaves() == n);
        }
        let layout = self.layout.clone();
        self.layout = layout.split_at(index, axis, ratio);
        self.panes.insert(index + 1, (new_id, PaneState::new()));
    }

    /// Closes leaf number `index`; in a grid of more than one pane the
    /// grid stays well formed and shrinks by one.
    pub fn close(&mut self, index: usize)
        requires
            old(self).well_formed(),
            index < old(self).panes@.len(),
            old(self).panes@.len() > 1,
        ensures
            final(self).well_formed(),
            final(self).layout == old(self).layout.spec_close_at(index as int),
            final(self).panes@ == old(self).panes@.remove(index as int),
    {
        let n = self.panes.len();
        proof {
            pane::lemma_close_at(self.layout, index as int);
            assert(self.layout.spec_leaves() == n);
        }
        let layout = self.layout.clone();
        self.layout = layout.close_at(index);
        let _ = self.panes.remove(index);
    }
}

/// Every pane grid of the session: the main window's, and one per
/// popped-out window.
#[derive(Debug)]
pub struct Panes {
    pub main_window: u64,
    pub main: Grid,
    pub popout: Vec<(u64, Grid)>,
}

/// The grid stored under a window id, if any.
pub open spec fn spec_popout_find(popout: Seq<(u64, Grid)>, window: u64) -> Option<Grid>
    decreases popout.len(),
{
    if popout.len() == 0 {
        Option::<Grid>::None
    } else if popout[0].0 == window {
        Some(popout[0].1)
    } else {
        spec_popout_find(popout.drop_first(), window)
    }
}

impl Panes {
    /// Every grid well formed, popout window ids unique, and none of them
    /// the main window.
    pub open spec fn well_formed(&self) -> bool {
        &&& self.main.well_formed()
        &&& forall|i: int|
            0 <= i < self.popout@.len() ==> (#[trigger] self.popout@[i]).1.well_formed()
        &&& forall|i: int, j: int|
            0 <= i < j < self.popout@.len() ==> #[trigger] self.popout@[i].0
                != #[trigger] self.popout@[j].0
        &&& forall|i: int|
            0 <= i < self.popout@.len() ==> (#[trigger] self.popout@[i]).0 != self.main_window
    }

    /// A single main window with a single pane.
    pub fn new(main_window: u64, first_pane: u64) -> (p: Panes)
        ensures
            p.well_formed(),
            p.main_window == main_window,
            p.main.panes@.len() == 1,
            p.popout@.len() == 0,
    {
        Panes { main_window, main: Grid::new(first_pane), popout: Vec::new() }
    }

    /// How many places panes live in: the main grid's panes, plus one per
    /// popped-out window.
    pub fn len(&self) -> (n: usize)
        requires
            self.main.panes@.len() + self.popout@.len() <= usize::MAX,
        ensures
            n == self.main.panes@.len() + self.popout@.len(),
    {
        self.main.panes.len() + self.popout.len()
    }

    /// The state a window and pane id name, if they name one: panes of the
    /// main window live in the main grid, all others in their window's
    /// popout grid.
    pub open spec fn spec_get(&self, window: u64, id: u64) -> Option<PaneState> {
        if window == self.main_window {
            spec_grid_find(self.main.panes@, id)
        } else {
            match spec_popout_find(self.popout@, window) {
                Some(grid) => spec_grid_find(grid.panes@, id),
                None => Option::<PaneState>::None,
            }
        }
    }

    /// Looks a pane up by window and pane id.
    pub fn get(&self, window: u64, id: u64) -> (r: Option<&PaneState>)
        ensures
            match r {
                Some(p) => self.spec_get(window, id) == Some(*p),
                None => self.spec_get(window, id) is None,
            },
    {
        if window == self.main_window {
            return self.main.get(id);
        }
        proof {
            assert(self.popout@.subrange(0, self.popout@.len() as int) =~= self.popout@);
        }
        let mut i: usize = 0;
        while i < self.popout.len()
            invariant
                i <= self.popout@.len(),
                window != self.main_window,
                spec_popout_find(self.popout@, window) == spec_popout_find(
                    self.popout@.subrange(i as int, self.popout@.len() as int),
                    window,
                ),
            decreases self.popout@.len() - i,
        {
            let ghost rest = self.popout@.subrange(i as int, self.popout@.len() as int);
            proof {
                assert(rest[0] == self.popout@[i as int]);
                assert(rest.drop_first() =~= self.popout@.subrange(
                    i + 1,
                    self.popout@.len() as int,
                ));
            }
            if self.popout[i].0 == window {
                return self.popout[i].1.get(id);
            }
            i += 1;
        }
        None
    }
}

/// The `(window, pane)` pairs of one grid's panes, in leaf order.
pub open spec fn grid_entries(window: u64, panes: Seq<(u64, PaneState)>) -> Seq<(u64, u64)> {
    panes.map_values(|p: (u64, PaneState)| (window, p.0))
}

/// The `(window, pane)` pairs of every popout grid, window by window.
pub open spec fn spec_popout_entries(popout: Seq<(u64, Grid)>) -> Seq<(u64, u64)>
    decreases popout.len(),
{
    if popout.len() == 0 {
        Seq::empty()
    } else {
        spec_popout_entries(popout.drop_last()) + grid_entries(
            popout.last().0,
            popout.last().1.panes@,
        )
    }
}

impl Panes {
    /// Every pane there is, as `(window, pane)` pairs: the main grid's
    /// first, then each popout window's.
    pub open spec fn spec_entries(&self) -> Seq<(u64, u64)> {
        grid_entries(self.main_window, self.main.panes@) + spec_popout_entries(self.popout@)
    }

    /// Enumerates every pane, main window first, then popout by popout.
    pub fn iter(&self) -> (r: Vec<(u64, u64)>)
        ensures
            r@ == self.spec_entries(),
    {
        let mut out: Vec<(u64, u64)> = Vec::new();
        let mut i: usize = 0;
        while i < self.main.panes.len()
            invariant
                i <= self.main.panes@.len(),
                out@ == grid_entries(self.main_window, self.main.panes@.subrange(0, i as int)),
            decreases self.main.panes@.len() - i,
        {
            out.push((self.main_window, self.main.panes[i].0));
            proof {
                assert(out@ =~= grid_entries(
                    self.main_window,
                    self.main.panes@.subrange(0, i + 1),
                ));
            }
            i += 1;
        }
        proof {
            assert(self.main.panes@.subrange(0, self.main.panes@.len() as int)
                =~= self.main.panes@);
        }
        let ghost head = grid_entries(self.main_window, self.main.panes@);
        let mut w: usize = 0;
        while w < self.popout.len()
            invariant
                w <= self.popout@.len(),
                head == grid_entries(self.main_window, self.main.panes@),
                out@ == head + spec_popout_entries(self.popout@.subrange(0, w as int)),
            decreases self.popout@.len() - w,
        {
            let window = self.popout[w].0;
            let grid = &self.popout[w].1;
            let mut j: usize = 0;
            while j < grid.panes.len()
                invariant
                    j <= grid.panes@.len(),
                    head == grid_entries(self.main_window, self.main.panes@),
                    grid == &self.popout@[w as int].1,
                    window == self.popout@[w as int].0,
                    w < self.popout@.len(),
                    out@ == head + spec_popout_entries(self.popout@.subrange(0, w as int))
                        + grid_entries(window, grid.panes@.subrange(0, j as int)),
                decreases grid.panes@.len() - j,
            {
                out.push((window, grid.panes[j].0));
                proof {
                    assert(out@ =~= head + spec_popout_entries(self.popout@.subrange(0, w as int))
                        + grid_entries(window, grid.panes@.subrange(0, j + 1)));
                }
                j += 1;
            }
            proof {
                let pre = self.popout@.subrange(0, w as int);
                let post = self.popout@.subrange(0, w + 1);
                assert(post.drop_last() =~= pre);
                assert(post.last() == self.popout@[w as int]);
                assert(grid.panes@.subrange(0, grid.panes@.len() as int) =~= grid.panes@);
                assert(out@ =~= head + spec_popout_entries(post));
            }
            w += 1;
        }
        proof {
            assert(self.popout@.subrange(0, self.popout@.len() as int) =~= self.popout@);
        }
        out
    }
}

/// Outside work stepping the editor asks for.
#[derive(Clone, Copy, Debug, PartialEq, Eq, Structural)]
pub enum Action {
    /// Nothing to do.
    Idle,
    /// Close any context menu open on the window.
    CloseContextMenu { window: u64 },
}

/// The editor screen.
#[derive(Debug)]
pub struct Editor {
    pub panes: Panes,
    pub focus: Focus,
    pub command_palette: Option<CommandPalette>,
    pub theme_editor: Option<ThemeEditor>,
}

impl Editor {
    /// An empty editor: one pane in the main window, focused, with no
    /// palette or theme editor open.
    pub fn empty(main_window: u64, first_pane: u64) -> (e: Editor)
        ensures
            e.panes.well_formed(),
            e.panes.main_window == main_window,
            e.focus == (Focus { window: main_window, pane: first_pane }),
            e.command_palette is None,
            e.theme_editor is None,
    {
        Editor {
            panes: Panes::new(main_window, first_pane),
            focus: Focus { window: main_window, pane: first_pane },
            command_palette: None,
            theme_editor: None,
        }
    }

    /// The persisted shape of the session: the main window's layout tree,
    /// and each popped-out window's, under its window id.
    pub fn layouts(&self) -> (r: (pane::Pane, Vec<(u64, pane::Pane)>))
        ensures
            r.0 == self.panes.main.layout,
            r.1@.len() == self.panes.popout@.len(),
            forall|i: int|
                0 <= i < r.1@.len() ==> #[trigger] r.1@[i] == (
                    self.panes.popout@[i].0,
                    self.panes.popout@[i].1.layout,
                ),
    {
        let main = self.panes.main.layout.clone();
        let mut popout: Vec<(u64, pane::Pane)> = Vec::new();
        let mut i: usize = 0;
        while i < self.panes.popout.len()
            invariant
                i <= self.panes.popout@.len(),
                popout@.len() == i,
                forall|j: int|
                    0 <= j < i ==> #[trigger] popout@[j] == (
                        self.panes.popout@[j].0,
                        self.panes.popout@[j].1.layout,
                    ),
            decreases self.panes.popout@.len() - i,
        {
            popout.push((self.panes.popout[i].0, self.panes.popout[i].1.layout.clone()));
            i += 1;
        }
        (main, popout)
    }

    /// The window the main grid lives in.
    pub fn main_window(&self) -> (w: u64)
        ensures
            w == self.panes.main_window,
    {
        self.panes.main_window
    }

    /// Opens the palette when it is closed; closes it and falls back to
    /// the selected theme when it is open.
    pub fn toggle_command_palette(
        &mut self,
        config: &Config,
        version: &VersionInfo,
        theme: &mut preview::Theme,
    )
        ensures
            final(self).panes == old(self).panes,
            final(self).focus == old(self).focus,
            final(self).theme_editor == old(self).theme_editor,
            old(self).command_palette is Some ==> {
                &&& final(self).command_palette is None
                &&& *final(theme) == preview::Theme::Selected(old(theme).spec_selected())
            },
            old(self).command_palette is None ==> {
                &&& (final(self).command_palette matches Some(p) && p.commands@
                    == command_palette::Command::spec_list(config.appearance.all@, *version))
                &&& *final(theme) == *old(theme)
            },
    {
        if self.command_palette.is_some() {
            *theme = theme.selected();
            self.command_palette = None;
        } else {
            self.command_palette = Some(CommandPalette::new(config, version));
        }
    }

    /// Steps the editor on a raw event. Escape on the main window closes an
    /// open palette (restoring the selected theme); escape anywhere else
    /// asks for context menus to close; the palette chord opens the
    /// palette; a bare click does nothing.
    pub fn handle_event(
        &mut self,
        window: u64,
        event: event::Event,
        config: &Config,
        version: &VersionInfo,
        theme: &mut preview::Theme,
    ) -> (action: Action)
        ensures
            final(self).panes == old(self).panes,
            final(self).focus == old(self).focus,
            final(self).theme_editor == old(self).theme_editor,
            match event {
                event::Event::Escape => {
                    if old(self).command_palette is Some && window == old(self).panes.main_window {
                        &&& final(self).command_palette is None
                        &&& *final(theme) == preview::Theme::Selected(old(theme).spec_selected())
                        &&& action == Action::Idle
                    } else {
                        &&& final(self).command_palette == old(self).command_palette
                        &&& *final(theme) == *old(theme)
                        &&& action == (Action::CloseContextMenu { window })
                    }
                },
                event::Event::OpenControlPalette => {
                    &&& action == Action::Idle
                    &&& (if old(self).command_palette is Some {
                        (final(self).command_palette is None) && *final(theme)
                            == preview::Theme::Selected(old(theme).spec_selected())
                    } else {
                        (final(self).command_palette matches Some(p) && p.commands@
                            == command_palette::Command::spec_list(
                            config.appearance.all@,
                            *version,
                        )) && *final(theme) == *old(theme)
                    })
                },
                event::Event::LeftClick => {
                    &&& final(self).command_palette == old(self).command_palette
                    &&& *final(theme) == *old(theme)
                    &&& action == Action::Idle
                },
            },
    {
        match event {
            event::Event::Escape => {
                if self.command_palette.is_some() && window == self.panes.main_window {
                    self.toggle_command_palette(config, version, theme);
                    Action::Idle
                } else {
                    Action::CloseContextMenu { window }
                }
            },
            event::Event::OpenControlPalette => {
                self.toggle_command_palette(config, version, theme);
                Action::Idle
            },
            event::Event::LeftClick => Action::Idle,
        }
    }
}

/// A pane's status line shows its path whole up to sixty characters, and
/// an ellipsis with the last forty otherwise.
pub fn status_path(path: &str) -> (r: String)
    ensures
        path@.len() <= 60 ==> r@ == path@,
        path@.len() > 60 ==> r@ == "..."@ + path@.subrange(path@.len() - 40, path@.len() as int),
{
    let n = path.unicode_len();
    if n > 60 {
        let mut out = String::from_str("...");
        out.append(path.substring_char(n - 40, n));
        out
    } else {
        String::from_str(path)
    }
}

/// A pane's cursor position, written one-based as `line:column`.
pub fn cursor_label(line: u64, column: u64) -> (r: String)
    requires
        line < u64::MAX,
        column < u64::MAX,
    ensures
        r@ == strutil::spec_decimal((line + 1) as nat) + ":"@ + strutil::spec_decimal(
            (column + 1) as nat,
        ),
{
    let mut out = strutil::u64_to_decimal(line + 1);
    out.append(":");
    out.append(strutil::u64_to_decimal(column + 1).as_str());
    out
}

} // verus!
