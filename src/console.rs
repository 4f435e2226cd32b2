use vstd::prelude::*;

use crate::menu::Menu;
use crate::menu_items::menu_item::submenu_wf;
use crate::menu_items::submenu_menu_item::SubmenuView;
use crate::renderer::string_renderer::{rendered, GridSize, StringRenderer};

verus! {

/// The abstract state of a console: the grid it draws, the last tick it
/// saw and the screen it last drew.
pub struct ConsoleView {
    pub size: GridSize,
    pub last_tick_id: Option<usize>,
    pub last_lines: Seq<Seq<char>>,
}

/// One tick: a tick id equal to the last one is ignored without rendering;
/// otherwise the menu is rendered, and drawn only if the screen changed.
/// Also tells whether to draw.
pub open spec fn ticked(c: ConsoleView, tick_id: usize, root: SubmenuView) -> (ConsoleView, bool) {
    if c.last_tick_id == Some(tick_id) {
        (c, false)
    } else {
        let lines = rendered(root, c.size);
        if lines == c.last_lines {
            (ConsoleView { last_tick_id: Some(tick_id), ..c }, false)
        } else {
            (ConsoleView { last_tick_id: Some(tick_id), last_lines: lines, ..c }, true)
        }
    }
}

/// A repeated tick is ignored whatever the menu holds; a tick that is not
/// ignored leaves the current screen as the last one drawn; and while the
/// screen has not changed no tick asks to draw.
pub proof fn lemma_redraw_only_on_change(
    c: ConsoleView,
    tick_id: usize,
    root: SubmenuView,
    later_root: SubmenuView,
)
    ensures
        ticked(ticked(c, tick_id, root).0, tick_id, later_root) == (ticked(c, tick_id, root).0, false),
        c.last_tick_id != Some(tick_id) ==> ticked(c, tick_id, root).0.last_lines == rendered(
            root,
            c.size,
        ),
        c.last_lines == rendered(root, c.size) ==> !ticked(c, tick_id, root).1,
{
}

/// Decides, tick by tick, when the screen of a menu has to be drawn again.
/// Drawing itself is left to the caller.
pub struct ConsoleRenderer {
    renderer: StringRenderer,
    last_tick_id: Option<usize>,
    last_rendered_lines: Vec<String>,
}

impl View for ConsoleRenderer {
    type V = ConsoleView;

    closed spec fn view(&self) -> ConsoleView {
        ConsoleView {
            size: self.renderer@,
            last_tick_id: self.last_tick_id,
            last_lines: self.last_rendered_lines@.map_values(|l: String| l@),
        }
    }
}

/// Whether two screens hold the same lines.
fn same_lines(a: &Vec<String>, b: &Vec<String>) -> (r: bool)
    ensures
        r == (a@.map_values(|l: String| l@) == b@.map_values(|l: String| l@)),
{
    if a.len() != b.len() {
        proof {
            assert(a@.map_values(|l: String| l@).len() != b@.map_values(|l: String| l@).len());
        }
        return false;
    }
    let mut i: usize = 0;
    while i < a.len()
        invariant
            a@.len() == b@.len(),
            i <= a@.len(),
            forall|k: int| 0 <= k < i ==> #[trigger] a@[k]@ == b@[k]@,
        decreases a.len() - i,
    {
        if a[i] != b[i] {
            proof {
                assert(a@.map_values(|l: String| l@)[i as int] != b@.map_values(
                    |l: String| l@,
                )[i as int]);
            }
            return false;
        }
        i = i + 1;
    }
    assert(a@.map_values(|l: String| l@) =~= b@.map_values(|l: String| l@));
    true
}

impl ConsoleRenderer {
    /// A console that has seen no tick and drawn nothing yet.
    pub fn new(renderer: StringRenderer) -> (r: ConsoleRenderer)
        ensures
            r@ == (ConsoleView { size: renderer@, last_tick_id: None, last_lines: Seq::empty() }),
    {
        let r = ConsoleRenderer { renderer, last_tick_id: None, last_rendered_lines: Vec::new() };
        assert(r@.last_lines =~= Seq::empty());
        r
    }

    /// Handles one tick; tells whether `last_rendered_lines` now holds a
    /// screen to draw.
    pub fn tick(&mut self, tick_id: usize, menu: &Menu) -> (r: bool)
        requires
            old(self)@.size.wf(),
            submenu_wf(menu@),
        ensures
            (final(self)@, r) == ticked(old(self)@, tick_id, menu@),
    {
        if self.last_tick_id == Some(tick_id) {
            return false;
        }
        let lines_to_render = self.renderer.render(menu);
        let changed = !same_lines(&lines_to_render, &self.last_rendered_lines);
        if changed {
            self.last_rendered_lines = lines_to_render;
        }
        self.last_tick_id = Some(tick_id);
        changed
    }

    /// The screen drawn last.
    pub fn last_rendered_lines(&self) -> (r: &Vec<String>)
        ensures
            r@.map_values(|l: String| l@) == self@.last_lines,
    {
        &self.last_rendered_lines
    }
}

} // verus!
