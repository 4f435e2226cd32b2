use vstd::prelude::*;

use crate::menu::Menu;
use crate::menu_items::menu_item::{model_label, model_wf, submenu_wf, ItemModel, MenuItem};
use crate::menu_items::menu_item_enum::{item_model, MenuItemEnum};
use crate::menu_items::submenu_menu_item::{SubmenuMenuItem, SubmenuView};

verus! {

/// The size of the character grid a renderer fills.
pub struct GridSize {
    pub char_count: int,
    pub line_count: int,
}

impl GridSize {
    pub open spec fn wf(self) -> bool {
        self.char_count >= 3 && self.line_count >= 2
    }
}

/// The first item shown: the start of the page that holds the selection.
pub open spec fn top_visible_idx(selected: int, line_count: int) -> int {
    (selected / line_count) * line_count
}

/// One past the last item shown.
pub open spec fn bottom_visible_idx(selected: int, line_count: int, item_count: int) -> int {
    let top = top_visible_idx(selected, line_count);
    if top + line_count < item_count {
        top + line_count
    } else {
        item_count
    }
}

pub open spec fn spaces(n: int) -> Seq<char> {
    Seq::new(n as nat, |i: int| ' ')
}

/// A label cut or padded with spaces to exactly `width` characters.
pub open spec fn fit(label: Seq<char>, width: int) -> Seq<char> {
    if label.len() > width {
        label.subrange(0, width)
    } else {
        label + spaces(width - label.len())
    }
}

/// `←` on the item being edited, `→` on the selected item otherwise.
pub open spec fn selection_glyph(s: SubmenuView, i: int) -> char {
    if i == s.selected {
        if s.focused {
            '←'
        } else {
            '→'
        }
    } else {
        ' '
    }
}

/// `↑` on the first line when items are hidden above, `↓` on the last line
/// when items are hidden below.
pub open spec fn scroll_glyph(s: SubmenuView, i: int, line_count: int) -> char {
    let top = top_visible_idx(s.selected, line_count);
    let bottom = bottom_visible_idx(s.selected, line_count, s.items.len() as int);
    if i == top && top != 0 {
        '↑'
    } else if i == bottom - 1 && bottom - 1 < s.items.len() - 1 {
        '↓'
    } else {
        ' '
    }
}

/// The line of item `i` of `s`.
pub open spec fn item_line(s: SubmenuView, i: int, size: GridSize) -> Seq<char> {
    let label = model_label(s.items[i], i == s.selected && s.focused);
    seq![selection_glyph(s, i)] + fit(label, size.char_count - 2) + seq![
        scroll_glyph(s, i, size.line_count),
    ]
}

/// The lines of the items on the page that holds the selection.
pub open spec fn visible_lines(s: SubmenuView, size: GridSize) -> Seq<Seq<char>> {
    let top = top_visible_idx(s.selected, size.line_count);
    let bottom = bottom_visible_idx(s.selected, size.line_count, s.items.len() as int);
    Seq::new((bottom - top) as nat, |k: int| item_line(s, top + k, size))
}

/// The submenu whose items are on screen: down the chain of submenus that
/// have been descended into, to the deepest one.
pub open spec fn active_view(s: SubmenuView) -> SubmenuView
    decreases s,
{
    if s.focused && 0 <= s.selected < s.items.len() {
        match s.items[s.selected] {
            ItemModel::Submenu(child) => active_view(child),
            _ => s,
        }
    } else {
        s
    }
}

/// The whole screen for a menu whose root is `root`: the visible lines of
/// the active submenu, then blank lines up to the height of the grid.
pub open spec fn rendered(root: SubmenuView, size: GridSize) -> Seq<Seq<char>> {
    let lines = visible_lines(active_view(root), size);
    lines + Seq::new((size.line_count - lines.len()) as nat, |k: int| spaces(size.char_count))
}

/// Fills a fixed grid of characters with the lines of a menu.
pub struct StringRenderer {
    char_count: usize,
    line_count: usize,
}

impl View for StringRenderer {
    type V = GridSize;

    closed spec fn view(&self) -> GridSize {
        GridSize { char_count: self.char_count as int, line_count: self.line_count as int }
    }
}

/// A line of `width` spaces.
fn blank_line(width: usize) -> (r: String)
    ensures
        r@ == spaces(width as int),
{
    let mut line = String::new();
    let mut k: usize = 0;
    proof {
        assert(line@ =~= spaces(0));
    }
    while k < width
        invariant
            k <= width,
            line@ == spaces(k as int),
        decreases width - k,
    {
        proof {
            reveal_strlit(" ");
        }
        line.append(" ");
        k = k + 1;
        assert(line@ =~= spaces(k as int));
    }
    line
}

/// `label` cut or padded to exactly `width` characters.
fn fit_label(label: &str, width: usize) -> (r: String)
    ensures
        r@ == fit(label@, width as int),
{
    let n = label.unicode_len();
    if n > width {
        String::from_str(label.substring_char(0, width))
    } else {
        let mut line = String::from_str(label);
        let mut k: usize = n;
        proof {
            assert(line@ =~= label@ + spaces(0));
        }
        while k < width
            invariant
                n <= k <= width,
                n == label@.len(),
                line@ == label@ + spaces(k - n),
            decreases width - k,
        {
            proof {
                reveal_strlit(" ");
            }
            line.append(" ");
            k = k + 1;
            assert(line@ =~= label@ + spaces(k - n));
        }
        line
    }
}

impl StringRenderer {
    /// Builds a renderer for a grid of `char_count` columns and `line_count`
    /// rows; fails below three columns or two rows.
    pub fn new(char_count: usize, line_count: usize) -> (r: Result<Self, &'static str>)
        ensures
            char_count < 3 ==> r == Err::<Self, &'static str>(
                "Invalid char count. At least 3 chars required.",
            ),
            char_count >= 3 && line_count < 2 ==> r == Err::<Self, &'static str>(
                "Invalid line count. At least 2 lines required.",
            ),
            char_count >= 3 && line_count >= 2 ==> r is Ok && r->Ok_0@ == (GridSize {
                char_count: char_count as int,
                line_count: line_count as int,
            }),
            r is Ok ==> r->Ok_0@.wf(),
    {
        if char_count < 3 {
            Err("Invalid char count. At least 3 chars required.")
        } else if line_count < 2 {
            Err("Invalid line count. At least 2 lines required.")
        } else {
            Ok(Self { line_count, char_count })
        }
    }

    /// The screen for `menu`: exactly `line_count` lines of `char_count`
    /// characters each.
    pub fn render(&self, menu: &Menu) -> (r: Vec<String>)
        requires
            self@.wf(),
            submenu_wf(menu@),
        ensures
            r@.map_values(|l: String| l@) == rendered(menu@, self@),
    {
        let submenu_item = menu.get_submenu_menu_item();
        let mut lines = self.generate_lines_to_render(submenu_item);
        let ghost shown = visible_lines(active_view(menu@), self@);
        proof {
            lemma_active_wf(menu@);
            lemma_viewport(active_view(menu@), self@);
            assert(lines@.len() == shown.len());
            assert forall|k: int| 0 <= k < lines@.len() implies #[trigger] lines@[k]@ == shown[k] by {
                assert(lines@.map_values(|l: String| l@)[k] == lines@[k]@);
            }
        }
        while lines.len() < self.line_count
            invariant
                self@.wf(),
                shown.len() <= lines@.len() <= self.line_count,
                forall|k: int| 0 <= k < shown.len() ==> #[trigger] lines@[k]@ == shown[k],
                forall|k: int|
                    shown.len() <= k < lines@.len() ==> #[trigger] lines@[k]@ == spaces(
                        self.char_count as int,
                    ),
            decreases self.line_count - lines.len(),
        {
            let line = blank_line(self.char_count);
            lines.push(line);
        }
        assert(lines@.map_values(|l: String| l@) =~= rendered(menu@, self@));
        lines
    }

    /// The lines of the active submenu below `submenu`.
    fn generate_lines_to_render(&self, submenu: &SubmenuMenuItem) -> (r: Vec<String>)
        requires
            self@.wf(),
            submenu_wf(submenu@),
        ensures
            r@.map_values(|l: String| l@) == visible_lines(active_view(submenu@), self@),
        decreases submenu@,
    {
        if submenu.is_focused() {
            if let MenuItemEnum::SubmenuMenuItem(child) = submenu.get_selected_item() {
                return self.generate_lines_to_render(child);
            }
        }
        let ghost s = submenu@;
        assert(active_view(s) == s);
        let selected_item_idx = submenu.get_selected_item_idx();
        let top_visible_item_idx = self.get_top_visible_item_idx(selected_item_idx);
        let items_length = submenu.item_count();
        let bottom_idx = if self.line_count < items_length - top_visible_item_idx {
            top_visible_item_idx + self.line_count
        } else {
            items_length
        };
        let mut lines_to_render: Vec<String> = Vec::new();
        let mut visible_item_idx: usize = top_visible_item_idx;
        while visible_item_idx < bottom_idx
            invariant
                self@.wf(),
                submenu_wf(s),
                s == submenu@,
                top_visible_item_idx == top_visible_idx(s.selected, self@.line_count),
                bottom_idx == bottom_visible_idx(s.selected, self@.line_count, s.items.len() as int),
                top_visible_item_idx <= visible_item_idx <= bottom_idx <= s.items.len(),
                lines_to_render@.len() == visible_item_idx - top_visible_item_idx,
                forall|k: int|
                    0 <= k < lines_to_render@.len() ==> #[trigger] lines_to_render@[k]@ == item_line(
                        s,
                        top_visible_item_idx + k,
                        self@,
                    ),
            decreases bottom_idx - visible_item_idx,
        {
            let visible_item = submenu.get_item(visible_item_idx).unwrap();
            let line_to_render = self.generate_submenu_line_to_render(
                submenu,
                visible_item_idx,
                visible_item,
            );
            lines_to_render.push(line_to_render);
            visible_item_idx = visible_item_idx + 1;
        }
        assert(lines_to_render@.map_values(|l: String| l@) =~= visible_lines(s, self@));
        lines_to_render
    }

    /// The line of item `item_idx` of `submenu`.
    fn generate_submenu_line_to_render(
        &self,
        submenu: &SubmenuMenuItem,
        item_idx: usize,
        item: &MenuItemEnum,
    ) -> (r: String)
        requires
            self@.wf(),
            submenu_wf(submenu@),
            item_idx < submenu@.items.len(),
            item_model(*item) == submenu@.items[item_idx as int],
        ensures
            r@ == item_line(submenu@, item_idx as int, self@),
    {
        let selected_item_idx = submenu.get_selected_item_idx();
        let is_selected_item = item_idx == selected_item_idx;
        let is_item_focused = is_selected_item && submenu.is_focused();
        proof {
            reveal_strlit("←");
            reveal_strlit("→");
            reveal_strlit("↑");
            reveal_strlit("↓");
            reveal_strlit(" ");
        }
        let selection_str: &str = if is_selected_item {
            if is_item_focused {
                "←"
            } else {
                "→"
            }
        } else {
            " "
        };
        let label = item.get_label(is_item_focused);
        let label_fitted = fit_label(label.as_str(), self.char_count - 2);

        let top_visible_item_idx = self.get_top_visible_item_idx(selected_item_idx);
        let items_length = submenu.item_count();
        let bottom_idx = if self.line_count < items_length - top_visible_item_idx {
            top_visible_item_idx + self.line_count
        } else {
            items_length
        };
        let arrow_str: &str = if item_idx == top_visible_item_idx && top_visible_item_idx != 0 {
            "↑"
        } else if item_idx + 1 == bottom_idx && bottom_idx < items_length {
            "↓"
        } else {
            " "
        };

        let mut line_str = String::new();
        line_str.append(selection_str);
        line_str.append(label_fitted.as_str());
        line_str.append(arrow_str);
        assert(line_str@ =~= item_line(submenu@, item_idx as int, self@));
        line_str
    }

    /// The first item of the page that holds `selected_item_idx`.
    fn get_top_visible_item_idx(&self, selected_item_idx: usize) -> (r: usize)
        requires
            self@.wf(),
        ensures
            r == top_visible_idx(selected_item_idx as int, self@.line_count),
            r <= selected_item_idx,
    {
        proof {
            lemma_page_start(selected_item_idx as int, self.line_count as int);
        }
        let div = selected_item_idx / self.line_count;
        div * self.line_count
    }
}

/// The page that holds the selection starts at or before it and ends after it.
proof fn lemma_page_start(selected: int, line_count: int)
    requires
        0 <= selected,
        0 < line_count,
    ensures
        0 <= top_visible_idx(selected, line_count) <= selected,
        selected < top_visible_idx(selected, line_count) + line_count,
{
    vstd::arithmetic::div_mod::lemma_fundamental_div_mod(selected, line_count);
    vstd::arithmetic::div_mod::lemma_mod_pos_bound(selected, line_count);
    vstd::arithmetic::div_mod::lemma_div_pos_is_pos(selected, line_count);
    assert((selected / line_count) * line_count == line_count * (selected / line_count)) by (nonlinear_arith);
    assert(0 <= (selected / line_count) * line_count) by (nonlinear_arith)
        requires
            0 <= selected / line_count,
            0 < line_count,
    ;
}

/// The submenu on screen is well formed when the root is.
proof fn lemma_active_wf(s: SubmenuView)
    requires
        submenu_wf(s),
    ensures
        submenu_wf(active_view(s)),
    decreases s,
{
    if s.focused && 0 <= s.selected < s.items.len() {
        if let ItemModel::Submenu(child) = s.items[s.selected] {
            assert(model_wf(s.items[s.selected]));
            lemma_active_wf(child);
        }
    }
}

/// The viewport holds the selection, and it shows as many lines as the
/// grid is high or, on the last page, as there are items left.
pub proof fn lemma_viewport(s: SubmenuView, size: GridSize)
    requires
        submenu_wf(s),
        size.line_count >= 1,
    ensures
        top_visible_idx(s.selected, size.line_count) <= s.selected < top_visible_idx(
            s.selected,
            size.line_count,
        ) + size.line_count,
        visible_lines(s, size).len() == if size.line_count < s.items.len() - top_visible_idx(
            s.selected,
            size.line_count,
        ) {
            size.line_count
        } else {
            s.items.len() - top_visible_idx(s.selected, size.line_count)
        },
{
    lemma_page_start(s.selected, size.line_count);
}

} // verus!
