//! The popup menu: its builder and where it lays out its items.
//!
//! The menu is drawn outside the area it is given: above, left of, right of
//! or below it, and moved back into its boundary where it sticks out.

use crate::geometry::{rect_new, rect_size, sat_sub, Area, ZArea};
use crate::item::{is_parsed_item, pushed_one, separator_code, with_separator, MenuBuilder, MenuItem, Separator};
use crate::state::PopupMenuState;
use crate::style::MenuStyle;
use crate::text::{ascii_lower, to_ascii_lowercase};
use vstd::string::StrSliceExecFns;
use ratatui::style::Style;
use ratatui::widgets::Block;
use vstd::prelude::*;

verus! {

/// Where the menu goes, relative to the area it is given.
#[derive(Debug, Clone, Copy, PartialEq, Eq, Structural)]
pub enum Placement {
    /// Above the area, slightly left so that the texts align with it.
    Top,
    /// Left of the area, at its top; for a submenu opening to the left.
    Left,
    /// Right of the area, at its top; for a submenu opening to the right.
    Right,
    /// Below the area, slightly left so that the texts align with it.
    Bottom,
}

impl Default for Placement {
    /// `Top`.
    fn default() -> (r: Placement)
        ensures
            r == Placement::Top,
    {
        Placement::Top
    }
}

/// A popup menu.
#[derive(Debug, Clone)]
pub struct PopupMenu<'a> {
    pub menu: MenuBuilder,
    /// Fixed width; otherwise 1.5 times the longest item text plus its
    /// right-hand text.
    pub width: Option<u16>,
    pub placement: Placement,
    /// Outer bounds; otherwise the buffer area.
    pub boundary: Option<Area>,
    pub style: Style,
    pub highlight_style: Option<Style>,
    pub disabled_style: Option<Style>,
    pub right_style: Option<Style>,
    pub focus_style: Option<Style>,
    pub block: Option<Block<'a>>,
    /// Whether the items are indented for the block's borders.
    pub block_indent: bool,
}

// ----- measures of the item list -----

/// The width an item asks for: 1.5 times its text plus its right-hand text.
pub open spec fn text_width_of(it: MenuItem) -> int {
    (it.item_width_spec() * 3) / 2 + it.right_width_spec()
}

/// The widest item of the list, or 0.
pub open spec fn widest(items: Seq<MenuItem>) -> int
    decreases items.len(),
{
    if items.len() == 0 {
        0
    } else {
        let w = widest(items.drop_last());
        let t = text_width_of(items.last());
        if t > w {
            t
        } else {
            w
        }
    }
}

/// The item widths are computed in `u16` without overflow.
pub open spec fn widths_fit(items: Seq<MenuItem>) -> bool {
    forall|i: int|
        #![trigger items[i]]
        0 <= i < items.len() ==> items[i].item_width_spec() * 3 <= u16::MAX && text_width_of(
            items[i],
        ) <= u16::MAX
}

/// The rows that the items take together.
pub open spec fn total_height(items: Seq<MenuItem>) -> int
    decreases items.len(),
{
    if items.len() == 0 {
        0
    } else {
        total_height(items.drop_last()) + items.last().height_spec()
    }
}

/// The navigation characters of the items, lower-case.
pub open spec fn nav_chars(items: Seq<MenuItem>) -> Seq<Option<char>> {
    Seq::new(
        items.len(),
        |i: int|
            match items[i].navchar {
                Some(c) => Some(ascii_lower(c)),
                None => None,
            },
    )
}

/// The disabled flags of the items.
pub open spec fn disabled_flags(items: Seq<MenuItem>) -> Seq<bool> {
    Seq::new(items.len(), |i: int| items[i].disabled)
}

impl<'a> PopupMenu<'a> {
    /// The items.
    pub open spec fn items(&self) -> Seq<MenuItem> {
        self.menu.items@
    }

    /// Width of the item column.
    pub open spec fn menu_width(&self) -> int {
        match self.width {
            Some(w) => w as int,
            None => if self.items().len() == 0 {
                10
            } else {
                widest(self.items())
            },
        }
    }

    /// Rows of all items.
    pub open spec fn menu_height(&self) -> int {
        total_height(self.items())
    }

    /// Columns between the border and the item texts.
    pub open spec fn hpad(&self) -> int {
        if self.block_indent {
            2
        } else {
            1
        }
    }

    /// Columns between the border and the separators.
    pub open spec fn hpad_sep(&self) -> int {
        if self.block_indent {
            1
        } else {
            0
        }
    }

    /// Row offset of item `i` below the first item.
    pub open spec fn row(&self, i: int) -> int {
        total_height(self.items().take(i))
    }

    /// Width of the whole popup.
    pub open spec fn outer_width(&self) -> int {
        self.menu_width() + 2 * self.hpad()
    }

    /// Height of the whole popup: the items and a row above and below.
    pub open spec fn outer_height(&self) -> int {
        self.menu_height() + 2
    }

    /// The sizes are computed in `u16` without overflow.
    pub open spec fn size_ok(&self) -> bool {
        &&& (self.width is None ==> widths_fit(self.items()))
        &&& self.outer_height() <= u16::MAX
        &&& self.outer_width() <= u16::MAX
    }

    /// The position next to `area` is computed without overflow.
    pub open spec fn origin_ok(&self, area: Area) -> bool {
        match self.placement {
            Placement::Right => area.x + area.width <= u16::MAX,
            Placement::Bottom => area.y + area.height <= u16::MAX,
            _ => true,
        }
    }

    /// Top-left corner of the popup next to `area`, before it is moved into
    /// its bounds.
    pub open spec fn origin(&self, area: Area) -> (u16, u16) {
        match self.placement {
            Placement::Top => (
                sat_sub(area.x, self.hpad() as u16),
                sat_sub(area.y, self.outer_height() as u16),
            ),
            Placement::Left => (sat_sub(area.x, self.outer_width() as u16), area.y),
            Placement::Right => ((area.x + area.width) as u16, area.y),
            Placement::Bottom => (sat_sub(area.x, self.hpad() as u16), (area.y + area.height) as u16),
        }
    }

    /// The popup next to `area`, with the size that `Rect::new` gives it.
    pub open spec fn raw_area(&self, area: Area) -> Area {
        let o = self.origin(area);
        let sz = rect_size(self.outer_width() as u16, self.outer_height() as u16);
        Area { x: o.0, y: o.1, width: sz.0, height: sz.1 }
    }

    /// The popup, moved left and up by as much as it sticks out right of
    /// and below `fit_in` (as far as the screen edge allows).
    pub open spec fn popup_area(&self, area: Area, fit_in: Area) -> Area {
        let r = self.raw_area(area);
        let x = if r.right_spec() >= fit_in.right_spec() {
            sat_sub(r.x, sat_sub(r.right_spec(), fit_in.right_spec()))
        } else {
            r.x
        };
        let y = if r.bottom_spec() >= fit_in.bottom_spec() {
            sat_sub(r.y, sat_sub(r.bottom_spec(), fit_in.bottom_spec()))
        } else {
            r.y
        };
        Area { x, y, width: r.width, height: r.height }
    }

    /// The popup `p` of the menu next to `area` within `fit_in` has been
    /// moved only left and up, and only where it stuck out; it is no larger
    /// than asked for; and, where it did not reach past `u16::MAX` before it
    /// was moved, it ends within `fit_in` or is no wider (higher) than the
    /// popup asked for.
    pub open spec fn moved_back(&self, area: Area, fit_in: Area, p: Area) -> bool {
        let r = self.raw_area(area);
        &&& p.x <= r.x
        &&& p.y <= r.y
        &&& p.width == r.width
        &&& p.height == r.height
        &&& p.width <= self.outer_width()
        &&& p.height <= self.outer_height()
        &&& r.right_spec() <= fit_in.right_spec() ==> p.x == r.x
        &&& r.bottom_spec() <= fit_in.bottom_spec() ==> p.y == r.y
        &&& r.x + r.width <= u16::MAX ==> (p.right_spec() <= fit_in.right_spec()
            || p.right_spec() <= self.outer_width())
        &&& r.y + r.height <= u16::MAX ==> (p.bottom_spec() <= fit_in.bottom_spec()
            || p.bottom_spec() <= self.outer_height())
    }

    /// The item rows are computed without overflow.
    pub open spec fn rows_ok(&self, area: Area, fit_in: Area) -> bool {
        let p = self.popup_area(area, fit_in);
        let n = self.items().len() as int;
        n > 0 ==> {
            &&& p.x + self.hpad() <= u16::MAX
            &&& self.row(n - 1) + p.y + 2 <= u16::MAX
        }
    }

    /// The layout is computed without overflow.
    pub open spec fn layout_ok(&self, area: Area, fit_in: Area) -> bool {
        &&& self.size_ok()
        &&& self.origin_ok(area)
        &&& self.rows_ok(area, fit_in)
    }

    /// The area of item `i` in the popup `p`.
    pub open spec fn item_area(&self, p: Area, i: int) -> Area {
        Area {
            x: (p.x + self.hpad()) as u16,
            y: (self.row(i) + p.y + 1) as u16,
            width: self.menu_width() as u16,
            height: 1,
        }
    }

    /// The area of the separator below item `i` in the popup `p`: one row,
    /// or none where the item has no separator.
    pub open spec fn sep_area(&self, p: Area, i: int) -> Area {
        Area {
            x: (p.x + self.hpad_sep()) as u16,
            y: (self.row(i) + 1 + p.y + 1) as u16,
            width: (self.menu_width() + 2) as u16,
            height: if self.items()[i].separator is None {
                0
            } else {
                1
            },
        }
    }

    /// `new` holds the layout of the menu next to `area` within `fit_in`:
    /// the popup area and the areas of the items and their separators.
    pub open spec fn laid_out_areas(&self, area: Area, fit_in: Area, new: PopupMenuState) -> bool {
        let p = self.popup_area(area, fit_in);
        let n = self.items().len() as int;
        &&& new.area == p
        &&& self.moved_back(area, fit_in, p)
        &&& new.z_areas[0] == (ZArea { z: 1, area: p })
        &&& new.item_areas@.len() == n
        &&& new.sep_areas@.len() == n
        &&& forall|i: int| 0 <= i < n ==> #[trigger] new.item_areas@[i] == self.item_area(p, i)
        &&& forall|i: int| 0 <= i < n ==> #[trigger] new.sep_areas@[i] == self.sep_area(p, i)
    }

    /// `new` holds the layout of the menu next to `area` within `fit_in`,
    /// and everything else of `old`.
    pub open spec fn laid_out(
        &self,
        area: Area,
        fit_in: Area,
        old: PopupMenuState,
        new: PopupMenuState,
    ) -> bool {
        &&& self.laid_out_areas(area, fit_in, new)
        &&& new.navchar@ == old.navchar@
        &&& new.disabled@ == old.disabled@
        &&& new.selected == old.selected
        &&& new.focus == old.focus
        &&& new.mouse == old.mouse
    }

    /// Everything of `other` but the items.
    pub open spec fn same_but_menu(&self, other: PopupMenu<'a>) -> bool {
        &&& self.width == other.width
        &&& self.placement == other.placement
        &&& self.boundary == other.boundary
        &&& self.style == other.style
        &&& self.highlight_style == other.highlight_style
        &&& self.disabled_style == other.disabled_style
        &&& self.right_style == other.right_style
        &&& self.focus_style == other.focus_style
        &&& self.block == other.block
        &&& self.block_indent == other.block_indent
    }

    /// The bounds the menu keeps to: the boundary, or else the buffer area.
    pub open spec fn fit_area(&self, buf_area: Area) -> Area {
        match self.boundary {
            Some(b) => b,
            None => buf_area,
        }
    }
}

impl<'a> Default for PopupMenu<'a> {
    /// No items, no fixed width, placed on top, no boundary, the default
    /// base style, no special styles and no block.
    fn default() -> (r: PopupMenu<'a>)
        ensures
            r.items().len() == 0,
            r.width is None,
            r.placement == Placement::Top,
            r.boundary is None,
            r.highlight_style is None,
            r.disabled_style is None,
            r.right_style is None,
            r.focus_style is None,
            r.block is None,
            !r.block_indent,
    {
        PopupMenu {
            menu: MenuBuilder::new(),
            width: None,
            placement: Placement::default(),
            boundary: None,
            style: Style::default(),
            highlight_style: None,
            disabled_style: None,
            right_style: None,
            focus_style: None,
            block: None,
            block_indent: false,
        }
    }
}

impl<'a> PopupMenu<'a> {
    /// A menu without items.
    pub fn new() -> (r: PopupMenu<'a>)
        ensures
            r.items().len() == 0,
            r.width is None,
            r.placement == Placement::Top,
            r.boundary is None,
            r.highlight_style is None,
            r.disabled_style is None,
            r.right_style is None,
            r.focus_style is None,
            r.block is None,
            !r.block_indent,
    {
        PopupMenu::default()
    }

    /// Adds an item.
    pub fn item(self, item: MenuItem) -> (r: PopupMenu<'a>)
        ensures
            r.items() == self.items().push(item),
            r.same_but_menu(self),
    {
        let mut s = self;
        s.menu.item(item);
        s
    }

    /// Adds the item that the text describes (see [MenuItem::new_parsed]);
    /// a separator code sets the separator of the last item.
    pub fn item_parsed(self, text: &str) -> (r: PopupMenu<'a>)
        ensures
            match separator_code(text@) {
                Some(sep) => with_separator(self.items(), sep, r.items()),
                None => {
                    &&& pushed_one(self.items(), r.items())
                    &&& is_parsed_item(r.items().last(), text@)
                },
            },
            r.same_but_menu(self),
    {
        let mut s = self;
        s.menu.item_parsed(text);
        s
    }

    /// Adds an item with this text.
    pub fn item_str(self, txt: &str) -> (r: PopupMenu<'a>)
        ensures
            pushed_one(self.items(), r.items()),
            r.items().last().plain(txt@),
            r.same_but_menu(self),
    {
        let mut s = self;
        s.menu.item_str(txt);
        s
    }

    /// Adds an item with this owned text.
    pub fn item_string(self, txt: String) -> (r: PopupMenu<'a>)
        ensures
            pushed_one(self.items(), r.items()),
            r.items().last().plain(txt@),
            r.same_but_menu(self),
    {
        let mut s = self;
        s.menu.item_string(txt);
        s
    }

    /// Sets the separator of the last item; where there is none, adds an
    /// empty item with it.
    pub fn separator(self, separator: Separator) -> (r: PopupMenu<'a>)
        ensures
            with_separator(self.items(), separator, r.items()),
            r.same_but_menu(self),
    {
        let mut s = self;
        s.menu.separator(separator);
        s
    }

    /// Fixed width of the item column.
    pub fn width(self, width: u16) -> (r: PopupMenu<'a>)
        ensures
            r == (PopupMenu { width: Some(width), ..self }),
    {
        let mut s = self;
        s.width = Some(width);
        s
    }

    /// Placement relative to the area it is drawn at.
    pub fn placement(self, placement: Placement) -> (r: PopupMenu<'a>)
        ensures
            r == (PopupMenu { placement, ..self }),
    {
        let mut s = self;
        s.placement = placement;
        s
    }

    /// Outer bounds of the menu; without them it keeps to the buffer area.
    pub fn boundary(self, boundary: Area) -> (r: PopupMenu<'a>)
        ensures
            r == (PopupMenu { boundary: Some(boundary), ..self }),
    {
        let mut s = self;
        s.boundary = Some(boundary);
        s
    }

    /// Takes all styles from a style set.
    pub fn styles(self, styles: MenuStyle) -> (r: PopupMenu<'a>)
        ensures
            r == (PopupMenu {
                style: styles.style,
                disabled_style: styles.disabled,
                right_style: styles.right,
                highlight_style: styles.highlight,
                focus_style: styles.focus,
                ..self
            }),
    {
        let mut s = self;
        s.style = styles.style;
        s.disabled_style = styles.disabled;
        s.right_style = styles.right;
        s.highlight_style = styles.highlight;
        s.focus_style = styles.focus;
        s
    }

    /// Base style.
    pub fn style(self, style: Style) -> (r: PopupMenu<'a>)
        ensures
            r == (PopupMenu { style, ..self }),
    {
        let mut s = self;
        s.style = style;
        s
    }

    /// Style of the navigation character.
    pub fn highlight_style(self, style: Style) -> (r: PopupMenu<'a>)
        ensures
            r == (PopupMenu { highlight_style: Some(style), ..self }),
    {
        let mut s = self;
        s.highlight_style = Some(style);
        s
    }

    /// Style of disabled items.
    pub fn disabled_style(self, style: Style) -> (r: PopupMenu<'a>)
        ensures
            r == (PopupMenu { disabled_style: Some(style), ..self }),
    {
        let mut s = self;
        s.disabled_style = Some(style);
        s
    }

    /// Style of the right-hand texts.
    pub fn right_style(self, style: Style) -> (r: PopupMenu<'a>)
        ensures
            r == (PopupMenu { right_style: Some(style), ..self }),
    {
        let mut s = self;
        s.right_style = Some(style);
        s
    }

    /// Style of the selected item.
    pub fn focus_style(self, style: Style) -> (r: PopupMenu<'a>)
        ensures
            r == (PopupMenu { focus_style: Some(style), ..self }),
    {
        let mut s = self;
        s.focus_style = Some(style);
        s
    }

    /// A block around the menu; the items are indented for its borders.
    pub fn block(self, block: Block<'a>) -> (r: PopupMenu<'a>)
        ensures
            r == (PopupMenu { block: Some(block), block_indent: true, ..self }),
    {
        let mut s = self;
        s.block = Some(block);
        s.block_indent = true;
        s
    }
}

/// Rows are never negative.
pub proof fn lemma_total_height_nonneg(items: Seq<MenuItem>)
    ensures
        total_height(items) >= 0,
    decreases items.len(),
{
    if items.len() > 0 {
        lemma_total_height_nonneg(items.drop_last());
    }
}

/// Widths are never negative.
pub proof fn lemma_widest_nonneg(items: Seq<MenuItem>)
    ensures
        widest(items) >= 0,
    decreases items.len(),
{
    if items.len() > 0 {
        lemma_widest_nonneg(items.drop_last());
    }
}

impl<'a> PopupMenu<'a> {
    /// The outer size is never negative.
    pub proof fn lemma_outer_size_nonneg(&self)
        ensures
            self.menu_width() >= 0,
            self.outer_width() >= 2,
            self.outer_height() >= 2,
            forall|i: int| #[trigger] self.row(i) >= 0,
    {
        lemma_widest_nonneg(self.items());
        lemma_total_height_nonneg(self.items());
        assert forall|i: int| #[trigger] self.row(i) >= 0 by {
            lemma_total_height_nonneg(self.items().take(i));
        }
    }
}

/// `total_height` of a prefix grows by the height of the next item.
pub proof fn lemma_total_height_step(items: Seq<MenuItem>, i: int)
    requires
        0 <= i < items.len(),
    ensures
        total_height(items.take(i + 1)) == total_height(items.take(i)) + items[i].height_spec(),
{
    assert(items.take(i + 1).drop_last() =~= items.take(i));
}

/// Rows of a prefix never exceed those of a longer prefix; each item takes
/// at least one row.
pub proof fn lemma_total_height_mono(items: Seq<MenuItem>, i: int, j: int)
    requires
        0 <= i <= j <= items.len(),
    ensures
        total_height(items.take(i)) + (j - i) <= total_height(items.take(j)),
    decreases j - i,
{
    if i < j {
        lemma_total_height_mono(items, i, j - 1);
        lemma_total_height_step(items, j - 1);
    }
}

impl<'a> PopupMenu<'a> {
    /// Width of the item column; `None` where an item width overflows `u16`.
    fn menu_width_exec(&self) -> (r: Option<u16>)
        ensures
            match r {
                Some(w) => (self.width is None ==> widths_fit(self.items())) && w == self.menu_width(),
                None => self.width is None && !widths_fit(self.items()),
            },
    {
        if let Some(width) = self.width {
            return Some(width);
        }
        let n = self.menu.items.len();
        if n == 0 {
            return Some(10);
        }
        let mut cur: u16 = 0;
        let mut i: usize = 0;
        while i < n
            invariant
                n == self.items().len(),
                n > 0,
                self.width is None,
                i <= n,
                cur == widest(self.items().take(i as int)),
                forall|k: int|
                    #![trigger self.items()[k]]
                    0 <= k < i ==> self.items()[k].item_width_spec() * 3 <= u16::MAX
                        && text_width_of(self.items()[k]) <= u16::MAX,
            decreases n - i,
        {
            let item = &self.menu.items[i];
            let iw = item.item_width();
            let rw = item.right_width();
            if iw > 21845 || (iw * 3) / 2 > u16::MAX - rw {
                proof {
                    assert(self.items()[i as int] == *item);
                }
                return None;
            }
            let t = (iw * 3) / 2 + rw;
            proof {
                let s = self.items().take(i + 1);
                assert(s.drop_last() =~= self.items().take(i as int));
                assert(s.last() == self.items()[i as int]);
            }
            if t > cur {
                cur = t;
            }
            i = i + 1;
        }
        proof {
            assert(self.items().take(n as int) =~= self.items());
        }
        Some(cur)
    }

    /// Rows of all items; `None` where they overflow `u16`.
    fn menu_height_exec(&self) -> (r: Option<u16>)
        ensures
            match r {
                Some(h) => h == self.menu_height(),
                None => self.menu_height() > u16::MAX,
            },
    {
        let n = self.menu.items.len();
        let mut acc: u16 = 0;
        let mut i: usize = 0;
        while i < n
            invariant
                n == self.items().len(),
                i <= n,
                acc == total_height(self.items().take(i as int)),
            decreases n - i,
        {
            let h = self.menu.items[i].height();
            proof {
                lemma_total_height_step(self.items(), i as int);
            }
            if acc > u16::MAX - h {
                proof {
                    lemma_total_height_mono(self.items(), i + 1, n as int);
                    assert(self.items().take(n as int) =~= self.items());
                }
                return None;
            }
            acc = acc + h;
            i = i + 1;
        }
        proof {
            assert(self.items().take(n as int) =~= self.items());
        }
        Some(acc)
    }

    /// The popup next to `area`, moved into `fit_in`.
    fn popup_area_exec(&self, area: Area, fit_in: Area, width: u16, height: u16) -> (r: Area)
        requires
            width == self.menu_width(),
            height == self.menu_height(),
            self.size_ok(),
            self.origin_ok(area),
        ensures
            r == self.popup_area(area, fit_in),
            self.moved_back(area, fit_in, r),
    {
        let vertical_padding: u16 = 1;
        let horizontal_padding: u16 = if self.block_indent {
            2
        } else {
            1
        };
        let mut area = match self.placement {
            Placement::Top => rect_new(
                area.x.saturating_sub(horizontal_padding),
                area.y.saturating_sub(height + vertical_padding * 2),
                width + horizontal_padding * 2,
                height + vertical_padding * 2,
            ),
            Placement::Left => rect_new(
                area.x.saturating_sub(width + horizontal_padding * 2),
                area.y,
                width + horizontal_padding * 2,
                height + vertical_padding * 2,
            ),
            Placement::Right => rect_new(
                area.x + area.width,
                area.y,
                width + horizontal_padding * 2,
                height + vertical_padding * 2,
            ),
            Placement::Bottom => rect_new(
                area.x.saturating_sub(horizontal_padding),
                area.y + area.height,
                width + horizontal_padding * 2,
                height + vertical_padding * 2,
            ),
        };
        if area.right() >= fit_in.right() {
            let corr = area.right().saturating_sub(fit_in.right());
            area.x = area.x.saturating_sub(corr);
        }
        if area.bottom() >= fit_in.bottom() {
            let corr = area.bottom().saturating_sub(fit_in.bottom());
            area.y = area.y.saturating_sub(corr);
        }
        area
    }

    /// Lays the menu out next to `area`, kept within `fit_in`: the popup
    /// area, and the area of each item and of the separator below it.
    pub fn layout(&self, area: Area, fit_in: Area, state: &mut PopupMenuState)
        requires
            self.layout_ok(area, fit_in),
        ensures
            self.laid_out(area, fit_in, *old(state), *final(state)),
    {
        let width = self.menu_width_exec().unwrap();
        let height = self.menu_height_exec().unwrap();
        let vertical_padding: u16 = 1;
        let horizontal_padding: u16 = if self.block_indent {
            2
        } else {
            1
        };
        let horizontal_padding_separator: u16 = if self.block_indent {
            1
        } else {
            0
        };
        let ghost area0 = area;
        let area = self.popup_area_exec(area, fit_in, width, height);

        state.area = area;
        state.z_areas = [ZArea { z: 1, area }];

        state.item_areas.clear();
        state.sep_areas.clear();

        let n = self.menu.items.len();
        let ghost p = area;
        let mut row: u16 = 0;
        let mut i: usize = 0;
        while i < n
            invariant
                n == self.items().len(),
                i <= n,
                self.layout_ok(area0, fit_in),
                p == self.popup_area(area0, fit_in),
                area == p,
                width == self.menu_width(),
                horizontal_padding == self.hpad(),
                horizontal_padding_separator == self.hpad_sep(),
                vertical_padding == 1,
                row == self.row(i as int),
                state.item_areas@.len() == i,
                state.sep_areas@.len() == i,
                forall|k: int| 0 <= k < i ==> #[trigger] state.item_areas@[k] == self.item_area(p, k),
                forall|k: int| 0 <= k < i ==> #[trigger] state.sep_areas@[k] == self.sep_area(p, k),
                state.area == p,
                state.z_areas[0] == (ZArea { z: 1, area: p }),
                state.navchar@ == old(state).navchar@,
                state.disabled@ == old(state).disabled@,
                state.selected == old(state).selected,
                state.focus == old(state).focus,
                state.mouse == old(state).mouse,
            decreases n - i,
        {
            let item = &self.menu.items[i];
            proof {
                lemma_total_height_mono(self.items(), i as int, (n - 1) as int);
                lemma_total_height_step(self.items(), i as int);
                lemma_total_height_mono(self.items(), (i + 1) as int, n as int);
                assert(self.items().take(n as int) =~= self.items());
                assert(self.items()[i as int] == *item);
            }
            state.item_areas.push(
                rect_new(area.x + horizontal_padding, row + area.y + vertical_padding, width, 1),
            );
            if item.separator.is_none() {
                state.sep_areas.push(
                    rect_new(
                        area.x + horizontal_padding_separator,
                        row + 1 + area.y + vertical_padding,
                        width + 2,
                        0,
                    ),
                );
            } else {
                state.sep_areas.push(
                    rect_new(
                        area.x + horizontal_padding_separator,
                        row + 1 + area.y + vertical_padding,
                        width + 2,
                        1,
                    ),
                );
            }
            row = row + item.height();
            i = i + 1;
        }
    }

    /// Whether the layout next to `area` within `fit_in` is computed
    /// without overflow.
    pub fn layout_fits(&self, area: Area, fit_in: Area) -> (r: bool)
        ensures
            r == self.layout_ok(area, fit_in),
    {
        let width = match self.menu_width_exec() {
            Some(w) => w,
            None => return false,
        };
        let height = match self.menu_height_exec() {
            Some(h) => h,
            None => return false,
        };
        if height > u16::MAX - 2 {
            return false;
        }
        let horizontal_padding: u16 = if self.block_indent {
            2
        } else {
            1
        };
        if width > u16::MAX - 2 * horizontal_padding {
            return false;
        }
        match self.placement {
            Placement::Right => {
                if area.x > u16::MAX - area.width {
                    return false;
                }
            },
            Placement::Bottom => {
                if area.y > u16::MAX - area.height {
                    return false;
                }
            },
            _ => {},
        }
        let p = self.popup_area_exec(area, fit_in, width, height);
        let n = self.menu.items.len();
        if n == 0 {
            return true;
        }
        if p.x > u16::MAX - horizontal_padding {
            return false;
        }
        let last_height = self.menu.items[n - 1].height();
        proof {
            lemma_total_height_step(self.items(), n - 1);
            assert(self.items().take(n as int) =~= self.items());
            lemma_total_height_mono(self.items(), 0, n - 1);
            assert(self.items().take(0) =~= Seq::<MenuItem>::empty());
        }
        let last_row = height - last_height;
        (last_row as u32) + (p.y as u32) + 2 <= 65535
    }
}

impl<'a> PopupMenu<'a> {
    /// What preparing `old` for drawing leaves in `new`, with `r` the result,
    /// where `shown` says whether the menu is shown.
    pub open spec fn prepared(
        &self,
        shown: bool,
        area: Area,
        buf_area: Area,
        old: PopupMenuState,
        new: PopupMenuState,
        r: bool,
    ) -> bool {
        if !shown {
            &&& r
            &&& new.same_but_selection(old)
            &&& new.selected == old.selected
        } else {
            let fit_in = self.fit_area(buf_area);
            &&& new.navchar@ == nav_chars(self.items())
            &&& new.disabled@ == disabled_flags(self.items())
            &&& r == self.layout_ok(area, fit_in)
            &&& r ==> self.laid_out_areas(area, fit_in, new)
            &&& !r ==> {
                &&& new.area == old.area
                &&& new.z_areas == old.z_areas
                &&& new.item_areas@ == old.item_areas@
                &&& new.sep_areas@ == old.sep_areas@
            }
            &&& new.selected == old.selected
            &&& new.focus == old.focus
            &&& new.mouse == old.mouse
        }
    }

    /// Prepares `state` for drawing the menu next to `area` on a buffer that
    /// covers `buf_area`: reads whether the menu is shown from its focus
    /// flag and prepares it as `render_state_shown` does.
    pub fn render_state(&self, area: Area, buf_area: Area, state: &mut PopupMenuState) -> (r: bool)
        ensures
            exists|shown: bool| self.prepared(shown, area, buf_area, *old(state), *final(state), r),
    {
        let shown = state.active();
        self.render_state_shown(shown, area, buf_area, state)
    }

    /// Prepares `state` for drawing the menu next to `area` on a buffer that
    /// covers `buf_area`, where `shown` says whether the menu is shown. A
    /// hidden menu is left alone. A shown one takes the navigation
    /// characters (lower-case) and disabled flags of the items, and is laid
    /// out within the boundary, or else the buffer area; where that layout
    /// would overflow `u16`, the state keeps its old areas and the result is
    /// `false`.
    pub fn render_state_shown(
        &self,
        shown: bool,
        area: Area,
        buf_area: Area,
        state: &mut PopupMenuState,
    ) -> (r: bool)
        ensures
            self.prepared(shown, area, buf_area, *old(state), *final(state), r),
    {
        if !shown {
            return true;
        }
        let n = self.menu.items.len();
        let mut navchar: Vec<Option<char>> = Vec::new();
        let mut disabled: Vec<bool> = Vec::new();
        let mut i: usize = 0;
        while i < n
            invariant
                n == self.items().len(),
                i <= n,
                navchar@ == nav_chars(self.items()).take(i as int),
                disabled@ == disabled_flags(self.items()).take(i as int),
            decreases n - i,
        {
            let item = &self.menu.items[i];
            let c = match item.navchar {
                Some(w) => Some(to_ascii_lowercase(w)),
                None => None,
            };
            navchar.push(c);
            disabled.push(item.disabled);
            proof {
                assert(navchar@ =~= nav_chars(self.items()).take(i + 1));
                assert(disabled@ =~= disabled_flags(self.items()).take(i + 1));
            }
            i = i + 1;
        }
        proof {
            assert(navchar@ =~= nav_chars(self.items()));
            assert(disabled@ =~= disabled_flags(self.items()));
        }
        state.navchar = navchar;
        state.disabled = disabled;
        let fit_in = match self.boundary {
            Some(boundary) => boundary,
            None => buf_area,
        };
        if !self.layout_fits(area, fit_in) {
            return false;
        }
        self.layout(area, fit_in, state);
        true
    }
}

/// Which of the menu's styles an item is drawn in.
#[derive(Debug, Clone, Copy, PartialEq, Eq, Structural)]
pub enum ItemLook {
    /// The base style.
    Base,
    /// The focus style of the selected item.
    Focus,
    /// The disabled style.
    Disabled,
}

/// The look of item `n`: disabled items look disabled, selected or not;
/// the selected item has the focus style; the others the base style.
pub fn item_look(selected: Option<usize>, n: usize, disabled: bool) -> (r: ItemLook)
    ensures
        r == (if disabled {
            ItemLook::Disabled
        } else if selected == Some(n) {
            ItemLook::Focus
        } else {
            ItemLook::Base
        }),
{
    if selected == Some(n) {
        if disabled {
            ItemLook::Disabled
        } else {
            ItemLook::Focus
        }
    } else {
        if disabled {
            ItemLook::Disabled
        } else {
            ItemLook::Base
        }
    }
}

/// Where the right-hand text of width `right_width` goes in the item area:
/// flush right where it is narrower than the item, else the whole area.
pub fn right_text_area(item_area: Area, right_width: u16) -> (r: Area)
    requires
        right_width < item_area.width ==> item_area.x + (item_area.width - right_width) <= u16::MAX,
    ensures
        right_width < item_area.width ==> r == (Area {
            x: (item_area.x + item_area.width - right_width) as u16,
            width: right_width,
            ..item_area
        }),
        right_width >= item_area.width ==> r == item_area,
{
    let mut item_area = item_area;
    if right_width < item_area.width {
        let delta = item_area.width.saturating_sub(right_width);
        item_area.x += delta;
        item_area.width -= delta;
    }
    item_area
}

/// The text of an item split around its navigation character: before the
/// `_` marker, the character itself, and after it.
pub fn highlight_parts<'b>(item: &'b MenuItem, highlight: &core::ops::Range<usize>) -> (r: (
    &'b str,
    &'b str,
    &'b str,
))
    requires
        1 <= highlight.start <= highlight.end <= item.item@.len(),
    ensures
        r.0@ == item.item@.subrange(0, highlight.start - 1),
        r.1@ == item.item@.subrange(highlight.start as int, highlight.end as int),
        r.2@ == item.item@.subrange(highlight.end as int, item.item@.len() as int),
{
    let text = item.item.as_str();
    let n = text.unicode_len();
    (
        text.substring_char(0, highlight.start - 1),
        text.substring_char(highlight.start, highlight.end),
        text.substring_char(highlight.end, n),
    )
}

/// The character a separator line is drawn with.
pub fn separator_symbol(separator: Separator) -> (r: char)
    ensures
        r == match separator {
            Separator::Empty => ' ',
            Separator::Plain => '\u{2500}',
            Separator::Thick => '\u{2501}',
            Separator::Double => '\u{2550}',
            Separator::Dashed => '\u{2212}',
            Separator::Dotted => '\u{2508}',
        },
{
    match separator {
        Separator::Empty => ' ',
        Separator::Plain => '\u{2500}',
        Separator::Thick => '\u{2501}',
        Separator::Double => '\u{2550}',
        Separator::Dashed => '\u{2212}',
        Separator::Dotted => '\u{2508}',
    }
}

} // verus!
