//! The state of a popup menu: its layout after drawing, which item is
//! selected, whether it is shown; and how it answers events.

use crate::event::{
    char_press, char_release, code_press, code_release, mouse_left_down, mouse_moved, Event, KeyCode,
    KeyEventKind, MenuOutcome, MouseButton, MouseEventKind, NO_MODIFIERS,
};
use crate::geometry::{Area, ZArea};
use crate::text::{ascii_lower, to_ascii_lowercase};
use rat_event::util::MouseFlags;
use rat_focus::FocusFlag;
use ratatui::layout::Rect;
use vstd::prelude::*;

verus! {

/// `rat_event::util::MouseFlags`, the mouse bookkeeping of a widget state,
/// carried through unread.
#[verifier::external_type_specification]
#[verifier::external_body]
pub struct ExMouseFlags(MouseFlags);

/// `MouseFlags::default()`; nothing of its value is stated.
pub assume_specification[ <MouseFlags as core::default::Default>::default ]() -> MouseFlags;

/// `MouseFlags::clone`, the derived clone of its cells; nothing of its value
/// is stated.
pub assume_specification[ <MouseFlags as core::clone::Clone>::clone ](m: &MouseFlags) -> MouseFlags;

/// Index of the first area at or after `i` that holds the cell `(col, row)`,
/// or `-1`.
pub open spec fn first_hit(areas: Seq<Area>, col: u16, row: u16, i: int) -> int
    decreases areas.len() - i,
{
    if i < 0 || i >= areas.len() {
        -1
    } else if areas[i].contains_spec(col, row) {
        i
    } else {
        first_hit(areas, col, row, i + 1)
    }
}

/// `MouseFlags::item_at`, which calls `rat_event::util::item_at`: the index
/// of the first of the areas that holds the cell `(col, row)`, where
/// `top <= row < bottom` and `left <= col < right`.
#[verifier::external_body]
fn mouse_item_at(mouse: &MouseFlags, areas: &Vec<Area>, col: u16, row: u16) -> (r: Option<usize>)
    ensures
        match r {
            Some(i) => i as int == first_hit(areas@, col, row, 0),
            None => first_hit(areas@, col, row, 0) == -1,
        },
{
    let rects: Vec<Rect> = areas.iter().map(
        |a: &Area| Rect { x: a.x, y: a.y, width: a.width, height: a.height },
    ).collect();
    mouse.item_at(&rects, col, row)
}

/// Marks a struct as open to new fields.
#[derive(Debug, Clone, Copy, PartialEq, Eq, Structural)]
pub struct NonExhaustive;

/// `rat_focus::FocusFlag`: a named flag, shared by all its clones through an
/// `Rc`, that says whether the menu has the focus and so is shown.
#[verifier::external_type_specification]
#[verifier::external_body]
pub struct ExFocusFlag(FocusFlag);

/// `FocusFlag::default()`, an unnamed flag that is not set; nothing of it
/// is stated, as its value is shared state.
pub assume_specification[ <FocusFlag as core::default::Default>::default ]() -> FocusFlag;

/// `FocusFlag::clone`, the derived clone of the `Rc`: the clone shares the
/// flag. Nothing of it is stated.
pub assume_specification[ <FocusFlag as core::clone::Clone>::clone ](f: &FocusFlag) -> FocusFlag;

/// `FocusFlag::named`, a new unset flag with this name; nothing of it is
/// stated.
pub assume_specification[ FocusFlag::named ](name: &str) -> FocusFlag;

/// `FocusFlag::get`, reads the shared flag. What it reads depends on every
/// clone of the flag, so nothing of the result is stated.
pub assume_specification[ FocusFlag::get ](f: &FocusFlag) -> bool;

/// `FocusFlag::set`, writes the shared flag, which every clone then reads.
pub assume_specification[ FocusFlag::set ](f: &FocusFlag, focus: bool);

/// State and event handling of a popup menu.
#[derive(Debug, Clone)]
pub struct PopupMenuState {
    /// Total area, renewed by each layout.
    pub area: Area,
    /// The area with its z-index, for the focus handling.
    pub z_areas: [ZArea; 1],
    /// The area of each item, renewed by each layout.
    pub item_areas: Vec<Area>,
    /// The area of the separator below each item, renewed by each layout.
    pub sep_areas: Vec<Area>,
    /// The navigation character of each item, lower-case.
    pub navchar: Vec<Option<char>>,
    /// Which items are disabled.
    pub disabled: Vec<bool>,
    /// The selected item.
    pub selected: Option<usize>,
    /// Whether the menu is shown, shared with the focus handling.
    pub focus: FocusFlag,
    /// Mouse bookkeeping.
    pub mouse: MouseFlags,
    pub non_exhaustive: NonExhaustive,
}

// ----- what the selection operations do -----

/// The last index below `k` of an item that is not disabled, or `-1`.
pub open spec fn last_enabled_below(d: Seq<bool>, k: int) -> int
    decreases k,
{
    if k <= 0 {
        -1
    } else if !d[k - 1] {
        k - 1
    } else {
        last_enabled_below(d, k - 1)
    }
}

/// The first index from `k` on of an item that is not disabled, or `-1`.
pub open spec fn first_enabled_from(d: Seq<bool>, k: int) -> int
    decreases d.len() - k,
{
    if k < 0 || k >= d.len() {
        -1
    } else if !d[k] {
        k
    } else {
        first_enabled_from(d, k + 1)
    }
}

/// Where `prev_item` goes from `start`: the nearest item above that is not
/// disabled, or `start` itself.
pub open spec fn prev_target(d: Seq<bool>, start: int) -> int {
    let j = last_enabled_below(d, start);
    if j < 0 {
        start
    } else {
        j
    }
}

/// `prev_item` reads only the flags of the items above `start`.
pub open spec fn prev_ok(d: Seq<bool>, start: int) -> bool {
    start <= d.len()
}

/// Where `next_item` goes from `start` among `len` items: the nearest item
/// below that is not disabled, or `start` itself where there is none.
pub open spec fn next_target(d: Seq<bool>, len: int, start: int) -> int {
    let f = first_enabled_from(d, start + 1);
    if start + 1 == len {
        start
    } else if start + 1 < len {
        if 0 <= f < len {
            f
        } else {
            start
        }
    } else {
        f
    }
}

/// `next_item` reads only flags that exist: it stops at the last item or at
/// the first item that is not disabled.
pub open spec fn next_ok(d: Seq<bool>, len: int, start: int) -> bool {
    let f = first_enabled_from(d, start + 1);
    ||| start + 1 == len
    ||| start + 1 < len && (f >= 0 || len <= d.len())
    ||| start + 1 > len && f >= 0
}

/// The first index from `i` on whose navigation character is `c` and which
/// is not disabled, or `-1`.
pub open spec fn nav_scan(nav: Seq<Option<char>>, d: Seq<bool>, c: char, i: int) -> int
    decreases nav.len() - i,
{
    if i < 0 || i >= nav.len() {
        -1
    } else if nav[i] == Some(c) && !d[i] {
        i
    } else {
        nav_scan(nav, d, c, i + 1)
    }
}

/// `navigate` reads the disabled flag of each item with navigation character
/// `c` up to the one it takes: those flags exist.
pub open spec fn nav_safe(nav: Seq<Option<char>>, d: Seq<bool>, c: char, i: int) -> bool
    decreases nav.len() - i,
{
    if i < 0 || i >= nav.len() {
        true
    } else if nav[i] == Some(c) {
        i < d.len() && (!d[i] || nav_safe(nav, d, c, i + 1))
    } else {
        nav_safe(nav, d, c, i + 1)
    }
}

/// Whether `select(Some(i))` refuses: item `i` exists and is disabled.
pub open spec fn refuses(d: Seq<bool>, i: int) -> bool {
    0 <= i < d.len() && d[i]
}

impl PopupMenuState {
    /// Number of items, as laid out.
    pub open spec fn len_spec(&self) -> int {
        self.item_areas@.len() as int
    }

    /// Everything but the selection and the focus is as in `old`.
    pub open spec fn same_layout(&self, old: PopupMenuState) -> bool {
        &&& self.area == old.area
        &&& self.z_areas == old.z_areas
        &&& self.item_areas@ == old.item_areas@
        &&& self.sep_areas@ == old.sep_areas@
        &&& self.navchar@ == old.navchar@
        &&& self.disabled@ == old.disabled@
        &&& self.mouse == old.mouse
        &&& self.focus == old.focus
        &&& self.non_exhaustive == old.non_exhaustive
    }

    /// Everything but the selection is as in `old`.
    pub open spec fn same_but_selection(&self, old: PopupMenuState) -> bool {
        self.same_layout(old)
    }

    /// The selection after `prev_item`.
    pub open spec fn prev_selection(&self) -> usize {
        match self.selected {
            Some(start) => prev_target(self.disabled@, start as int) as usize,
            None => if self.len_spec() == 0 {
                0
            } else {
                (self.len_spec() - 1) as usize
            },
        }
    }

    /// Whether `prev_item` can run: it reads only flags that exist.
    pub open spec fn prev_item_ok(&self) -> bool {
        match self.selected {
            Some(start) => prev_ok(self.disabled@, start as int),
            None => true,
        }
    }

    /// The selection after `next_item`.
    pub open spec fn next_selection(&self) -> usize {
        match self.selected {
            Some(start) => next_target(self.disabled@, self.len_spec(), start as int) as usize,
            None => 0,
        }
    }

    /// Whether `next_item` can run: it reads only flags that exist.
    pub open spec fn next_item_ok(&self) -> bool {
        match self.selected {
            Some(start) => next_ok(self.disabled@, self.len_spec(), start as int),
            None => true,
        }
    }

    /// The item that the navigation character `c` reaches, or `-1`.
    pub open spec fn nav_target(&self, c: char) -> int {
        nav_scan(self.navchar@, self.disabled@, ascii_lower(c), 0)
    }

    /// Whether `navigate(c)` can run.
    pub open spec fn navigate_ok(&self, c: char) -> bool {
        nav_safe(self.navchar@, self.disabled@, ascii_lower(c), 0)
    }

    /// The item under the cell `pos`, or `-1`.
    pub open spec fn hit(&self, pos: (u16, u16)) -> int {
        first_hit(self.item_areas@, pos.0, pos.1, 0)
    }

    /// Whether `select_at(pos)` can run: the item under `pos` has a flag.
    pub open spec fn select_at_ok(&self, pos: (u16, u16)) -> bool {
        self.hit(pos) >= 0 ==> self.hit(pos) < self.disabled@.len()
    }
}

impl Default for PopupMenuState {
    /// Unnamed, without items and without a selection.
    fn default() -> (r: PopupMenuState)
        ensures
            r.area == Area::empty_spec(),
            r.z_areas[0] == (ZArea { z: 0, area: Area::empty_spec() }),
            r.item_areas@.len() == 0,
            r.sep_areas@.len() == 0,
            r.navchar@.len() == 0,
            r.disabled@.len() == 0,
            r.selected is None,
    {
        PopupMenuState {
            area: Area::empty(),
            z_areas: [ZArea { z: 0, area: Area::empty() }],
            item_areas: Vec::new(),
            sep_areas: Vec::new(),
            navchar: Vec::new(),
            disabled: Vec::new(),
            selected: None,
            focus: FocusFlag::default(),
            mouse: MouseFlags::default(),
            non_exhaustive: NonExhaustive,
        }
    }
}

impl PopupMenuState {
    /// A state without items, with a new unnamed focus flag.
    pub fn new() -> (r: PopupMenuState)
        ensures
            r.area == Area::empty_spec(),
            r.z_areas[0] == (ZArea { z: 0, area: Area::empty_spec() }),
            r.item_areas@.len() == 0,
            r.sep_areas@.len() == 0,
            r.navchar@.len() == 0,
            r.disabled@.len() == 0,
            r.selected is None,
    {
        PopupMenuState::default()
    }

    /// A state without items, with a new focus flag of the given name.
    pub fn named(name: &str) -> (r: PopupMenuState)
        ensures
            r.area == Area::empty_spec(),
            r.z_areas[0] == (ZArea { z: 0, area: Area::empty_spec() }),
            r.item_areas@.len() == 0,
            r.sep_areas@.len() == 0,
            r.navchar@.len() == 0,
            r.disabled@.len() == 0,
            r.selected is None,
    {
        let mut s = PopupMenuState::default();
        s.focus = FocusFlag::named(name);
        s
    }

    /// Shows a hidden menu, hides a shown one.
    pub fn flip_active(&mut self)
        ensures
            final(self).same_layout(*old(self)),
            final(self).selected == old(self).selected,
    {
        self.focus.set(!self.focus.get());
    }

    /// Whether the menu is shown: reads the shared focus flag.
    pub fn active(&self) -> bool {
        self.focus.get()
    }

    /// Shows or hides the menu: writes the shared focus flag.
    pub fn set_active(&self, active: bool) {
        self.focus.set(active);
    }

    /// Number of items, as laid out.
    pub fn len(&self) -> (r: usize)
        ensures
            r == self.len_spec(),
    {
        self.item_areas.len()
    }

    /// Whether there are no items.
    pub fn is_empty(&self) -> (r: bool)
        ensures
            r == (self.len_spec() == 0),
    {
        self.item_areas.len() == 0
    }

    /// Selects the item, or clears the selection with `None`. Refuses a
    /// disabled item. Returns whether the selection changed.
    pub fn select(&mut self, select: Option<usize>) -> (r: bool)
        ensures
            final(self).same_but_selection(*old(self)),
            match select {
                Some(i) if refuses(old(self).disabled@, i as int) => {
                    &&& final(self).selected == old(self).selected
                    &&& !r
                },
                _ => {
                    &&& final(self).selected == select
                    &&& r == (old(self).selected != select)
                },
            },
    {
        let old = self.selected;
        if let Some(select) = select {
            if select < self.disabled.len() && self.disabled[select] {
                return false;
            }
        }
        self.selected = select;
        old != self.selected
    }

    /// The selected item.
    pub fn selected(&self) -> (r: Option<usize>)
        ensures
            r == self.selected,
    {
        self.selected
    }

    /// Selects the nearest item above that is not disabled; without a
    /// selection, the last item. Returns whether the selection changed.
    pub fn prev_item(&mut self) -> (r: bool)
        requires
            old(self).prev_item_ok(),
        ensures
            final(self).same_but_selection(*old(self)),
            final(self).selected == Some(old(self).prev_selection()),
            r == (old(self).selected != final(self).selected),
    {
        let old = self.selected;
        let idx = if let Some(start) = old {
            let mut idx = start;
            loop
                invariant_except_break
                    last_enabled_below(self.disabled@, start as int) == last_enabled_below(
                        self.disabled@,
                        idx as int,
                    ),
                invariant
                    idx <= start,
                    start <= self.disabled@.len(),
                ensures
                    idx as int == prev_target(self.disabled@, start as int),
                decreases idx,
            {
                if idx == 0 {
                    idx = start;
                    break;
                }
                idx -= 1;
                if !self.disabled[idx] {
                    break;
                }
            }
            idx
        } else {
            self.len().saturating_sub(1)
        };
        self.selected = Some(idx);
        old != self.selected
    }

    /// Selects the nearest item below that is not disabled; without a
    /// selection, the first item. Returns whether the selection changed.
    pub fn next_item(&mut self) -> (r: bool)
        requires
            old(self).next_item_ok(),
        ensures
            final(self).same_but_selection(*old(self)),
            final(self).selected == Some(old(self).next_selection()),
            r == (old(self).selected != final(self).selected),
    {
        let old = self.selected;
        let len = self.len();
        let dlen = self.disabled.len();
        let idx = if let Some(start) = old {
            let ghost d = self.disabled@;
            let mut idx = start;
            proof {
                lemma_first_enabled_from(d, start + 1);
            }
            loop
                invariant_except_break
                    first_enabled_from(d, start + 1) == first_enabled_from(d, idx + 1),
                    start + 1 == len ==> idx == start,
                    start + 1 < len ==> idx < len,
                    start + 1 > len ==> idx + 1 != len,
                invariant
                    d == self.disabled@,
                    dlen == d.len(),
                    len == self.item_areas@.len(),
                    next_ok(d, len as int, start as int),
                    start <= idx,
                ensures
                    idx as int == next_target(d, len as int, start as int),
                decreases d.len() - idx,
            {
                proof {
                    lemma_first_enabled_from(d, idx + 1);
                    lemma_first_enabled_from(d, len as int);
                }
                if idx + 1 == len {
                    idx = start;
                    break;
                }
                idx += 1;
                if !self.disabled[idx] {
                    break;
                }
            }
            idx
        } else {
            0
        };
        self.selected = Some(idx);
        old != self.selected
    }

    /// Selects by navigation character, in any case. The first item with
    /// this character that is not disabled is selected, or, where it was
    /// selected already, activated.
    pub fn navigate(&mut self, c: char) -> (r: MenuOutcome)
        requires
            old(self).navigate_ok(c),
        ensures
            final(self).same_but_selection(*old(self)),
            ({
                let h = old(self).nav_target(c);
                if h < 0 {
                    &&& r == MenuOutcome::Continue
                    &&& final(self).selected == old(self).selected
                } else if old(self).selected == Some(h as usize) {
                    &&& r == MenuOutcome::Activated(h as usize)
                    &&& final(self).selected == old(self).selected
                } else {
                    &&& r == MenuOutcome::Selected(h as usize)
                    &&& final(self).selected == Some(h as usize)
                }
            }),
    {
        let lc = to_ascii_lowercase(c);
        let n = self.navchar.len();
        let mut i: usize = 0;
        while i < n
            invariant
                lc == ascii_lower(c),
                n == self.navchar@.len(),
                i <= n,
                nav_safe(self.navchar@, self.disabled@, lc, i as int),
                nav_scan(self.navchar@, self.disabled@, lc, 0) == nav_scan(
                    self.navchar@,
                    self.disabled@,
                    lc,
                    i as int,
                ),
                self.same_but_selection(*old(self)),
                self.selected == old(self).selected,
            decreases n - i,
        {
            let hit = match self.navchar[i] {
                Some(x) => x == lc,
                None => false,
            };
            if hit {
                if !self.disabled[i] {
                    if self.selected == Some(i) {
                        return MenuOutcome::Activated(i);
                    } else {
                        self.selected = Some(i);
                        return MenuOutcome::Selected(i);
                    }
                }
            }
            i = i + 1;
        }
        MenuOutcome::Continue
    }

    /// Selects the item under the cell `pos`, where it is not disabled.
    /// Returns whether the selection changed.
    pub fn select_at(&mut self, pos: (u16, u16)) -> (r: bool)
        requires
            old(self).select_at_ok(pos),
        ensures
            final(self).same_but_selection(*old(self)),
            ({
                let h = old(self).hit(pos);
                if h >= 0 && !old(self).disabled@[h] {
                    final(self).selected == Some(h as usize)
                } else {
                    final(self).selected == old(self).selected
                }
            }),
            r == (old(self).selected != final(self).selected),
    {
        let old_selected = self.selected;
        if let Some(idx) = mouse_item_at(&self.mouse, &self.item_areas, pos.0, pos.1) {
            if !self.disabled[idx] {
                self.selected = Some(idx);
            }
        }
        old_selected != self.selected
    }

    /// The item under the cell `pos`.
    pub fn item_at(&self, pos: (u16, u16)) -> (r: Option<usize>)
        ensures
            match r {
                Some(i) => i as int == self.hit(pos),
                None => self.hit(pos) == -1,
            },
    {
        mouse_item_at(&self.mouse, &self.item_areas, pos.0, pos.1)
    }
}

// ----- what event handling does -----

/// Selection, shown flag and outcome after `select(Some(i))` as the Home
/// and End keys use it.
pub open spec fn select_step(s: PopupMenuState, i: int) -> (Option<usize>, bool, MenuOutcome) {
    if refuses(s.disabled@, i) || s.selected == Some(i as usize) {
        (s.selected, true, MenuOutcome::Unchanged)
    } else {
        (Some(i as usize), true, MenuOutcome::Selected(i as usize))
    }
}

/// Selection, shown flag and outcome after a move of the selection to `t`.
pub open spec fn move_step(s: PopupMenuState, t: usize) -> (Option<usize>, bool, MenuOutcome) {
    if s.selected == Some(t) {
        (s.selected, true, MenuOutcome::Unchanged)
    } else {
        (Some(t), true, MenuOutcome::Selected(t))
    }
}

/// A release, without modifiers, of a key that the menu uses.
pub open spec fn used_key_release(e: Event) -> bool {
    ||| char_release(e)
    ||| code_release(e, KeyCode::Up)
    ||| code_release(e, KeyCode::Down)
    ||| code_release(e, KeyCode::Home)
    ||| code_release(e, KeyCode::End)
    ||| code_release(e, KeyCode::Esc)
    ||| code_release(e, KeyCode::Enter)
}

/// Selection, shown flag and outcome after a key event for a shown menu.
pub open spec fn key_step(s: PopupMenuState, e: Event) -> (Option<usize>, bool, MenuOutcome) {
    match char_press(e) {
        Some(c) => {
            let h = s.nav_target(c);
            if h < 0 {
                (s.selected, true, MenuOutcome::Continue)
            } else if s.selected == Some(h as usize) {
                (s.selected, false, MenuOutcome::Activated(h as usize))
            } else {
                (Some(h as usize), true, MenuOutcome::Selected(h as usize))
            }
        },
        None => if code_press(e, KeyCode::Up) {
            move_step(s, s.prev_selection())
        } else if code_press(e, KeyCode::Down) {
            move_step(s, s.next_selection())
        } else if code_press(e, KeyCode::Home) {
            select_step(s, 0)
        } else if code_press(e, KeyCode::End) {
            select_step(
                s,
                if s.len_spec() == 0 {
                    0
                } else {
                    s.len_spec() - 1
                },
            )
        } else if code_press(e, KeyCode::Esc) {
            (s.selected, false, MenuOutcome::Changed)
        } else if code_press(e, KeyCode::Enter) {
            match s.selected {
                Some(x) => (s.selected, false, MenuOutcome::Activated(x)),
                None => (s.selected, true, MenuOutcome::Continue),
            }
        } else if used_key_release(e) {
            (s.selected, true, MenuOutcome::Unchanged)
        } else {
            (s.selected, true, MenuOutcome::Continue)
        },
    }
}

/// Whether a key event can be handled: the selection moves read only flags
/// that exist.
pub open spec fn key_ok(s: PopupMenuState, e: Event) -> bool {
    match char_press(e) {
        Some(c) => s.navigate_ok(c),
        None => {
            &&& code_press(e, KeyCode::Up) ==> s.prev_item_ok()
            &&& code_press(e, KeyCode::Down) ==> s.next_item_ok()
        },
    }
}

/// Selection, shown flag and outcome after a move or click on the item at
/// `p` in a shown menu: a click on an item that is not disabled selects and
/// activates it and hides the menu; a move onto such an item that is not
/// yet selected selects it.
pub open spec fn pointer_step(s: PopupMenuState, p: (u16, u16), click: bool) -> (
    Option<usize>,
    bool,
    MenuOutcome,
) {
    let h = s.hit(p);
    if h >= 0 && !s.disabled@[h] && click {
        (Some(h as usize), false, MenuOutcome::Activated(h as usize))
    } else if h >= 0 && !s.disabled@[h] && s.selected != Some(h as usize) {
        (Some(h as usize), true, MenuOutcome::Selected(h as usize))
    } else {
        (s.selected, true, MenuOutcome::Unchanged)
    }
}

/// Selection, shown flag and outcome after a mouse event, where `shown`
/// says whether the menu is shown.
pub open spec fn mouse_step(s: PopupMenuState, shown: bool, e: Event) -> (
    Option<usize>,
    bool,
    MenuOutcome,
) {
    let rest = (s.selected, shown, MenuOutcome::Continue);
    if !shown {
        rest
    } else {
        match mouse_moved(e) {
            Some(p) => if s.area.contains_spec(p.0, p.1) {
                pointer_step(s, p, false)
            } else {
                rest
            },
            None => match mouse_left_down(e) {
                Some(p) => if s.area.contains_spec(p.0, p.1) {
                    pointer_step(s, p, true)
                } else {
                    rest
                },
                None => rest,
            },
        }
    }
}

/// Whether a mouse event can be handled: the item under the pointer has a
/// disabled flag.
pub open spec fn mouse_ok(s: PopupMenuState, shown: bool, e: Event) -> bool {
    shown ==> {
        &&& match mouse_moved(e) {
            Some(p) => s.area.contains_spec(p.0, p.1) ==> s.select_at_ok(p),
            None => true,
        }
        &&& match mouse_left_down(e) {
            Some(p) => s.area.contains_spec(p.0, p.1) ==> s.select_at_ok(p),
            None => true,
        }
    }
}

/// Selection, shown flag and outcome after an event, where `shown` says
/// whether the menu is shown: the keys first, and the mouse where the keys
/// leave the event.
pub open spec fn popup_step(s: PopupMenuState, shown: bool, e: Event) -> (
    Option<usize>,
    bool,
    MenuOutcome,
) {
    if shown {
        let k = key_step(s, e);
        if k.2 is Continue {
            mouse_step(s, shown, e)
        } else {
            k
        }
    } else {
        mouse_step(s, shown, e)
    }
}

/// Whether an event can be handled.
pub open spec fn popup_ok(s: PopupMenuState, shown: bool, e: Event) -> bool {
    &&& shown ==> key_ok(s, e)
    &&& mouse_ok(s, shown, e)
}

impl PopupMenuState {
    /// Handles an event for a menu that is shown or not, as `shown` says:
    /// the keys (navigation characters, Up, Down, Home, End, Esc and Enter)
    /// first, and the mouse where the keys leave the event. Returns the
    /// outcome and whether the menu is to be hidden now.
    pub fn handle_popup_shown(&mut self, shown: bool, event: &Event) -> (r: (MenuOutcome, bool))
        requires
            popup_ok(*old(self), shown, *event),
        ensures
            final(self).selected == popup_step(*old(self), shown, *event).0,
            r.0 == popup_step(*old(self), shown, *event).2,
            r.1 == (shown && !popup_step(*old(self), shown, *event).1),
            final(self).same_but_selection(*old(self)),
    {
        let res = if shown {
            match event {
                Event::Key(k) => {
                    match k.code {
                        KeyCode::Char(c) if k.kind == KeyEventKind::Press => {
                            let r = self.navigate(c);
                            if let MenuOutcome::Activated(_) = r {
                                return (r, true);
                            }
                            r
                        },
                        _ => {
                            if k.modifiers != NO_MODIFIERS {
                                MenuOutcome::Continue
                            } else if k.kind == KeyEventKind::Press {
                                match k.code {
                                    KeyCode::Up => {
                                        if self.prev_item() {
                                            MenuOutcome::Selected(self.selected.expect("selected"))
                                        } else {
                                            MenuOutcome::Unchanged
                                        }
                                    },
                                    KeyCode::Down => {
                                        if self.next_item() {
                                            MenuOutcome::Selected(self.selected.expect("selected"))
                                        } else {
                                            MenuOutcome::Unchanged
                                        }
                                    },
                                    KeyCode::Home => {
                                        if self.select(Some(0)) {
                                            MenuOutcome::Selected(self.selected.expect("selected"))
                                        } else {
                                            MenuOutcome::Unchanged
                                        }
                                    },
                                    KeyCode::End => {
                                        let last = self.len().saturating_sub(1);
                                        if self.select(Some(last)) {
                                            MenuOutcome::Selected(self.selected.expect("selected"))
                                        } else {
                                            MenuOutcome::Unchanged
                                        }
                                    },
                                    KeyCode::Esc => {
                                        return (MenuOutcome::Changed, true);
                                    },
                                    KeyCode::Enter => {
                                        if let Some(select) = self.selected {
                                            return (MenuOutcome::Activated(select), true);
                                        } else {
                                            MenuOutcome::Continue
                                        }
                                    },
                                    _ => MenuOutcome::Continue,
                                }
                            } else if k.kind == KeyEventKind::Release {
                                match k.code {
                                    KeyCode::Other => MenuOutcome::Continue,
                                    _ => MenuOutcome::Unchanged,
                                }
                            } else {
                                MenuOutcome::Continue
                            }
                        },
                    }
                },
                _ => MenuOutcome::Continue,
            }
        } else {
            MenuOutcome::Continue
        };
        if !res.is_consumed() {
            self.handle_mouse_shown(shown, event)
        } else {
            (res, false)
        }
    }

    /// Handles the mouse for a menu that is shown or not, as `shown` says:
    /// moving over an item selects it, a left click on an item selects and
    /// activates it and hides the menu. Returns the outcome and whether the
    /// menu is to be hidden now.
    pub fn handle_mouse_shown(&mut self, shown: bool, event: &Event) -> (r: (MenuOutcome, bool))
        requires
            mouse_ok(*old(self), shown, *event),
        ensures
            final(self).selected == mouse_step(*old(self), shown, *event).0,
            r.0 == mouse_step(*old(self), shown, *event).2,
            r.1 == (shown && !mouse_step(*old(self), shown, *event).1),
            final(self).same_but_selection(*old(self)),
    {
        if shown {
            match event {
                Event::Mouse(m) => {
                    if m.modifiers != NO_MODIFIERS || !self.area.contains(m.column, m.row) {
                        (MenuOutcome::Continue, false)
                    } else {
                        match m.kind {
                            MouseEventKind::Moved => {
                                if self.select_at((m.column, m.row)) {
                                    (MenuOutcome::Selected(self.selected().expect("selection")), false)
                                } else {
                                    (MenuOutcome::Unchanged, false)
                                }
                            },
                            MouseEventKind::Down(MouseButton::Left) => {
                                self.select_at((m.column, m.row));
                                match self.item_at((m.column, m.row)) {
                                    Some(idx) => {
                                        if !self.disabled[idx] {
                                            (MenuOutcome::Activated(idx), true)
                                        } else {
                                            (MenuOutcome::Unchanged, false)
                                        }
                                    },
                                    None => (MenuOutcome::Unchanged, false),
                                }
                            },
                            _ => (MenuOutcome::Continue, false),
                        }
                    }
                },
                _ => (MenuOutcome::Continue, false),
            }
        } else {
            (MenuOutcome::Continue, false)
        }
    }

    /// Handles an event: reads whether the menu is shown from its focus
    /// flag, checks that the event can be taken (`can_handle`), handles it
    /// as `handle_popup_shown` does and hides the menu where that asks for
    /// it. An event that a shown menu cannot take (where a disabled flag is
    /// missing) is not handled and gives `Continue`.
    pub fn handle_popup(&mut self, event: &Event) -> (r: MenuOutcome)
        ensures
            exists|shown: bool|
                {
                    &&& popup_ok(*old(self), shown, *event) ==> {
                        &&& final(self).selected == popup_step(*old(self), shown, *event).0
                        &&& r == popup_step(*old(self), shown, *event).2
                    }
                    &&& !popup_ok(*old(self), shown, *event) ==> {
                        &&& final(self).selected == old(self).selected
                        &&& r == MenuOutcome::Continue
                    }
                },
            final(self).same_but_selection(*old(self)),
    {
        let shown = self.active();
        if !self.can_handle(shown, event) {
            return MenuOutcome::Continue;
        }
        let (r, hide) = self.handle_popup_shown(shown, event);
        if hide {
            self.set_active(false);
        }
        r
    }

    /// Handles a mouse event: reads whether the menu is shown from its focus
    /// flag, checks that the event can be taken (`can_handle_mouse`),
    /// handles it as `handle_mouse_shown` does and hides the menu where that
    /// asks for it. An event that a shown menu cannot take is not handled
    /// and gives `Continue`.
    pub fn handle_mouse(&mut self, event: &Event) -> (r: MenuOutcome)
        ensures
            exists|shown: bool|
                {
                    &&& mouse_ok(*old(self), shown, *event) ==> {
                        &&& final(self).selected == mouse_step(*old(self), shown, *event).0
                        &&& r == mouse_step(*old(self), shown, *event).2
                    }
                    &&& !mouse_ok(*old(self), shown, *event) ==> {
                        &&& final(self).selected == old(self).selected
                        &&& r == MenuOutcome::Continue
                    }
                },
            final(self).same_but_selection(*old(self)),
    {
        let shown = self.active();
        if !self.can_handle_mouse(shown, event) {
            return MenuOutcome::Continue;
        }
        let (r, hide) = self.handle_mouse_shown(shown, event);
        if hide {
            self.set_active(false);
        }
        r
    }
}

/// Handles all events of a popup menu: keys first, then the mouse. The menu
/// is expected to have the focus or to be hidden. See `handle_popup`.
pub fn handle_popup_events(state: &mut PopupMenuState, event: &Event) -> (r: MenuOutcome)
    ensures
        exists|shown: bool|
            {
                &&& popup_ok(*old(state), shown, *event) ==> {
                    &&& final(state).selected == popup_step(*old(state), shown, *event).0
                    &&& r == popup_step(*old(state), shown, *event).2
                }
                &&& !popup_ok(*old(state), shown, *event) ==> {
                    &&& final(state).selected == old(state).selected
                    &&& r == MenuOutcome::Continue
                }
            },
        final(state).same_but_selection(*old(state)),
{
    state.handle_popup(event)
}

/// Handles only the mouse events of a popup menu. See `handle_mouse`.
pub fn handle_mouse_events(state: &mut PopupMenuState, event: &Event) -> (r: MenuOutcome)
    ensures
        exists|shown: bool|
            {
                &&& mouse_ok(*old(state), shown, *event) ==> {
                    &&& final(state).selected == mouse_step(*old(state), shown, *event).0
                    &&& r == mouse_step(*old(state), shown, *event).2
                }
                &&& !mouse_ok(*old(state), shown, *event) ==> {
                    &&& final(state).selected == old(state).selected
                    &&& r == MenuOutcome::Continue
                }
            },
        final(state).same_but_selection(*old(state)),
{
    state.handle_mouse(event)
}

impl PopupMenuState {
    /// The area the focus handling sees, where `shown` says whether the
    /// menu is shown: the menu area while it is shown, else the empty area.
    pub fn focus_area_shown(&self, shown: bool) -> (r: Area)
        ensures
            r == self.focus_area_shown_spec(shown),
    {
        if shown {
            self.area
        } else {
            Area::empty()
        }
    }

    /// The areas with z-index the focus handling sees, where `shown` says
    /// whether the menu is shown: the menu's z-areas while it is shown,
    /// else none.
    pub fn focus_z_areas_shown(&self, shown: bool) -> (r: &[ZArea])
        ensures
            r@ == self.focus_z_areas_shown_spec(shown),
    {
        if shown {
            self.z_areas.as_slice()
        } else {
            &[]
        }
    }

    /// The area the focus handling sees: reads whether the menu is shown
    /// from its focus flag and answers as `focus_area_shown` does.
    pub fn focus_area(&self) -> (r: Area)
        ensures
            exists|shown: bool| r == self.focus_area_shown_spec(shown),
    {
        let shown = self.active();
        self.focus_area_shown(shown)
    }

    /// The areas with z-index the focus handling sees: reads whether the
    /// menu is shown from its focus flag and answers as
    /// `focus_z_areas_shown` does.
    pub fn focus_z_areas(&self) -> (r: &[ZArea])
        ensures
            exists|shown: bool| r@ == self.focus_z_areas_shown_spec(shown),
    {
        let shown = self.active();
        self.focus_z_areas_shown(shown)
    }

    /// The area the focus handling sees where `shown` says whether the menu
    /// is shown.
    pub open spec fn focus_area_shown_spec(&self, shown: bool) -> Area {
        if shown {
            self.area
        } else {
            Area::empty_spec()
        }
    }

    /// The z-areas the focus handling sees where `shown` says whether the
    /// menu is shown.
    pub open spec fn focus_z_areas_shown_spec(&self, shown: bool) -> Seq<ZArea> {
        if shown {
            self.z_areas@
        } else {
            Seq::<ZArea>::empty()
        }
    }

    /// Whether `prev_item` reads only disabled flags that exist.
    pub fn can_prev_item(&self) -> (r: bool)
        ensures
            r == self.prev_item_ok(),
    {
        match self.selected {
            Some(start) => start <= self.disabled.len(),
            None => true,
        }
    }

    /// Whether `next_item` reads only disabled flags that exist.
    pub fn can_next_item(&self) -> (r: bool)
        ensures
            r == self.next_item_ok(),
    {
        let start = match self.selected {
            Some(start) => start,
            None => return true,
        };
        let len = self.len();
        if start < len && start + 1 == len {
            return true;
        }
        let dlen = self.disabled.len();
        if start >= dlen {
            proof {
                assert(first_enabled_from(self.disabled@, start + 1) == -1);
            }
            return start < len && len <= dlen;
        }
        let ghost d = self.disabled@;
        let mut k: usize = start + 1;
        while k < dlen
            invariant
                d == self.disabled@,
                dlen == d.len(),
                start < dlen,
                start + 1 <= k <= dlen,
                len == self.item_areas@.len(),
                start + 1 != len,
                self.selected == Some(start),
                first_enabled_from(d, start + 1) == first_enabled_from(d, k as int),
            decreases dlen - k,
        {
            if !self.disabled[k] {
                assert(first_enabled_from(d, k as int) == k);
                return true;
            }
            k = k + 1;
        }
        proof {
            lemma_first_enabled_from(d, start + 1);
        }
        start < len && len <= dlen
    }

    /// Whether `navigate(c)` reads only disabled flags that exist.
    pub fn can_navigate(&self, c: char) -> (r: bool)
        ensures
            r == self.navigate_ok(c),
    {
        let lc = to_ascii_lowercase(c);
        let n = self.navchar.len();
        let dlen = self.disabled.len();
        let mut i: usize = 0;
        while i < n
            invariant
                lc == ascii_lower(c),
                n == self.navchar@.len(),
                dlen == self.disabled@.len(),
                i <= n,
                nav_safe(self.navchar@, self.disabled@, lc, 0) == nav_safe(
                    self.navchar@,
                    self.disabled@,
                    lc,
                    i as int,
                ),
            decreases n - i,
        {
            let hit = match self.navchar[i] {
                Some(x) => x == lc,
                None => false,
            };
            if hit {
                if i >= dlen {
                    return false;
                }
                if !self.disabled[i] {
                    return true;
                }
            }
            i = i + 1;
        }
        true
    }

    /// Whether `select_at(pos)` reads only a disabled flag that exists.
    pub fn can_select_at(&self, pos: (u16, u16)) -> (r: bool)
        ensures
            r == self.select_at_ok(pos),
    {
        match self.item_at(pos) {
            Some(i) => i < self.disabled.len(),
            None => true,
        }
    }

    /// Whether the mouse handling can take the event for a menu that is
    /// shown or not: it reads only disabled flags that exist.
    pub fn can_handle_mouse(&self, shown: bool, event: &Event) -> (r: bool)
        ensures
            r == mouse_ok(*self, shown, *event),
    {
        if !shown {
            return true;
        }
        match event {
            Event::Mouse(m) => {
                if m.modifiers != NO_MODIFIERS || !self.area.contains(m.column, m.row) {
                    return true;
                }
                match m.kind {
                    MouseEventKind::Moved => self.can_select_at((m.column, m.row)),
                    MouseEventKind::Down(MouseButton::Left) => self.can_select_at((m.column, m.row)),
                    _ => true,
                }
            },
            _ => true,
        }
    }

    /// Whether the event handling can take the event for a menu that is
    /// shown or not: it reads only disabled flags that exist.
    pub fn can_handle(&self, shown: bool, event: &Event) -> (r: bool)
        ensures
            r == popup_ok(*self, shown, *event),
    {
        if shown {
            if let Event::Key(k) = event {
                match k.code {
                    KeyCode::Char(c) if k.kind == KeyEventKind::Press => {
                        return self.can_navigate(c);
                    },
                    KeyCode::Up => {
                        if k.modifiers == NO_MODIFIERS && k.kind == KeyEventKind::Press {
                            return self.can_prev_item();
                        }
                    },
                    KeyCode::Down => {
                        if k.modifiers == NO_MODIFIERS && k.kind == KeyEventKind::Press {
                            return self.can_next_item();
                        }
                    },
                    _ => {},
                }
            }
        }
        self.can_handle_mouse(shown, event)
    }
}

/// What the `first_enabled_from` scan finds: `-1`, or an index from `k` on
/// that is not disabled, with all disabled between.
pub proof fn lemma_first_enabled_from(d: Seq<bool>, k: int)
    requires
        k >= 0,
    ensures
        first_enabled_from(d, k) == -1 || (k <= first_enabled_from(d, k) < d.len() && !d[first_enabled_from(d, k)]),
        first_enabled_from(d, k) == -1 ==> forall|j: int| k <= j < d.len() ==> d[j],
        first_enabled_from(d, k) >= 0 ==> forall|j: int| k <= j < first_enabled_from(d, k) ==> d[j],
    decreases d.len() - k,
{
    if k < d.len() && d[k] {
        lemma_first_enabled_from(d, k + 1);
    }
}

} // verus!
