//! Properties of the menu that span its operations: how the selection moves,
//! what handling an event leaves behind, and where the layout puts things.

use crate::event::{char_press, Event, MenuOutcome};
use crate::geometry::Area;
use crate::popup::{lemma_total_height_mono, lemma_total_height_step, widest, Placement, PopupMenu};
use crate::item::MenuItem;
use crate::text::ascii_lower;
use crate::state::{
    first_hit, nav_safe, nav_scan, mouse_ok,
    first_enabled_from, last_enabled_below, lemma_first_enabled_from, mouse_step, next_target,
    popup_ok, popup_step, prev_target, PopupMenuState,
};
use vstd::prelude::*;

verus! {

/// What the downward scan `last_enabled_below` finds: `-1`, or an index
/// below `k` that is not disabled, with all disabled between.
pub proof fn lemma_last_enabled_below(d: Seq<bool>, k: int)
    requires
        0 <= k <= d.len(),
    ensures
        -1 <= last_enabled_below(d, k) < k,
        last_enabled_below(d, k) >= 0 ==> !d[last_enabled_below(d, k)],
        forall|j: int| last_enabled_below(d, k) < j < k ==> d[j],
    decreases k,
{
    if k > 0 && d[k - 1] {
        lemma_last_enabled_below(d, k - 1);
    }
}

/// `prev_item` from a selected item stays there or moves to the nearest
/// item above that is not disabled; it stays only where every item above
/// is disabled.
pub proof fn law_prev_item_skips_disabled(d: Seq<bool>, start: int)
    requires
        0 <= start <= d.len(),
    ensures
        ({
            let t = prev_target(d, start);
            ||| t == start && forall|k: int| 0 <= k < start ==> d[k]
            ||| 0 <= t < start && !d[t] && forall|k: int| t < k < start ==> d[k]
        }),
{
    lemma_last_enabled_below(d, start);
}

/// `next_item` from a selected item among `len` items stays there or moves
/// to the nearest item below that is not disabled; it stays only where
/// every item below is disabled.
pub proof fn law_next_item_skips_disabled(d: Seq<bool>, len: int, start: int)
    requires
        0 <= start < len <= d.len(),
    ensures
        ({
            let t = next_target(d, len, start);
            ||| t == start && forall|k: int| start < k < len ==> d[k]
            ||| start < t < len && !d[t] && forall|k: int| start < k < t ==> d[k]
        }),
{
    lemma_first_enabled_from(d, start + 1);
}

/// Moving down from an item that is not disabled and back up again returns
/// to it, and so does moving up and back down.
pub proof fn law_next_then_prev_returns(d: Seq<bool>, len: int, start: int)
    requires
        0 <= start < len <= d.len(),
        !d[start],
    ensures
        next_target(d, len, start) != start ==> prev_target(d, next_target(d, len, start)) == start,
        prev_target(d, start) != start ==> next_target(d, len, prev_target(d, start)) == start,
{
    let t = next_target(d, len, start);
    law_next_item_skips_disabled(d, len, start);
    if t != start {
        lemma_last_enabled_below_at(d, start, t);
    }
    let u = prev_target(d, start);
    law_prev_item_skips_disabled(d, start);
    if u != start {
        lemma_first_enabled_from_at(d, u + 1, start);
    }
}

/// Where `d[s]` is not disabled and all between `s` and `t` are, the scan
/// down from `t` finds `s`.
proof fn lemma_last_enabled_below_at(d: Seq<bool>, s: int, t: int)
    requires
        0 <= s < t <= d.len(),
        !d[s],
        forall|k: int| s < k < t ==> d[k],
    ensures
        last_enabled_below(d, t) == s,
    decreases t - s,
{
    if t - 1 > s {
        lemma_last_enabled_below_at(d, s, t - 1);
    }
}

/// Where `d[s]` is not disabled and all from `k` up to `s` are, the scan
/// up from `k` finds `s`.
proof fn lemma_first_enabled_from_at(d: Seq<bool>, k: int, s: int)
    requires
        0 <= k <= s < d.len(),
        !d[s],
        forall|j: int| k <= j < s ==> d[j],
    ensures
        first_enabled_from(d, k) == s,
    decreases s - k,
{
    if k < s {
        lemma_first_enabled_from_at(d, k + 1, s);
    }
}

/// The state after an event on a shown menu that stays shown: the
/// selection that `popup_step` gives, everything else as before.
pub open spec fn after(s: PopupMenuState, e: Event) -> PopupMenuState {
    PopupMenuState { selected: popup_step(s, true, e).0, ..s }
}

/// A hidden menu uses no event and changes nothing.
pub proof fn law_hidden_menu_ignores_events(s: PopupMenuState, e: Event)
    ensures
        popup_step(s, false, e) == (s.selected, false, MenuOutcome::Continue),
        mouse_step(s, false, e) == (s.selected, false, MenuOutcome::Continue),
{
}

/// Whenever an event activates an item, the menu was shown, is hidden
/// afterwards, and the activated item is the selected one.
pub proof fn law_activation_hides_menu(s: PopupMenuState, shown: bool, e: Event)
    ensures
        popup_step(s, shown, e).2 is Activated ==> {
            &&& shown
            &&& !popup_step(s, shown, e).1
            &&& popup_step(s, shown, e).0 == Some(popup_step(s, shown, e).2->Activated_0)
        },
        mouse_step(s, shown, e).2 is Activated ==> {
            &&& shown
            &&& !mouse_step(s, shown, e).1
            &&& mouse_step(s, shown, e).0 == Some(mouse_step(s, shown, e).2->Activated_0)
        },
{
}

/// Whenever an event reports an item as selected, the menu was shown and
/// stays shown, and the item is the selection afterwards.
pub proof fn law_selected_outcome_is_selection(s: PopupMenuState, shown: bool, e: Event)
    ensures
        popup_step(s, shown, e).2 is Selected ==> {
            &&& shown
            &&& popup_step(s, shown, e).1
            &&& popup_step(s, shown, e).0 == Some(popup_step(s, shown, e).2->Selected_0)
        },
{
}

/// An event that the menu does not use leaves selection and shown flag as
/// they were.
pub proof fn law_unused_event_changes_nothing(s: PopupMenuState, shown: bool, e: Event)
    ensures
        popup_step(s, shown, e).2 is Continue ==> {
            &&& popup_step(s, shown, e).0 == s.selected
            &&& popup_step(s, shown, e).1 == shown
        },
{
}

/// The keys leave every mouse event to the mouse handling: for a mouse
/// event, handling all events and handling the mouse agree, in what they
/// take and in what they do.
pub proof fn law_mouse_events_fall_through(s: PopupMenuState, shown: bool, e: Event)
    requires
        e is Mouse,
    ensures
        popup_step(s, shown, e) == mouse_step(s, shown, e),
        popup_ok(s, shown, e) == mouse_ok(s, shown, e),
{
}

/// Navigation characters are case-insensitive: an upper-case ASCII letter
/// reaches the same item as its lower-case letter, under the same
/// condition.
pub proof fn law_navigation_ignores_case(s: PopupMenuState, upper: char, lower: char)
    requires
        'A' <= upper <= 'Z',
        lower as u32 == upper as u32 + 32,
    ensures
        s.nav_target(upper) == s.nav_target(lower),
        s.navigate_ok(upper) == s.navigate_ok(lower),
{
    assert(crate::text::ascii_lower(upper) == lower);
}

/// Pressing a navigation key that selects an item, and then pressing it
/// again, activates that item and hides the menu.
pub proof fn law_navigation_key_twice_activates(s: PopupMenuState, e: Event)
    requires
        popup_ok(s, true, e),
        char_press(e) is Some,
        popup_step(s, true, e).2 is Selected,
    ensures
        popup_step(s, true, e).1,
        popup_ok(after(s, e), true, e),
        popup_step(after(s, e), true, e) == (
            popup_step(s, true, e).0,
            false,
            MenuOutcome::Activated(popup_step(s, true, e).2->Selected_0),
        ),
{
    let s2 = after(s, e);
    assert(s2.navchar@ == s.navchar@);
    assert(s2.disabled@ == s.disabled@);
}

/// A state is consistent where each item has its navigation character and
/// disabled flag, as `render_state` leaves it, and the selection is one of
/// the items.
pub open spec fn consistent(s: PopupMenuState) -> bool {
    &&& s.navchar@.len() == s.item_areas@.len()
    &&& s.disabled@.len() == s.item_areas@.len()
    &&& (s.selected matches Some(x) ==> x < s.item_areas@.len())
}

/// The scan for the item under a cell finds `-1` or an index from `i` on.
proof fn lemma_first_hit_bound(areas: Seq<Area>, col: u16, row: u16, i: int)
    requires
        i >= 0,
    ensures
        first_hit(areas, col, row, i) == -1 || i <= first_hit(areas, col, row, i) < areas.len(),
    decreases areas.len() - i,
{
    if i < areas.len() && !areas[i].contains_spec(col, row) {
        lemma_first_hit_bound(areas, col, row, i + 1);
    }
}

/// Where every navigation character has a disabled flag, `navigate` reads
/// only flags that exist.
proof fn lemma_nav_safe(nav: Seq<Option<char>>, d: Seq<bool>, c: char, i: int)
    requires
        nav.len() <= d.len(),
        i >= 0,
    ensures
        nav_safe(nav, d, c, i),
    decreases nav.len() - i,
{
    if i < nav.len() {
        lemma_nav_safe(nav, d, c, i + 1);
    }
}

/// A consistent state takes every event: no key or mouse event makes the
/// handling read a disabled flag that does not exist.
pub proof fn law_consistent_state_takes_every_event(s: PopupMenuState, shown: bool, e: Event)
    requires
        consistent(s),
    ensures
        popup_ok(s, shown, e),
        mouse_ok(s, shown, e),
{
    assert forall|c: char| nav_safe(s.navchar@, s.disabled@, c, 0) by {
        lemma_nav_safe(s.navchar@, s.disabled@, c, 0);
    }
    assert forall|p: (u16, u16)| #[trigger] s.select_at_ok(p) by {
        lemma_first_hit_bound(s.item_areas@, p.0, p.1, 0);
    }
}

/// The menu is moved back into its bounds: after the layout it ends at the
/// right and bottom of `fit_in` at the latest, or it starts at the screen
/// edge. (Where the popup would reach past `u16::MAX` before it is moved,
/// its right or bottom is cut to `u16::MAX` first, and this does not hold.)
pub proof fn law_popup_kept_in_bounds(m: PopupMenu, area: Area, fit_in: Area)
    requires
        m.size_ok(),
        m.origin_ok(area),
        m.raw_area(area).x + m.raw_area(area).width <= u16::MAX,
        m.raw_area(area).y + m.raw_area(area).height <= u16::MAX,
    ensures
        m.popup_area(area, fit_in).right_spec() <= fit_in.right_spec() || m.popup_area(
            area,
            fit_in,
        ).x == 0,
        m.popup_area(area, fit_in).bottom_spec() <= fit_in.bottom_spec() || m.popup_area(
            area,
            fit_in,
        ).y == 0,
{
}

/// The menu is drawn outside the given area: where it fits in its bounds
/// without being moved and `Rect::new` keeps its size, it sits right above
/// (when there is room), left of (when there is room), right of or right
/// below the area.
pub proof fn law_popup_outside_area(m: PopupMenu, area: Area, fit_in: Area)
    requires
        m.size_ok(),
        m.origin_ok(area),
        m.outer_width() * m.outer_height() <= u16::MAX,
        m.raw_area(area).right_spec() < fit_in.right_spec(),
        m.raw_area(area).bottom_spec() < fit_in.bottom_spec(),
    ensures
        ({
            let p = m.popup_area(area, fit_in);
            &&& p.width == m.outer_width()
            &&& p.height == m.outer_height()
            &&& match m.placement {
                Placement::Top => area.y >= m.outer_height() ==> p.y + p.height == area.y,
                Placement::Left => area.x >= m.outer_width() ==> p.x + p.width == area.x,
                Placement::Right => p.x == area.x + area.width && p.y == area.y,
                Placement::Bottom => p.y == area.y + area.height,
            }
        }),
{
    m.lemma_outer_size_nonneg();
}

/// The items are stacked downwards in their order, each separator right
/// below its item.
pub proof fn law_items_stacked(m: PopupMenu, area: Area, fit_in: Area, i: int, j: int)
    requires
        m.layout_ok(area, fit_in),
        0 <= i < j < m.items().len(),
    ensures
        ({
            let p = m.popup_area(area, fit_in);
            &&& m.item_area(p, i).y < m.item_area(p, j).y
            &&& m.sep_area(p, i).y == m.item_area(p, i).y + 1
        }),
{
    let n = m.items().len() as int;
    m.lemma_outer_size_nonneg();
    lemma_total_height_mono(m.items(), j, n - 1);
    lemma_total_height_mono(m.items(), i, j);
}

/// Where `Rect::new` keeps the size of the popup, every item lies inside
/// it, between the border rows, and so does every separator row.
pub proof fn law_items_inside_popup(m: PopupMenu, area: Area, fit_in: Area, i: int)
    requires
        m.layout_ok(area, fit_in),
        m.outer_width() * m.outer_height() <= u16::MAX,
        0 <= i < m.items().len(),
    ensures
        ({
            let p = m.popup_area(area, fit_in);
            let it = m.item_area(p, i);
            &&& p.x < it.x
            &&& it.x + it.width < p.x + p.width
            &&& p.y < it.y
            &&& it.y + it.height < p.y + p.height
            &&& m.sep_area(p, i).y + m.sep_area(p, i).height < p.y + p.height
        }),
{
    let n = m.items().len() as int;
    m.lemma_outer_size_nonneg();
    lemma_total_height_mono(m.items(), i, n - 1);
    lemma_total_height_mono(m.items(), i + 1, n);
    lemma_total_height_step(m.items(), i);
    assert(m.items().take(n) =~= m.items());
}

/// The widest of the items: at least as wide as each item, and as wide as
/// one of them.
proof fn lemma_widest_is_max(items: Seq<MenuItem>)
    requires
        items.len() > 0,
    ensures
        forall|i: int|
            0 <= i < items.len() ==> widest(items) >= (items[i].item_width_spec() * 3) / 2
                + items[i].right_width_spec(),
        exists|i: int|
            0 <= i < items.len() && widest(items) == (items[i].item_width_spec() * 3) / 2
                + items[i].right_width_spec(),
    decreases items.len(),
{
    let s = items.drop_last();
    let n = items.len() - 1;
    let t = (items[n].item_width_spec() * 3) / 2 + items[n].right_width_spec();
    if s.len() > 0 {
        lemma_widest_is_max(s);
        assert forall|i: int| 0 <= i < s.len() implies #[trigger] s[i] == items[i] by {}
        let k = choose|k: int|
            0 <= k < s.len() && widest(s) == (s[k].item_width_spec() * 3) / 2
                + s[k].right_width_spec();
        if widest(items) == t {
            assert(widest(items) == (items[n].item_width_spec() * 3) / 2 + items[n].right_width_spec());
        } else {
            assert(s[k] == items[k]);
            assert(widest(items) == (items[k].item_width_spec() * 3) / 2 + items[k].right_width_spec());
        }
        assert forall|i: int|
            0 <= i < items.len() implies widest(items) >= (items[i].item_width_spec() * 3) / 2
                + items[i].right_width_spec() by {
            if i < n {
                assert(s[i] == items[i]);
            }
        }
    } else {
        assert(widest(s) == 0);
        assert(widest(items) == t) by {
            assert(t >= 0);
        }
        assert(widest(items) == (items[n].item_width_spec() * 3) / 2 + items[n].right_width_spec());
    }
}

/// The item column is as wide as the fixed width, where there is one;
/// otherwise 1.5 times the text of the widest item plus its right-hand
/// text: at least that of every item, and exactly that of one of them;
/// and 10 for a menu without items.
pub proof fn law_item_column_fits_the_widest_item(m: PopupMenu)
    ensures
        m.width matches Some(w) ==> m.menu_width() == w,
        m.width is None && m.items().len() == 0 ==> m.menu_width() == 10,
        m.width is None ==> forall|i: int|
            0 <= i < m.items().len() ==> m.menu_width() >= (m.items()[i].item_width_spec() * 3) / 2
                + m.items()[i].right_width_spec(),
        m.width is None && m.items().len() > 0 ==> exists|i: int|
            0 <= i < m.items().len() && m.menu_width() == (m.items()[i].item_width_spec() * 3) / 2
                + m.items()[i].right_width_spec(),
{
    if m.width is None && m.items().len() > 0 {
        lemma_widest_is_max(m.items());
    }
}

/// What the scan for a navigation character finds: the first item from `i`
/// on with that character that is not disabled, every matching item before
/// it being disabled; or `-1`, where every matching item from `i` on is
/// disabled.
proof fn lemma_nav_scan(nav: Seq<Option<char>>, d: Seq<bool>, c: char, i: int)
    requires
        0 <= i,
        nav_safe(nav, d, c, i),
    ensures
        ({
            let h = nav_scan(nav, d, c, i);
            ||| {
                &&& i <= h < nav.len()
                &&& nav[h] == Some(c)
                &&& h < d.len()
                &&& !d[h]
                &&& forall|j: int| i <= j < h && nav[j] == Some(c) ==> j < d.len() && d[j]
            }
            ||| {
                &&& h == -1
                &&& forall|j: int| i <= j < nav.len() && nav[j] == Some(c) ==> j < d.len() && d[j]
            }
        }),
    decreases nav.len() - i,
{
    if i < nav.len() {
        if !(nav[i] == Some(c) && !d[i]) {
            lemma_nav_scan(nav, d, c, i + 1);
        }
    }
}

/// Where every item with navigation character `c` is disabled, the scan
/// finds none, and it reads only flags that exist.
proof fn lemma_nav_scan_none(nav: Seq<Option<char>>, d: Seq<bool>, c: char, i: int)
    requires
        0 <= i,
        forall|j: int| i <= j < nav.len() && nav[j] == Some(c) ==> j < d.len() && d[j],
    ensures
        nav_scan(nav, d, c, i) == -1,
        nav_safe(nav, d, c, i),
    decreases nav.len() - i,
{
    if i < nav.len() {
        lemma_nav_scan_none(nav, d, c, i + 1);
    }
}

/// Navigation takes the first item whose navigation character is the key's
/// character in lower case and that is not disabled: every such item before
/// it is disabled. Where it finds none, every item with that character is
/// disabled.
pub proof fn law_navigation_takes_first_enabled_match(s: PopupMenuState, c: char)
    requires
        s.navigate_ok(c),
    ensures
        ({
            let lc = ascii_lower(c);
            let nav = s.navchar@;
            let d = s.disabled@;
            let h = s.nav_target(c);
            &&& h >= 0 ==> {
                &&& h < nav.len()
                &&& nav[h] == Some(lc)
                &&& h < d.len()
                &&& !d[h]
                &&& forall|j: int| 0 <= j < h && nav[j] == Some(lc) ==> j < d.len() && d[j]
            }
            &&& h < 0 ==> forall|j: int| 0 <= j < nav.len() && nav[j] == Some(lc) ==> j < d.len() && d[j]
        }),
{
    lemma_nav_scan(s.navchar@, s.disabled@, ascii_lower(c), 0);
}

/// A character key that no enabled item has as its navigation character is
/// left to the application: handling it in a shown menu gives `Continue`,
/// keeps the menu shown and the selection as it was.
pub proof fn law_unknown_navigation_key_is_not_used(s: PopupMenuState, e: Event, c: char)
    requires
        char_press(e) == Some(c),
        forall|j: int|
            0 <= j < s.navchar@.len() && s.navchar@[j] == Some(ascii_lower(c)) ==> j
                < s.disabled@.len() && s.disabled@[j],
    ensures
        popup_ok(s, true, e),
        popup_step(s, true, e) == (s.selected, true, MenuOutcome::Continue),
{
    lemma_nav_scan_none(s.navchar@, s.disabled@, ascii_lower(c), 0);
}

/// Where the popup sticks out right of (below) `fit_in`, it is moved left
/// (up) by exactly as much as it sticks out, so that it ends at the right
/// (bottom) of `fit_in`; or to the screen edge, where it cannot move so
/// far. Where it does not stick out, it stays. It keeps its size.
pub proof fn law_popup_moved_by_overhang(m: PopupMenu, area: Area, fit_in: Area)
    ensures
        ({
            let r = m.raw_area(area);
            let p = m.popup_area(area, fit_in);
            let over_x = r.right_spec() - fit_in.right_spec();
            let over_y = r.bottom_spec() - fit_in.bottom_spec();
            &&& p.width == r.width
            &&& p.height == r.height
            &&& over_x <= 0 ==> p.x == r.x
            &&& over_x > 0 && r.x >= over_x ==> p.x == r.x - over_x
            &&& over_x > 0 && r.x < over_x ==> p.x == 0
            &&& over_y <= 0 ==> p.y == r.y
            &&& over_y > 0 && r.y >= over_y ==> p.y == r.y - over_y
            &&& over_y > 0 && r.y < over_y ==> p.y == 0
        }),
{
}

} // verus!
