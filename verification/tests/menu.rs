use rat_menu::event::{Event, KeyCode, KeyEvent, KeyEventKind, MenuOutcome, MouseButton, MouseEvent, MouseEventKind};
use rat_menu::geometry::{Area, ZArea};
use rat_menu::item::{MenuBuilder, MenuItem, Separator};
use rat_menu::popup::{highlight_parts, item_look, right_text_area, separator_symbol, ItemLook, Placement, PopupMenu};
use rat_menu::state::{handle_mouse_events, handle_popup_events, PopupMenuState};
use rat_menu::style::MenuStyle;
use rat_menu::text::to_ascii_lowercase;
use ratatui::style::{Color, Style};

fn area(x: u16, y: u16, width: u16, height: u16) -> Area {
    Area { x, y, width, height }
}

fn key(code: KeyCode) -> Event {
    Event::Key(KeyEvent { code, modifiers: 0, kind: KeyEventKind::Press })
}

fn key_release(code: KeyCode) -> Event {
    Event::Key(KeyEvent { code, modifiers: 0, kind: KeyEventKind::Release })
}

fn mouse(kind: MouseEventKind, column: u16, row: u16) -> Event {
    Event::Mouse(MouseEvent { kind, column, row, modifiers: 0 })
}

/// A shown state with `n` items at rows 1.., the given disabled flags.
fn state_with(disabled: &[bool]) -> PopupMenuState {
    let mut s = PopupMenuState::new();
    for (i, d) in disabled.iter().enumerate() {
        s.item_areas.push(area(1, 1 + i as u16, 10, 1));
        s.sep_areas.push(area(0, 2 + i as u16, 12, 0));
        s.navchar.push(None);
        s.disabled.push(*d);
    }
    s.area = area(0, 0, 12, disabled.len() as u16 + 2);
    s.set_active(true);
    s
}

// ----- items and builder -----

#[test]
fn builder_adds_items_in_order() {
    let m = PopupMenu::new().item_str("One").item_string("Two".to_string()).item(MenuItem::new_str("Three"));
    let texts: Vec<&str> = m.menu.items.iter().map(|i| i.item.as_str()).collect();
    assert_eq!(texts, vec!["One", "Two", "Three"]);
    assert!(m.menu.items.iter().all(|i| i.separator.is_none() && !i.disabled && i.navchar.is_none()));
}

#[test]
fn separator_goes_to_last_item() {
    let m = PopupMenu::new().item_str("One").item_str("Two").separator(Separator::Dotted);
    assert_eq!(m.menu.items.len(), 2);
    assert_eq!(m.menu.items[0].separator, None);
    assert_eq!(m.menu.items[1].separator, Some(Separator::Dotted));
    assert_eq!(m.menu.items[1].item, "Two");
}

#[test]
fn separator_without_items_adds_empty_item() {
    let m = PopupMenu::new().separator(Separator::Plain);
    assert_eq!(m.menu.items.len(), 1);
    assert_eq!(m.menu.items[0].item, "");
    assert_eq!(m.menu.items[0].separator, Some(Separator::Plain));
}

#[test]
fn parsed_item_with_navchar_and_right_text() {
    let it = MenuItem::new_parsed("_Open|Ctrl+O");
    assert_eq!(it.item, "_Open");
    assert_eq!(it.right, "Ctrl+O");
    assert_eq!(it.navchar, Some('O'));
    assert_eq!(it.highlight, Some(1..2));
    assert_eq!(it.separator, None);
    assert!(!it.disabled);
}

#[test]
fn parsed_item_marker_in_the_middle() {
    let it = MenuItem::new_parsed("Save _as");
    assert_eq!(it.item, "Save _as");
    assert_eq!(it.navchar, Some('a'));
    assert_eq!(it.highlight, Some(6..7));
    assert_eq!(it.right, "");
}

#[test]
fn parsed_item_marker_at_the_end_marks_nothing() {
    let it = MenuItem::new_parsed("Quit_");
    assert_eq!(it.item, "Quit_");
    assert_eq!(it.navchar, None);
    assert_eq!(it.highlight, None);
}

#[test]
fn parsed_item_splits_at_first_pipe() {
    let it = MenuItem::new_parsed("a|b|c");
    assert_eq!(it.item, "a");
    assert_eq!(it.right, "b|c");
}

#[test]
fn parsed_separator_codes() {
    let codes = [
        ("\\   ", Separator::Empty),
        ("\\___", Separator::Plain),
        ("\\______", Separator::Thick),
        ("\\===", Separator::Double),
        ("\\---", Separator::Dashed),
        ("\\...", Separator::Dotted),
    ];
    for (code, sep) in codes {
        let it = MenuItem::new_parsed(code);
        assert_eq!(it.separator, Some(sep), "{code}");
        assert_eq!(it.item, "");
    }
    assert_eq!(MenuItem::new_parsed("\\__").separator, None);
    assert_eq!(MenuItem::new_parsed("\\_=_").separator, None);
}

#[test]
fn item_parsed_separator_code_marks_last_item() {
    let m = PopupMenu::new().item_parsed("_New").item_parsed("\\===").item_parsed("_Quit");
    assert_eq!(m.menu.items.len(), 2);
    assert_eq!(m.menu.items[0].separator, Some(Separator::Double));
    assert_eq!(m.menu.items[1].item, "_Quit");
}

#[test]
fn builder_item_parsed_on_menu_builder() {
    let mut b = MenuBuilder::new();
    b.item_parsed("\\...");
    assert_eq!(b.items.len(), 1);
    assert_eq!(b.items[0].separator, Some(Separator::Dotted));
    b.item_str("x");
    b.separator(Separator::Thick);
    assert_eq!(b.items[1].separator, Some(Separator::Thick));
}

#[test]
fn item_widths_count_graphemes() {
    // "e" + combining acute accent is one grapheme of two chars.
    let it = MenuItem::new_str("e\u{301}xy");
    assert_eq!(it.item_width(), 3);
    let nav = MenuItem::new_parsed("_e\u{301}x|k\u{301}");
    assert_eq!(nav.item_width(), 2);
    assert_eq!(nav.right_width(), 1);
    assert_eq!(MenuItem::new_str("").item_width(), 0);
}

#[test]
fn item_heights() {
    assert_eq!(MenuItem::new_str("a").height(), 1);
    assert_eq!(MenuItem::new_sep(Separator::Plain).height(), 2);
}

#[test]
fn ascii_lowercase_only_changes_ascii_capitals() {
    assert_eq!(to_ascii_lowercase('Q'), 'q');
    assert_eq!(to_ascii_lowercase('A'), 'a');
    assert_eq!(to_ascii_lowercase('Z'), 'z');
    assert_eq!(to_ascii_lowercase('q'), 'q');
    assert_eq!(to_ascii_lowercase('['), '[');
    assert_eq!(to_ascii_lowercase('\u{c4}'), '\u{c4}');
}

// ----- builder settings -----

#[test]
fn builder_settings() {
    let st = Style::new().fg(Color::Red);
    let m = PopupMenu::new()
        .width(12)
        .placement(Placement::Left)
        .boundary(area(1, 2, 3, 4))
        .style(st)
        .highlight_style(st)
        .disabled_style(st)
        .right_style(st)
        .focus_style(st);
    assert_eq!(m.width, Some(12));
    assert_eq!(m.placement, Placement::Left);
    assert_eq!(m.boundary, Some(area(1, 2, 3, 4)));
    assert_eq!(m.style, st);
    assert_eq!(m.highlight_style, Some(st));
    assert_eq!(m.disabled_style, Some(st));
    assert_eq!(m.right_style, Some(st));
    assert_eq!(m.focus_style, Some(st));
    assert!(!m.block_indent);
    let b = m.block(ratatui::widgets::Block::bordered());
    assert!(b.block.is_some());
    assert!(b.block_indent);
}

#[test]
fn builder_styles_take_the_set() {
    let mut set = MenuStyle::default();
    assert!(set.highlight.is_none() && set.disabled.is_none() && set.right.is_none() && set.focus.is_none());
    set.style = Style::new().bg(Color::Blue);
    set.focus = Some(Style::new().fg(Color::Green));
    let m = PopupMenu::new().styles(set);
    assert_eq!(m.style, Style::new().bg(Color::Blue));
    assert_eq!(m.focus_style, Some(Style::new().fg(Color::Green)));
    assert_eq!(m.highlight_style, None);
}

#[test]
fn new_menu_defaults() {
    let m = PopupMenu::new();
    assert!(m.menu.items.is_empty());
    assert_eq!(m.width, None);
    assert_eq!(m.placement, Placement::Top);
    assert_eq!(m.boundary, None);
    assert!(m.block.is_none());
    assert_eq!(Placement::default(), Placement::Top);
}

// ----- selection -----

#[test]
fn new_state_is_hidden_and_empty() {
    let s = PopupMenuState::new();
    assert!(!s.active());
    assert_eq!(s.len(), 0);
    assert!(s.is_empty());
    assert_eq!(s.selected(), None);
    let n = PopupMenuState::named("menu");
    assert_eq!(n.focus.name(), "menu");
    assert!(!n.active());
}

#[test]
fn focus_flag_is_shared_with_its_clones() {
    let s = PopupMenuState::named("menu");
    let flag = s.focus.clone();
    flag.set(true);
    assert!(s.active());
    s.set_active(false);
    assert!(!flag.get());
}

#[test]
fn active_flag() {
    let mut s = PopupMenuState::new();
    s.set_active(true);
    assert!(s.active());
    s.flip_active();
    assert!(!s.active());
    s.flip_active();
    assert!(s.active());
}

#[test]
fn select_refuses_disabled_items() {
    let mut s = state_with(&[false, true, false]);
    assert!(s.select(Some(0)));
    assert!(!s.select(Some(1)));
    assert_eq!(s.selected(), Some(0));
    assert!(!s.select(Some(0)));
    assert!(s.select(Some(2)));
    assert!(s.select(None));
    assert_eq!(s.selected(), None);
    // Beyond the flags nothing is refused.
    assert!(s.select(Some(7)));
    assert_eq!(s.selected(), Some(7));
}

#[test]
fn next_item_skips_disabled_and_stops_at_the_end() {
    let mut s = state_with(&[false, true, false, true]);
    assert!(s.next_item());
    assert_eq!(s.selected(), Some(0));
    assert!(s.next_item());
    assert_eq!(s.selected(), Some(2));
    assert!(!s.next_item());
    assert_eq!(s.selected(), Some(2));
}

#[test]
fn prev_item_skips_disabled_and_stops_at_the_top() {
    let mut s = state_with(&[true, false, true, false]);
    assert!(s.prev_item());
    assert_eq!(s.selected(), Some(3));
    assert!(s.prev_item());
    assert_eq!(s.selected(), Some(1));
    assert!(!s.prev_item());
    assert_eq!(s.selected(), Some(1));
}

#[test]
fn prev_item_without_items_selects_zero() {
    let mut s = PopupMenuState::new();
    assert!(s.prev_item());
    assert_eq!(s.selected(), Some(0));
}

#[test]
fn next_then_prev_returns() {
    let mut s = state_with(&[false, true, true, false, false]);
    s.select(Some(0));
    s.next_item();
    assert_eq!(s.selected(), Some(3));
    s.prev_item();
    assert_eq!(s.selected(), Some(0));
    s.select(Some(4));
    s.prev_item();
    s.next_item();
    assert_eq!(s.selected(), Some(4));
}

#[test]
fn navigate_selects_then_activates() {
    let mut s = state_with(&[false, true, false]);
    s.navchar = vec![Some('o'), Some('s'), Some('s')];
    assert_eq!(s.navigate('S'), MenuOutcome::Selected(2));
    assert_eq!(s.selected(), Some(2));
    assert_eq!(s.navigate('s'), MenuOutcome::Activated(2));
    assert_eq!(s.navigate('x'), MenuOutcome::Continue);
    assert_eq!(s.selected(), Some(2));
    assert_eq!(s.navigate('O'), MenuOutcome::Selected(0));
}

#[test]
fn select_at_and_item_at() {
    let mut s = state_with(&[false, true, false]);
    assert_eq!(s.item_at((3, 1)), Some(0));
    assert_eq!(s.item_at((3, 2)), Some(1));
    assert_eq!(s.item_at((0, 2)), None);
    assert_eq!(s.item_at((11, 2)), None);
    assert!(!s.select_at((3, 2)));
    assert_eq!(s.selected(), None);
    assert!(s.select_at((3, 3)));
    assert_eq!(s.selected(), Some(2));
    assert!(!s.select_at((50, 50)));
    // The item is selected already: no change is reported.
    assert!(!s.select_at((3, 3)));
    assert_eq!(s.selected(), Some(2));
}

#[test]
fn preconditions_are_checked_by_the_can_functions() {
    let mut s = state_with(&[false, false]);
    assert!(s.can_next_item() && s.can_prev_item());
    s.selected = Some(5);
    assert!(!s.can_prev_item());
    assert!(!s.can_next_item());
    assert!(!s.can_handle(true, &key(KeyCode::Up)));
    assert!(s.can_handle(true, &key(KeyCode::Home)));
    s.navchar = vec![Some('a'), Some('a'), Some('a')];
    s.disabled = vec![true, true];
    assert!(!s.can_navigate('a'));
    s.disabled = vec![true, false];
    assert!(s.can_navigate('a'));
    s.disabled = vec![false];
    assert!(!s.can_select_at((3, 2)));
    assert!(s.can_select_at((3, 1)));
}

#[test]
fn consistent_state_takes_every_event() {
    let mut s = state_with(&[true, false, true]);
    s.navchar = vec![Some('a'), None, Some('a')];
    let events = [
        key(KeyCode::Char('a')),
        key(KeyCode::Up),
        key(KeyCode::Down),
        key(KeyCode::Home),
        key(KeyCode::End),
        key(KeyCode::Enter),
        mouse(MouseEventKind::Moved, 3, 3),
        mouse(MouseEventKind::Down(MouseButton::Left), 3, 1),
        Event::Other,
    ];
    for sel in [None, Some(0), Some(1), Some(2)] {
        s.selected = sel;
        for e in events {
            assert!(s.can_handle(true, &e));
            assert!(s.can_handle_mouse(true, &e));
            let mut t = s.clone();
            let _ = handle_popup_events(&mut t, &e);
        }
    }
}

// ----- event handling -----

#[test]
fn hidden_menu_ignores_events() {
    let mut s = state_with(&[false, false]);
    s.set_active(false);
    for e in [key(KeyCode::Down), key(KeyCode::Esc), key(KeyCode::Char('a')), mouse(MouseEventKind::Down(MouseButton::Left), 3, 1)] {
        assert_eq!(handle_popup_events(&mut s, &e), MenuOutcome::Continue);
        assert_eq!(s.selected(), None);
        assert!(!s.active());
    }
}

#[test]
fn arrow_keys_move_the_selection() {
    let mut s = state_with(&[false, true, false]);
    assert_eq!(handle_popup_events(&mut s, &key(KeyCode::Down)), MenuOutcome::Selected(0));
    assert_eq!(handle_popup_events(&mut s, &key(KeyCode::Down)), MenuOutcome::Selected(2));
    assert_eq!(handle_popup_events(&mut s, &key(KeyCode::Down)), MenuOutcome::Unchanged);
    assert_eq!(handle_popup_events(&mut s, &key(KeyCode::Up)), MenuOutcome::Selected(0));
    assert_eq!(handle_popup_events(&mut s, &key(KeyCode::Up)), MenuOutcome::Unchanged);
    assert!(s.active());
}

#[test]
fn home_and_end() {
    let mut s = state_with(&[false, false, true]);
    assert_eq!(handle_popup_events(&mut s, &key(KeyCode::Home)), MenuOutcome::Selected(0));
    assert_eq!(handle_popup_events(&mut s, &key(KeyCode::Home)), MenuOutcome::Unchanged);
    // The last item is disabled.
    assert_eq!(handle_popup_events(&mut s, &key(KeyCode::End)), MenuOutcome::Unchanged);
    assert_eq!(s.selected(), Some(0));
    let mut t = state_with(&[false, false]);
    assert_eq!(handle_popup_events(&mut t, &key(KeyCode::End)), MenuOutcome::Selected(1));
}

#[test]
fn esc_hides_the_menu() {
    let mut s = state_with(&[false]);
    assert_eq!(handle_popup_events(&mut s, &key(KeyCode::Esc)), MenuOutcome::Changed);
    assert!(!s.active());
}

#[test]
fn enter_activates_the_selection() {
    let mut s = state_with(&[false, false]);
    assert_eq!(handle_popup_events(&mut s, &key(KeyCode::Enter)), MenuOutcome::Continue);
    assert!(s.active());
    s.select(Some(1));
    assert_eq!(handle_popup_events(&mut s, &key(KeyCode::Enter)), MenuOutcome::Activated(1));
    assert!(!s.active());
}

#[test]
fn navigation_key_twice_activates_and_hides() {
    let mut s = state_with(&[false, false]);
    s.navchar = vec![Some('a'), Some('b')];
    assert_eq!(handle_popup_events(&mut s, &key(KeyCode::Char('B'))), MenuOutcome::Selected(1));
    assert!(s.active());
    assert_eq!(handle_popup_events(&mut s, &key(KeyCode::Char('b'))), MenuOutcome::Activated(1));
    assert!(!s.active());
}

#[test]
fn navigation_key_with_modifiers_still_navigates() {
    let mut s = state_with(&[false, false]);
    s.navchar = vec![Some('a'), Some('b')];
    let e = Event::Key(KeyEvent { code: KeyCode::Char('b'), modifiers: 4, kind: KeyEventKind::Press });
    assert_eq!(handle_popup_events(&mut s, &e), MenuOutcome::Selected(1));
}

#[test]
fn arrow_with_modifiers_is_not_used() {
    let mut s = state_with(&[false, false]);
    let e = Event::Key(KeyEvent { code: KeyCode::Down, modifiers: 2, kind: KeyEventKind::Press });
    assert_eq!(handle_popup_events(&mut s, &e), MenuOutcome::Continue);
    assert_eq!(s.selected(), None);
}

#[test]
fn key_releases_are_used_without_effect() {
    let mut s = state_with(&[false, false]);
    for code in [KeyCode::Char('x'), KeyCode::Up, KeyCode::Down, KeyCode::Home, KeyCode::End, KeyCode::Esc, KeyCode::Enter] {
        assert_eq!(handle_popup_events(&mut s, &key_release(code)), MenuOutcome::Unchanged);
    }
    assert_eq!(handle_popup_events(&mut s, &key_release(KeyCode::Other)), MenuOutcome::Continue);
    assert_eq!(handle_popup_events(&mut s, &Event::Other), MenuOutcome::Continue);
    assert_eq!(s.selected(), None);
    assert!(s.active());
}

#[test]
fn mouse_move_selects_and_click_activates() {
    let mut s = state_with(&[false, true, false]);
    assert_eq!(handle_popup_events(&mut s, &mouse(MouseEventKind::Moved, 3, 3)), MenuOutcome::Selected(2));
    assert_eq!(handle_popup_events(&mut s, &mouse(MouseEventKind::Moved, 3, 2)), MenuOutcome::Unchanged);
    assert_eq!(s.selected(), Some(2));
    assert_eq!(handle_popup_events(&mut s, &mouse(MouseEventKind::Moved, 40, 2)), MenuOutcome::Continue);
    assert_eq!(
        handle_popup_events(&mut s, &mouse(MouseEventKind::Down(MouseButton::Right), 3, 1)),
        MenuOutcome::Continue
    );
    assert_eq!(
        handle_mouse_events(&mut s, &mouse(MouseEventKind::Down(MouseButton::Left), 3, 1)),
        MenuOutcome::Activated(0)
    );
    assert!(!s.active());
    assert_eq!(s.selected(), Some(0));
}

#[test]
fn pointing_at_the_selected_item_reports_no_change() {
    let mut s = state_with(&[false, false]);
    assert_eq!(handle_popup_events(&mut s, &mouse(MouseEventKind::Moved, 3, 2)), MenuOutcome::Selected(1));
    assert_eq!(handle_popup_events(&mut s, &mouse(MouseEventKind::Moved, 3, 2)), MenuOutcome::Unchanged);
    assert!(s.active());
    assert_eq!(s.selected(), Some(1));
}

#[test]
fn click_on_the_selected_item_activates_it() {
    let mut s = state_with(&[false, false]);
    assert_eq!(handle_popup_events(&mut s, &mouse(MouseEventKind::Moved, 3, 2)), MenuOutcome::Selected(1));
    assert_eq!(
        handle_popup_events(&mut s, &mouse(MouseEventKind::Down(MouseButton::Left), 3, 2)),
        MenuOutcome::Activated(1)
    );
    assert!(!s.active());
    assert_eq!(s.selected(), Some(1));
}

#[test]
fn click_on_a_disabled_item_is_unchanged() {
    let mut s = state_with(&[false, true]);
    s.select(Some(0));
    assert_eq!(
        handle_popup_events(&mut s, &mouse(MouseEventKind::Down(MouseButton::Left), 3, 2)),
        MenuOutcome::Unchanged
    );
    assert!(s.active());
    assert_eq!(s.selected(), Some(0));
}

#[test]
fn event_that_cannot_be_taken_gives_continue() {
    let mut s = state_with(&[false, false]);
    s.selected = Some(5);
    assert!(!s.can_handle(true, &key(KeyCode::Up)));
    assert_eq!(handle_popup_events(&mut s, &key(KeyCode::Up)), MenuOutcome::Continue);
    assert_eq!(s.selected(), Some(5));
    assert!(s.active());
    // A hidden menu takes it: nothing is read.
    s.set_active(false);
    assert!(s.can_handle(false, &key(KeyCode::Up)));
    assert_eq!(handle_popup_events(&mut s, &key(KeyCode::Up)), MenuOutcome::Continue);
}

#[test]
fn click_on_border_is_unchanged() {
    let mut s = state_with(&[false]);
    assert_eq!(
        handle_popup_events(&mut s, &mouse(MouseEventKind::Down(MouseButton::Left), 0, 0)),
        MenuOutcome::Unchanged
    );
    assert!(s.active());
}

#[test]
fn outcome_consumed() {
    assert!(!MenuOutcome::Continue.is_consumed());
    assert!(MenuOutcome::Unchanged.is_consumed());
    assert!(MenuOutcome::Changed.is_consumed());
    assert!(MenuOutcome::Selected(0).is_consumed());
    assert!(MenuOutcome::Activated(0).is_consumed());
}

// ----- layout -----

fn two_items() -> PopupMenu<'static> {
    PopupMenu::new().width(5).item_str("a").item_str("b")
}

#[test]
fn layout_bottom() {
    let m = two_items().placement(Placement::Bottom);
    let mut s = PopupMenuState::new();
    assert!(m.layout_fits(area(10, 10, 4, 1), area(0, 0, 100, 100)));
    m.layout(area(10, 10, 4, 1), area(0, 0, 100, 100), &mut s);
    assert_eq!(s.area, area(9, 11, 7, 4));
    assert_eq!(s.z_areas, [ZArea { z: 1, area: area(9, 11, 7, 4) }]);
    assert_eq!(s.item_areas, vec![area(10, 12, 5, 1), area(10, 13, 5, 1)]);
    assert_eq!(s.sep_areas, vec![area(9, 13, 7, 0), area(9, 14, 7, 0)]);
    assert_eq!(s.len(), 2);
}

#[test]
fn layout_at_a_mouse_position() {
    // An empty area at a click position: the menu opens below it, its texts
    // aligned with the click column.
    let mut s = PopupMenuState::new();
    two_items().placement(Placement::Bottom).layout(area(5, 5, 0, 0), area(0, 0, 100, 100), &mut s);
    assert_eq!(s.area, area(4, 5, 7, 4));
    assert_eq!(s.item_areas[0].x, 5);
}

#[test]
fn layout_top_sits_above() {
    let m = two_items();
    let mut s = PopupMenuState::new();
    m.layout(area(10, 10, 4, 1), area(0, 0, 100, 100), &mut s);
    assert_eq!(s.area, area(9, 6, 7, 4));
    assert_eq!(s.area.y + s.area.height, 10);
}

#[test]
fn layout_left_and_right() {
    let mut s = PopupMenuState::new();
    two_items().placement(Placement::Left).layout(area(10, 10, 4, 1), area(0, 0, 100, 100), &mut s);
    assert_eq!(s.area, area(3, 10, 7, 4));
    two_items().placement(Placement::Right).layout(area(10, 10, 4, 1), area(0, 0, 100, 100), &mut s);
    assert_eq!(s.area, area(14, 10, 7, 4));
}

#[test]
fn layout_moves_back_into_bounds() {
    let mut s = PopupMenuState::new();
    let fit = area(0, 0, 18, 12);
    two_items().placement(Placement::Right).layout(area(10, 10, 4, 1), fit, &mut s);
    assert_eq!(s.area, area(11, 8, 7, 4));
    assert!(s.area.right() <= fit.right());
    assert!(s.area.bottom() <= fit.bottom());
}

#[test]
fn layout_pinned_at_screen_edge() {
    let mut s = PopupMenuState::new();
    two_items().placement(Placement::Left).layout(area(2, 0, 4, 1), area(0, 0, 3, 2), &mut s);
    assert_eq!(s.area.x, 0);
    assert_eq!(s.area.y, 0);
}

#[test]
fn layout_with_separator_rows() {
    let m = PopupMenu::new().width(5).placement(Placement::Bottom).item_str("a").separator(Separator::Plain).item_str("b");
    let mut s = PopupMenuState::new();
    m.layout(area(10, 10, 4, 1), area(0, 0, 100, 100), &mut s);
    assert_eq!(s.area, area(9, 11, 7, 5));
    assert_eq!(s.item_areas, vec![area(10, 12, 5, 1), area(10, 14, 5, 1)]);
    assert_eq!(s.sep_areas, vec![area(9, 13, 7, 1), area(9, 15, 7, 0)]);
    for (i, it) in s.item_areas.iter().enumerate() {
        assert!(s.area.x < it.x && it.right() < s.area.right());
        assert!(s.area.y < it.y && it.bottom() < s.area.bottom());
        assert_eq!(s.sep_areas[i].y, it.y + 1);
    }
}

#[test]
fn layout_with_block_indents() {
    let m = two_items().placement(Placement::Bottom).block(ratatui::widgets::Block::bordered());
    let mut s = PopupMenuState::new();
    m.layout(area(10, 10, 4, 1), area(0, 0, 100, 100), &mut s);
    assert_eq!(s.area, area(8, 11, 9, 4));
    assert_eq!(s.item_areas[0], area(10, 12, 5, 1));
    assert_eq!(s.sep_areas[0], area(9, 13, 7, 0));
}

#[test]
fn layout_width_from_texts() {
    // "abcd": 4 * 3 / 2 = 6; "ab|xyz": 2 * 3 / 2 + 3 = 6; "_abcde": 5 * 3 / 2 = 7.
    let m = PopupMenu::new().placement(Placement::Bottom).item_str("abcd").item_parsed("ab|xyz").item_parsed("_abcde");
    let mut s = PopupMenuState::new();
    m.layout(area(10, 10, 4, 1), area(0, 0, 100, 100), &mut s);
    assert_eq!(s.item_areas[0].width, 7);
    assert_eq!(s.area.width, 9);
    let e = PopupMenu::new().placement(Placement::Bottom);
    e.layout(area(10, 10, 4, 1), area(0, 0, 100, 100), &mut s);
    assert_eq!(s.area, area(9, 11, 12, 2));
    assert!(s.item_areas.is_empty());
}

#[test]
fn layout_large_popup_is_shrunk_by_rect_new() {
    let mut m = PopupMenu::new().width(1000).placement(Placement::Bottom);
    for _ in 0..100 {
        m = m.item_str("x");
    }
    let mut s = PopupMenuState::new();
    let fit = area(0, 0, u16::MAX, u16::MAX);
    assert!(m.layout_fits(area(0, 0, 0, 0), fit));
    m.layout(area(0, 0, 0, 0), fit, &mut s);
    assert_eq!(s.area, area(0, 0, 802, 81));
    assert!(s.area.width <= 1002 && s.area.height <= 102);
    assert_eq!(s.item_areas.len(), 100);
    assert_eq!(s.item_areas[99], area(1, 100, 1000, 1));
}

#[test]
fn layout_fits_detects_overflow() {
    let m = two_items().placement(Placement::Right);
    assert!(!m.layout_fits(area(u16::MAX - 2, 0, 5, 1), area(0, 0, 100, 100)));
    let w = PopupMenu::new().width(u16::MAX - 1).item_str("a");
    assert!(!w.layout_fits(area(0, 0, 1, 1), area(0, 0, 100, 100)));
    let b = two_items().placement(Placement::Bottom);
    assert!(!b.layout_fits(area(0, u16::MAX - 1, 1, 1), area(0, 0, u16::MAX, u16::MAX)));
    assert!(b.layout_fits(area(0, 10, 1, 1), area(0, 0, u16::MAX, u16::MAX)));
}

#[test]
fn render_state_of_hidden_menu_changes_nothing() {
    let m = two_items();
    let mut s = PopupMenuState::new();
    assert!(m.render_state(area(10, 10, 4, 1), area(0, 0, 100, 100), &mut s));
    assert!(s.item_areas.is_empty());
    assert!(s.navchar.is_empty());
    assert_eq!(s.area, Area::empty());
}

#[test]
fn render_state_takes_navchars_and_flags() {
    let mut disabled = MenuItem::new_parsed("_Save");
    disabled.disabled = true;
    let m = PopupMenu::new().width(5).item_parsed("_Open").item(disabled).item_str("plain").boundary(area(0, 0, 12, 12));
    let mut s = PopupMenuState::new();
    s.set_active(true);
    assert!(m.render_state(area(10, 10, 4, 1), area(0, 0, 100, 100), &mut s));
    assert_eq!(s.navchar, vec![Some('o'), Some('s'), None]);
    assert_eq!(s.disabled, vec![false, true, false]);
    assert_eq!(s.len(), 3);
    // Kept within the boundary, not the buffer.
    assert!(s.area.right() <= 12 && s.area.bottom() <= 12);
}

#[test]
fn render_state_reports_overflow() {
    let m = two_items().placement(Placement::Right);
    let mut s = PopupMenuState::new();
    s.set_active(true);
    assert!(!m.render_state(area(u16::MAX - 2, 0, 5, 1), area(0, 0, 100, 100), &mut s));
    assert!(s.item_areas.is_empty());
    assert_eq!(s.disabled, vec![false, false]);
}

#[test]
fn focus_area_only_while_shown() {
    let mut s = state_with(&[false]);
    assert_eq!(s.focus_area(), s.area);
    assert_eq!(s.focus_z_areas().len(), 1);
    s.set_active(false);
    assert_eq!(s.focus_area(), Area::empty());
    assert!(s.focus_z_areas().is_empty());
    assert_eq!(s.focus_area_shown(true), s.area);
    assert_eq!(s.focus_area_shown(false), Area::empty());
    assert_eq!(s.focus_z_areas_shown(true), &s.z_areas[..]);
    assert!(s.focus_z_areas_shown(false).is_empty());
}

// ----- drawing decisions -----

#[test]
fn item_looks() {
    assert_eq!(item_look(Some(1), 1, false), ItemLook::Focus);
    assert_eq!(item_look(Some(1), 1, true), ItemLook::Disabled);
    assert_eq!(item_look(Some(1), 2, true), ItemLook::Disabled);
    assert_eq!(item_look(None, 2, false), ItemLook::Base);
}

#[test]
fn right_text_is_flush_right() {
    assert_eq!(right_text_area(area(10, 3, 8, 1), 3), area(15, 3, 3, 1));
    assert_eq!(right_text_area(area(10, 3, 8, 1), 8), area(10, 3, 8, 1));
    assert_eq!(right_text_area(area(10, 3, 8, 1), 20), area(10, 3, 8, 1));
}

#[test]
fn highlight_split() {
    let it = MenuItem::new_parsed("Save _as");
    let h = it.highlight.clone().unwrap();
    assert_eq!(highlight_parts(&it, &h), ("Save ", "a", "s"));
    let u = MenuItem::new_parsed("_\u{e4}rger");
    let h = u.highlight.clone().unwrap();
    assert_eq!(highlight_parts(&u, &h), ("", "\u{e4}", "rger"));
}

#[test]
fn separator_symbols() {
    assert_eq!(separator_symbol(Separator::Empty), ' ');
    assert_eq!(separator_symbol(Separator::Plain), '\u{2500}');
    assert_eq!(separator_symbol(Separator::Thick), '\u{2501}');
    assert_eq!(separator_symbol(Separator::Double), '\u{2550}');
    assert_eq!(separator_symbol(Separator::Dashed), '\u{2212}');
    assert_eq!(separator_symbol(Separator::Dotted), '\u{2508}');
}
