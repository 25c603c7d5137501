# rat_menu

A popup menu for terminal user interfaces, verified with Verus.

- `src/geometry.rs`: screen areas; `Rect::new` of ratatui behind a trusted wrapper.
- `src/text.rs`: grapheme counts (unicode-segmentation, trusted wrapper) and ASCII case folding.
- `src/item.rs`: menu items, separators, the item parser and the builder.
- `src/style.rs`: the ratatui `Style` and `Block` types the menu carries, and its style set.
- `src/event.rs`: terminal events as the menu reads them; the outcome of handling one.
- `src/state.rs`: the menu state: selection, keyboard and mouse handling.
- `src/popup.rs`: the menu, its builder methods, its layout and the drawing decisions.
- `src/laws.rs`: properties across operations, proved.
- `app/`: crossterm event conversion and drawing into a ratatui buffer.
