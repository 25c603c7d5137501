//! The outside types that a menu carries for drawing, and its style set.

use ratatui::style::Style;
use ratatui::widgets::Block;
use vstd::prelude::*;

verus! {

/// `ratatui::style::Style`, carried through unread.
#[verifier::external_type_specification]
#[verifier::external_body]
pub struct ExStyle(Style);

/// `ratatui::widgets::Block`, carried through unread.
#[verifier::external_type_specification]
#[verifier::external_body]
pub struct ExBlock<'a>(Block<'a>);

/// `Style::default()`, the empty style; nothing of its value is stated.
pub assume_specification[ <Style as core::default::Default>::default ]() -> Style;

/// `Style::clone`: `Style` derives `Copy` and `Clone`, so a clone is the
/// same value.
pub assume_specification[ <Style as core::clone::Clone>::clone ](s: &Style) -> (r: Style)
    ensures
        r == *s,
;

/// `Block::clone`, the derived field-by-field clone; nothing of its value is
/// stated.
pub assume_specification<'a>[ <Block<'a> as core::clone::Clone>::clone ](b: &Block<'a>) -> Block<'a>;

/// The styles of a menu: the base style and the optional special ones.
#[derive(Debug, Clone, Copy)]
pub struct MenuStyle {
    pub style: Style,
    pub highlight: Option<Style>,
    pub disabled: Option<Style>,
    pub right: Option<Style>,
    pub focus: Option<Style>,
}

impl Default for MenuStyle {
    /// The default base style and no special styles.
    fn default() -> (r: MenuStyle)
        ensures
            r.highlight is None,
            r.disabled is None,
            r.right is None,
            r.focus is None,
    {
        MenuStyle {
            style: Style::default(),
            highlight: None,
            disabled: None,
            right: None,
            focus: None,
        }
    }
}

} // verus!
