//! Menu items, separators and the builder that collects them.

use crate::geometry::sat_sub;
use crate::text::{count_graphemes, grapheme_count};
use vstd::prelude::*;
use vstd::string::StrSliceExecFns;

verus! {

/// The line drawn below a menu item.
#[derive(Debug, Clone, Copy, PartialEq, Eq, Structural)]
pub enum Separator {
    Empty,
    Plain,
    Thick,
    Double,
    Dashed,
    Dotted,
}

/// One entry of a menu.
///
/// `highlight` is a range of character positions in `item`: the navigation
/// character, which follows the `_` that marks it in the text.
#[derive(Debug, Clone)]
pub struct MenuItem {
    pub item: String,
    pub highlight: Option<core::ops::Range<usize>>,
    pub navchar: Option<char>,
    pub right: String,
    pub disabled: bool,
    pub separator: Option<Separator>,
}

impl MenuItem {
    /// Width of the item text in graphemes, without the `_` that marks the
    /// navigation character.
    pub open spec fn item_width_spec(&self) -> u16 {
        let w = grapheme_count(self.item@) as u16;
        if self.navchar is Some {
            sat_sub(w, 1)
        } else {
            w
        }
    }

    /// Width of the right-hand text in graphemes.
    pub open spec fn right_width_spec(&self) -> u16 {
        grapheme_count(self.right@) as u16
    }

    /// Rows taken by the item: one, and one more for a separator.
    pub open spec fn height_spec(&self) -> u16 {
        if self.separator is None {
            1
        } else {
            2
        }
    }

    /// An item with the given text and nothing else.
    pub open spec fn plain(&self, text: Seq<char>) -> bool {
        &&& self.item@ == text
        &&& self.highlight is None
        &&& self.navchar is None
        &&& self.right@ == Seq::<char>::empty()
        &&& !self.disabled
        &&& self.separator is None
    }

    /// An empty item.
    pub fn new() -> (r: MenuItem)
        ensures
            r.plain(Seq::empty()),
    {
        MenuItem {
            item: String::new(),
            highlight: None,
            navchar: None,
            right: String::new(),
            disabled: false,
            separator: None,
        }
    }

    /// An item with the given text.
    pub fn new_str(text: &str) -> (r: MenuItem)
        ensures
            r.plain(text@),
    {
        MenuItem {
            item: text.to_owned(),
            highlight: None,
            navchar: None,
            right: String::new(),
            disabled: false,
            separator: None,
        }
    }

    /// An item with the given owned text.
    pub fn new_string(text: String) -> (r: MenuItem)
        ensures
            r.plain(text@),
    {
        MenuItem {
            item: text,
            highlight: None,
            navchar: None,
            right: String::new(),
            disabled: false,
            separator: None,
        }
    }

    /// An empty item that only carries a separator.
    pub fn new_sep(separator: Separator) -> (r: MenuItem)
        ensures
            r.item@ == Seq::<char>::empty(),
            r.highlight is None,
            r.navchar is None,
            r.right@ == Seq::<char>::empty(),
            !r.disabled,
            r.separator == Some(separator),
    {
        MenuItem {
            item: String::new(),
            highlight: None,
            navchar: None,
            right: String::new(),
            disabled: false,
            separator: Some(separator),
        }
    }

    /// Width of the item text in graphemes, without the navigation marker.
    pub fn item_width(&self) -> (r: u16)
        ensures
            r == self.item_width_spec(),
    {
        let n = count_graphemes(self.item.as_str());
        let w: u16 = #[verifier::truncate] (n as u16);
        if self.navchar.is_some() {
            w.saturating_sub(1)
        } else {
            w
        }
    }

    /// Width of the right-hand text in graphemes.
    pub fn right_width(&self) -> (r: u16)
        ensures
            r == self.right_width_spec(),
    {
        let n = count_graphemes(self.right.as_str());
        #[verifier::truncate]
        (n as u16)
    }

    /// Rows taken by the item.
    pub fn height(&self) -> (r: u16)
        ensures
            r == self.height_spec(),
    {
        if self.separator.is_none() {
            1
        } else {
            2
        }
    }
}

/// The separator that a whole text stands for, if it is one of
/// `\   `, `\___`, `\______`, `\===`, `\---` and `\...`.
pub open spec fn separator_code(s: Seq<char>) -> Option<Separator> {
    if s == seq!['\\', ' ', ' ', ' '] {
        Some(Separator::Empty)
    } else if s == seq!['\\', '_', '_', '_'] {
        Some(Separator::Plain)
    } else if s == seq!['\\', '_', '_', '_', '_', '_', '_'] {
        Some(Separator::Thick)
    } else if s == seq!['\\', '=', '=', '='] {
        Some(Separator::Double)
    } else if s == seq!['\\', '-', '-', '-'] {
        Some(Separator::Dashed)
    } else if s == seq!['\\', '.', '.', '.'] {
        Some(Separator::Dotted)
    } else {
        None
    }
}

/// The item text of a parsed entry: everything before the first `|`.
pub open spec fn parsed_text(s: Seq<char>) -> Seq<char> {
    match s.index_of_first('|') {
        Some(p) => s.subrange(0, p),
        None => s,
    }
}

/// The right-hand text of a parsed entry: everything after the first `|`.
pub open spec fn parsed_right(s: Seq<char>) -> Seq<char> {
    match s.index_of_first('|') {
        Some(p) => s.subrange(p + 1, s.len() as int),
        None => Seq::empty(),
    }
}

/// Position of the `_` that marks the navigation character: the first `_`
/// of the text, where a character follows it.
pub open spec fn nav_marker(t: Seq<char>) -> Option<int> {
    match t.index_of_first('_') {
        Some(u) => if u + 1 < t.len() {
            Some(u)
        } else {
            None
        },
        None => None,
    }
}

/// What parsing the entry text `s` yields, where it is no separator.
pub open spec fn is_parsed_item(r: MenuItem, s: Seq<char>) -> bool {
    let t = parsed_text(s);
    &&& r.item@ == t
    &&& r.right@ == parsed_right(s)
    &&& !r.disabled
    &&& r.separator is None
    &&& match nav_marker(t) {
        Some(u) => {
            &&& r.navchar == Some(t[u + 1])
            &&& r.highlight == Some(core::ops::Range { start: (u + 1) as usize, end: (u + 2) as usize })
        },
        None => r.navchar is None && r.highlight is None,
    }
}

/// Position of the first `c` in `s`, by a scan from the front.
fn find_char(s: &str, c: char, n: usize) -> (r: Option<usize>)
    requires
        n == s@.len(),
    ensures
        match r {
            Some(i) => s@.index_of_first(c) == Some(i as int),
            None => s@.index_of_first(c) is None,
        },
{
    let mut i: usize = 0;
    while i < n
        invariant
            n == s@.len(),
            i <= n,
            forall|j: int| 0 <= j < i ==> s@[j] != c,
        decreases n - i,
    {
        if s.get_char(i) == c {
            proof {
                s@.index_of_first_ensures(c);
                assert(s@.contains(c));
            }
            return Some(i);
        }
        i = i + 1;
    }
    proof {
        s@.index_of_first_ensures(c);
        if s@.contains(c) {
            let k = choose|k: int| 0 <= k < s@.len() && s@[k] == c;
            assert(s@[k] != c);
        }
    }
    None
}

impl MenuItem {
    /// Parses an entry text: a separator code (see [separator_code]), or an
    /// item text where the first `_` marks the navigation character and the
    /// first `|` starts the right-hand text.
    pub fn new_parsed(s: &str) -> (r: MenuItem)
        ensures
            match separator_code(s@) {
                Some(sep) => {
                    &&& r.item@ == Seq::<char>::empty()
                    &&& r.highlight is None
                    &&& r.navchar is None
                    &&& r.right@ == Seq::<char>::empty()
                    &&& !r.disabled
                    &&& r.separator == Some(sep)
                },
                None => is_parsed_item(r, s@),
            },
    {
        if let Some(sep) = parse_separator(s) {
            return MenuItem::new_sep(sep);
        }
        let n = s.unicode_len();
        proof {
            s@.index_of_first_ensures('|');
        }
        let (text, right) = match find_char(s, '|', n) {
            Some(p) => (s.substring_char(0, p), s.substring_char(p + 1, n)),
            None => (s.substring_char(0, n), s.substring_char(n, n)),
        };
        proof {
            assert(s@.subrange(0, n as int) =~= s@);
            assert(s@.subrange(n as int, n as int) =~= Seq::<char>::empty());
        }
        assert(text@ == parsed_text(s@));
        assert(right@ == parsed_right(s@));
        let tn = text.unicode_len();
        proof {
            text@.index_of_first_ensures('_');
        }
        let (highlight, navchar) = match find_char(text, '_', tn) {
            Some(u) => {
                if u + 1 < tn {
                    (Some(core::ops::Range { start: u + 1, end: u + 2 }), Some(text.get_char(u + 1)))
                } else {
                    (None, None)
                }
            },
            None => (None, None),
        };
        MenuItem {
            item: text.to_owned(),
            highlight,
            navchar,
            right: right.to_owned(),
            disabled: false,
            separator: None,
        }
    }
}

/// Recognizes the separator codes.
fn parse_separator(s: &str) -> (r: Option<Separator>)
    ensures
        r == separator_code(s@),
{
    let n = s.unicode_len();
    if n != 4 && n != 7 {
        return None;
    }
    if s.get_char(0) != '\\' {
        return None;
    }
    let c1 = s.get_char(1);
    let c2 = s.get_char(2);
    let c3 = s.get_char(3);
    if n == 7 {
        if c1 == '_' && c2 == '_' && c3 == '_' && s.get_char(4) == '_' && s.get_char(5) == '_'
            && s.get_char(6) == '_' {
            assert(s@ =~= seq!['\\', '_', '_', '_', '_', '_', '_']);
            return Some(Separator::Thick);
        }
        return None;
    }
    if c1 != c2 || c2 != c3 {
        return None;
    }
    if c1 == ' ' {
        assert(s@ =~= seq!['\\', ' ', ' ', ' ']);
        Some(Separator::Empty)
    } else if c1 == '_' {
        assert(s@ =~= seq!['\\', '_', '_', '_']);
        Some(Separator::Plain)
    } else if c1 == '=' {
        assert(s@ =~= seq!['\\', '=', '=', '=']);
        Some(Separator::Double)
    } else if c1 == '-' {
        assert(s@ =~= seq!['\\', '-', '-', '-']);
        Some(Separator::Dashed)
    } else if c1 == '.' {
        assert(s@ =~= seq!['\\', '.', '.', '.']);
        Some(Separator::Dotted)
    } else {
        None
    }
}

/// The items after `separator(sep)`: the last item gets the separator, or,
/// where there is none, an empty item carries it.
pub open spec fn with_separator(old: Seq<MenuItem>, sep: Separator, new: Seq<MenuItem>) -> bool {
    if old.len() == 0 {
        &&& new.len() == 1
        &&& new[0].item@ == Seq::<char>::empty()
        &&& new[0].highlight is None
        &&& new[0].navchar is None
        &&& new[0].right@ == Seq::<char>::empty()
        &&& !new[0].disabled
        &&& new[0].separator == Some(sep)
    } else {
        &&& new.len() == old.len()
        &&& new.drop_last() == old.drop_last()
        &&& new.last() == (MenuItem { separator: Some(sep), ..old.last() })
    }
}

/// The items after adding one item at the end.
pub open spec fn pushed_one(old: Seq<MenuItem>, new: Seq<MenuItem>) -> bool {
    &&& new.len() == old.len() + 1
    &&& new.drop_last() == old
}

/// Collects the items of a menu.
#[derive(Debug, Clone)]
pub struct MenuBuilder {
    pub items: Vec<MenuItem>,
}

impl MenuBuilder {
    /// A builder without items.
    pub fn new() -> (r: MenuBuilder)
        ensures
            r.items@ == Seq::<MenuItem>::empty(),
    {
        MenuBuilder { items: Vec::new() }
    }

    /// Adds an item.
    pub fn item(&mut self, item: MenuItem)
        ensures
            final(self).items@ == old(self).items@.push(item),
    {
        self.items.push(item);
    }

    /// Parses the text (see [MenuItem::new_parsed]) and adds the item; a
    /// separator code sets the separator of the last item instead.
    pub fn item_parsed(&mut self, text: &str)
        ensures
            match separator_code(text@) {
                Some(sep) => with_separator(old(self).items@, sep, final(self).items@),
                None => {
                    &&& pushed_one(old(self).items@, final(self).items@)
                    &&& is_parsed_item(final(self).items@.last(), text@)
                },
            },
    {
        let item = MenuItem::new_parsed(text);
        if let Some(sep) = item.separator {
            self.separator(sep);
        } else {
            self.items.push(item);
            proof {
                assert(self.items@.drop_last() =~= old(self).items@);
            }
        }
    }

    /// Adds an item with the given text.
    pub fn item_str(&mut self, txt: &str)
        ensures
            pushed_one(old(self).items@, final(self).items@),
            final(self).items@.last().plain(txt@),
    {
        self.items.push(MenuItem::new_str(txt));
        proof {
            assert(self.items@.drop_last() =~= old(self).items@);
        }
    }

    /// Adds an item with the given owned text.
    pub fn item_string(&mut self, txt: String)
        ensures
            pushed_one(old(self).items@, final(self).items@),
            final(self).items@.last().plain(txt@),
    {
        self.items.push(MenuItem::new_string(txt));
        proof {
            assert(self.items@.drop_last() =~= old(self).items@);
        }
    }

    /// Sets the separator of the last item; where there is none, adds an
    /// empty item with this separator.
    pub fn separator(&mut self, separator: Separator)
        ensures
            with_separator(old(self).items@, separator, final(self).items@),
    {
        match self.items.pop() {
            Some(mut last) => {
                last.separator = Some(separator);
                self.items.push(last);
                proof {
                    assert(self.items@.drop_last() =~= old(self).items@.drop_last());
                }
            },
            None => {
                self.items.push(MenuItem::new_sep(separator));
            },
        }
    }
}

} // verus!
