//! How the items of a list are set in lines: each item with a number
//! before it, and long names broken over several lines.

use crate::app::keys::char_label;
use crate::db::models::{UIList, UIListView};
use crate::ui::components::items::ItemsComponent;
use vstd::prelude::*;
use vstd::string::*;

verus! {

/// One line of an item on the screen.
#[derive(Debug)]
pub struct ItemLine {
    /// The part of the item's number on this line, set flush right.
    pub number: Option<String>,
    /// The part of the item's name on this line.
    pub name: Option<String>,
    /// Whether the name continues from the line above.
    pub continued: bool,
}

/// An [`ItemLine`] as a mathematical value.
pub struct ItemLineView {
    pub number: Option<Seq<char>>,
    pub name: Option<Seq<char>>,
    pub continued: bool,
}

impl View for ItemLine {
    type V = ItemLineView;

    open spec fn view(&self) -> ItemLineView {
        ItemLineView {
            number: match self.number {
                Some(number) => Some(number@),
                None => None,
            },
            name: match self.name {
                Some(name) => Some(name@),
                None => None,
            },
            continued: self.continued,
        }
    }
}

/// Columns that the frame and the gaps of the item pane take beside the
/// numbers and the names.
pub const MARGIN: usize = 5;

/// The lines into which a text is broken for a column `width` cells wide.
pub uninterp spec fn wrapped(text: Seq<char>, width: usize) -> Seq<Seq<char>>;

/// `textwrap::wrap` with a plain width: the lines into which that crate
/// breaks the text for a column `width` cells wide. They depend on the text
/// and the width alone; nothing more is claimed of them.
#[verifier::external_body]
fn wrap_text(text: &str, width: usize) -> (lines: Vec<String>)
    ensures
        texts(lines@) == wrapped(text@, width),
{
    textwrap::wrap(text, width).into_iter().map(|line| line.into_owned()).collect()
}

/// What a sequence of texts reads.
pub open spec fn texts(lines: Seq<String>) -> Seq<Seq<char>> {
    lines.map_values(|line: String| line@)
}

/// What a sequence of lines reads.
pub open spec fn lines_view(lines: Seq<ItemLine>) -> Seq<ItemLineView> {
    lines.map_values(|line: ItemLine| line@)
}

/// The character for a digit.
pub open spec fn digit_char(digit: nat) -> char {
    if digit == 0 {
        '0'
    } else if digit == 1 {
        '1'
    } else if digit == 2 {
        '2'
    } else if digit == 3 {
        '3'
    } else if digit == 4 {
        '4'
    } else if digit == 5 {
        '5'
    } else if digit == 6 {
        '6'
    } else if digit == 7 {
        '7'
    } else if digit == 8 {
        '8'
    } else {
        '9'
    }
}

/// A number written in decimal digits.
pub open spec fn decimal(n: nat) -> Seq<char>
    decreases n,
{
    if n < 10 {
        seq![digit_char(n)]
    } else {
        decimal(n / 10).push(digit_char(n % 10))
    }
}

/// The number shown before the item at `index`: its distance from the
/// selected item, and its own place, counted from one, where it is the
/// selected item or none is selected.
pub open spec fn line_number(index: nat, selected: Option<usize>) -> nat {
    match selected {
        Some(at) if at != index => if at > index {
            (at - index) as nat
        } else {
            (index - at) as nat
        },
        _ => index + 1,
    }
}

/// The text shown before the item at `index`: its number and two blanks.
pub open spec fn line_label(index: nat, selected: Option<usize>) -> Seq<char> {
    decimal(line_number(index, selected)) + seq![' ', ' ']
}

/// A text moved right by blanks until it is `width` characters long; as it
/// is where it is that long already.
pub open spec fn flush_right(text: Seq<char>, width: nat) -> Seq<char> {
    Seq::new((if width > text.len() {
        width - text.len()
    } else {
        0
    }) as nat, |i: int| ' ') + text
}

/// The columns left for a number or a name in a pane `width` columns wide
/// whose numbers have up to `digits` digits.
pub open spec fn text_width(width: usize, digits: nat) -> usize {
    if width > digits + MARGIN {
        (width - digits - MARGIN) as usize
    } else {
        0
    }
}

/// The line at `i` of an item whose number was broken into `numbers` and
/// whose name into `names`.
pub open spec fn arranged_line(
    numbers: Seq<Seq<char>>,
    names: Seq<Seq<char>>,
    digits: nat,
    i: int,
) -> ItemLineView {
    ItemLineView {
        number: if i < numbers.len() {
            Some(flush_right(numbers[i], digits))
        } else {
            None
        },
        name: if i < names.len() {
            Some(names[i])
        } else {
            None
        },
        continued: 0 < i < names.len(),
    }
}

/// The lines of an item whose number was broken into `numbers` and whose
/// name into `names`: as many as the longer of the two has, each with its
/// part of the number and its part of the name.
pub open spec fn arranged(numbers: Seq<Seq<char>>, names: Seq<Seq<char>>, digits: nat) -> Seq<
    ItemLineView,
> {
    Seq::new(
        if numbers.len() >= names.len() {
            numbers.len()
        } else {
            names.len()
        },
        |i: int| arranged_line(numbers, names, digits, i),
    )
}

impl UIListView {
    /// The lines of the item at `index` in a pane `width` columns wide.
    pub open spec fn lines_of(self, index: int, width: usize) -> Seq<ItemLineView> {
        let digits = decimal(self.items.len()).len();
        let columns = text_width(width, digits);
        arranged(
            wrapped(line_label(index as nat, self.selection.selected), columns),
            wrapped(self.items[index].name, columns),
            digits,
        )
    }
}

/// A number written in decimal digits.
pub fn decimal_text(n: usize) -> (text: String)
    ensures
        text@ == decimal(n as nat),
    decreases n,
{
    let digit = match n % 10 {
        0 => '0',
        1 => '1',
        2 => '2',
        3 => '3',
        4 => '4',
        5 => '5',
        6 => '6',
        7 => '7',
        8 => '8',
        _ => '9',
    };
    if n < 10 {
        char_label(digit)
    } else {
        let mut text = decimal_text(n / 10);
        text.push(digit);
        text
    }
}

/// The text moved right by blanks until it is `width` characters long.
pub fn set_flush_right(text: &str, width: usize) -> (set: String)
    ensures
        set@ == flush_right(text@, width as nat),
{
    let len = text.unicode_len();
    let mut set = String::new();
    let mut filled: usize = len;
    while filled < width
        invariant
            len == text@.len(),
            len <= filled,
            filled <= width || filled == len,
            set@ == Seq::new((filled - len) as nat, |i: int| ' '),
        decreases width - filled,
    {
        set.push(' ');
        filled += 1;
        assert(set@ =~= Seq::new((filled - len) as nat, |i: int| ' '));
    }
    set.append(text);
    set
}

impl ItemsComponent {
    /// The number shown before the item at `index`.
    pub fn line_number(index: usize, selected: Option<usize>) -> (number: usize)
        requires
            index < usize::MAX,
        ensures
            number == line_number(index as nat, selected),
    {
        match selected {
            Some(at) => if at > index {
                at - index
            } else if at < index {
                index - at
            } else {
                index + 1
            },
            None => index + 1,
        }
    }

    /// Puts the parts of an item's number and the parts of its name
    /// together, line by line.
    pub fn arrange(numbers: &Vec<String>, names: &Vec<String>, digits: usize) -> (lines: Vec<
        ItemLine,
    >)
        ensures
            lines_view(lines@) == arranged(texts(numbers@), texts(names@), digits as nat),
    {
        let count = if numbers.len() >= names.len() {
            numbers.len()
        } else {
            names.len()
        };
        let mut lines: Vec<ItemLine> = Vec::new();
        let mut i: usize = 0;
        while i < count
            invariant
                i <= count,
                count == if numbers.len() >= names.len() {
                    numbers.len()
                } else {
                    names.len()
                },
                lines.len() == i,
                forall|j: int|
                    0 <= j < i ==> (#[trigger] lines[j])@ == arranged_line(
                        texts(numbers@),
                        texts(names@),
                        digits as nat,
                        j,
                    ),
            decreases count - i,
        {
            let number = if i < numbers.len() {
                Some(set_flush_right(numbers[i].as_str(), digits))
            } else {
                None
            };
            let name = if i < names.len() {
                Some(names[i].clone())
            } else {
                None
            };
            lines.push(ItemLine { number, name, continued: 0 < i && i < names.len() });
            i += 1;
        }
        assert(lines_view(lines@) =~= arranged(texts(numbers@), texts(names@), digits as nat));
        lines
    }

    /// The lines of every item of a list, for a pane `width` columns wide:
    /// the number of each item and its name, each broken to the columns
    /// that are left for it.
    pub fn item_lines(ui_list: &UIList, width: usize) -> (lines: Vec<Vec<ItemLine>>)
        ensures
            lines.len() == ui_list.items.len(),
            forall|i: int|
                0 <= i < lines.len() ==> lines_view((#[trigger] lines[i])@) == ui_list@.lines_of(
                    i,
                    width,
                ),
    {
        let digits = decimal_text(ui_list.items.len()).as_str().unicode_len();
        let columns = width.saturating_sub(digits.saturating_add(MARGIN));
        let selected = ui_list.item_state.selected();
        let mut lines: Vec<Vec<ItemLine>> = Vec::new();
        let mut i: usize = 0;
        while i < ui_list.items.len()
            invariant
                i <= ui_list.items.len(),
                lines.len() == i,
                digits == decimal(ui_list@.items.len()).len(),
                columns == text_width(width, digits as nat),
                selected == ui_list@.selection.selected,
                forall|j: int|
                    0 <= j < i ==> lines_view((#[trigger] lines[j])@) == ui_list@.lines_of(j, width),
            decreases ui_list.items.len() - i,
        {
            let mut label = decimal_text(ItemsComponent::line_number(i, selected));
            label.append("  ");
            proof {
                reveal_strlit("  ");
                assert(label@ =~= line_label(i as nat, selected));
                assert(ui_list@.items[i as int] == ui_list.items[i as int]@);
            }
            let numbers = wrap_text(label.as_str(), columns);
            let names = wrap_text(ui_list.items[i].item.name.as_str(), columns);
            lines.push(ItemsComponent::arrange(&numbers, &names, digits));
            i += 1;
        }
        lines
    }
}

} // verus!
