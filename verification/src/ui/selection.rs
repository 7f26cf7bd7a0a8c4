//! Selection index over an ordered collection.

use vstd::prelude::*;

verus! {

/// The two ways a selection or an entry can travel through a collection.
#[derive(Debug, Clone, Copy, PartialEq, Eq, Structural)]
pub enum Direction {
    /// Towards index 0.
    Up,
    /// Towards the last index.
    Down,
}

/// The highlighted position in an ordered collection, together with the
/// collection's current length.
#[derive(Debug, Clone, Copy, PartialEq, Eq, Structural)]
pub struct SelectionState {
    /// Zero-based index of the highlighted entry, if any.
    pub selected: Option<usize>,
    /// Number of entries in the collection.
    pub len: usize,
}

/// What becomes of a requested index in a collection of `len` entries:
/// nothing in an empty collection, the last entry when the request lies
/// beyond it, the request itself otherwise.
pub open spec fn clamp_index(index: Option<usize>, len: usize) -> Option<usize> {
    match index {
        None => None,
        Some(i) => if len == 0 {
            None
        } else if i >= len {
            Some((len - 1) as usize)
        } else {
            Some(i)
        },
    }
}

impl SelectionState {
    /// An index, when present, addresses an existing entry; hence an empty
    /// collection has no selection.
    pub open spec fn wf(self) -> bool {
        self.selected matches Some(i) ==> i < self.len
    }

    /// The state with `index` requested as the selection.
    pub open spec fn with_selected(self, index: Option<usize>) -> SelectionState {
        SelectionState { selected: clamp_index(index, self.len), len: self.len }
    }

    /// The state after the collection changed its length to `len`.
    pub open spec fn resized(self, len: usize) -> SelectionState {
        SelectionState { selected: clamp_index(self.selected, len), len }
    }

    /// One step down, wrapping from the last entry to the first. With
    /// nothing selected the first entry is taken.
    pub open spec fn next(self) -> SelectionState {
        if self.len == 0 {
            self
        } else {
            match self.selected {
                None => SelectionState { selected: Some(0), len: self.len },
                Some(i) => SelectionState {
                    selected: Some(((i + 1) % (self.len as int)) as usize),
                    len: self.len,
                },
            }
        }
    }

    /// One step up, wrapping from the first entry to the last. With nothing
    /// selected the last entry is taken.
    pub open spec fn previous(self) -> SelectionState {
        if self.len == 0 {
            self
        } else {
            match self.selected {
                Some(i) if i > 0 => SelectionState {
                    selected: Some((i - 1) as usize),
                    len: self.len,
                },
                _ => SelectionState { selected: Some((self.len - 1) as usize), len: self.len },
            }
        }
    }

    /// The first entry selected, if there is one.
    pub open spec fn first(self) -> SelectionState {
        self.with_selected(Some(0))
    }

    /// The last entry selected, if there is one.
    pub open spec fn last(self) -> SelectionState {
        self.with_selected(Some(usize::MAX))
    }

    /// The selection moved by `amount` positions, stopping at the edge of
    /// the collection. A move by nothing changes nothing; a move that starts
    /// with nothing selected starts from the first entry.
    pub open spec fn scrolled(self, amount: nat, direction: Direction) -> SelectionState {
        if amount == 0 || self.len == 0 {
            self
        } else {
            let from: int = match self.selected {
                Some(i) => i as int,
                None => 0,
            };
            let to: int = match direction {
                Direction::Down => if from + amount >= self.len {
                    self.len - 1
                } else {
                    from + amount
                },
                Direction::Up => if from - amount <= 0 {
                    0
                } else {
                    from - amount
                },
            };
            SelectionState { selected: Some(to as usize), len: self.len }
        }
    }

    /// How many entries lie between the selected one and the edge of the
    /// collection in `direction`; none where nothing is selected.
    pub open spec fn room(self, direction: Direction) -> nat {
        match self.selected {
            Some(i) if i < self.len => match direction {
                Direction::Up => i as nat,
                Direction::Down => (self.len - 1 - i) as nat,
            },
            _ => 0,
        }
    }

    /// How far a move of the selected entry by `amount` places in
    /// `direction` really goes: as far as asked, or as far as there is room.
    pub open spec fn travel(self, amount: nat, direction: Direction) -> nat {
        if amount <= self.room(direction) {
            amount
        } else {
            self.room(direction)
        }
    }

    /// The selection after the selected entry travelled `amount` places in
    /// `direction`: it goes along, and where nothing is selected nothing
    /// becomes selected.
    pub open spec fn followed(self, amount: nat, direction: Direction) -> SelectionState {
        if self.selected is Some {
            self.scrolled(amount, direction)
        } else {
            self
        }
    }

    /// Selection state of a collection of `len` entries with nothing selected.
    pub fn new(len: usize) -> (s: Self)
        ensures
            s == (SelectionState { selected: None, len }),
            s.wf(),
    {
        SelectionState { selected: None, len }
    }

    /// Whether the selection addresses an existing entry or none.
    pub fn is_valid(&self) -> (valid: bool)
        ensures
            valid == self.wf(),
    {
        match self.selected {
            Some(i) => i < self.len,
            None => true,
        }
    }

    /// The selected index.
    pub fn selected(&self) -> (index: Option<usize>)
        ensures
            index == self.selected,
    {
        self.selected
    }

    /// Requests `index` as the selection; a request beyond the last entry
    /// selects the last entry.
    pub fn select(&mut self, index: Option<usize>)
        ensures
            *final(self) == old(self).with_selected(index),
            final(self).wf(),
    {
        self.selected = match index {
            None => None,
            Some(i) => if self.len == 0 {
                None
            } else if i >= self.len {
                Some(self.len - 1)
            } else {
                Some(i)
            },
        };
    }

    /// Clears the selection; the collection is untouched.
    pub fn deselect(&mut self)
        ensures
            *final(self) == old(self).with_selected(None),
            final(self).selected is None,
            final(self).len == old(self).len,
    {
        self.selected = None;
    }

    /// Adapts the selection to a collection that now has `len` entries.
    pub fn resize(&mut self, len: usize)
        ensures
            *final(self) == old(self).resized(len),
            final(self).wf(),
    {
        self.len = len;
        let index = self.selected;
        self.select(index);
    }

    /// Moves the selection one entry down, wrapping around at the end.
    pub fn select_next(&mut self)
        requires
            old(self).wf(),
        ensures
            *final(self) == old(self).next(),
            final(self).wf(),
    {
        if self.len > 0 {
            self.selected = match self.selected {
                None => Some(0),
                Some(i) => {
                    proof {
                        let n = self.len as int;
                        assert(i + 1 < n ==> (i + 1) % n == i + 1) by (nonlinear_arith)
                            requires
                                0 <= i,
                                n > 0,
                        ;
                        assert(i + 1 == n ==> (i + 1) % n == 0) by (nonlinear_arith)
                            requires
                                n > 0,
                        ;
                    }
                    if i + 1 == self.len {
                        Some(0)
                    } else {
                        Some(i + 1)
                    }
                },
            };
        }
    }

    /// Moves the selection one entry up, wrapping around at the start.
    pub fn select_previous(&mut self)
        requires
            old(self).wf(),
        ensures
            *final(self) == old(self).previous(),
            final(self).wf(),
    {
        if self.len > 0 {
            self.selected = match self.selected {
                Some(i) if i > 0 => Some(i - 1),
                _ => Some(self.len - 1),
            };
        }
    }

    /// Selects the first entry.
    pub fn select_first(&mut self)
        ensures
            *final(self) == old(self).first(),
            final(self).wf(),
    {
        self.select(Some(0));
    }

    /// Selects the last entry.
    pub fn select_last(&mut self)
        ensures
            *final(self) == old(self).last(),
            final(self).wf(),
    {
        self.select(Some(usize::MAX));
    }

    /// Moves the selection by `amount` entries in `direction`, stopping at
    /// the edge of the collection.
    pub fn scroll_by(&mut self, amount: usize, direction: Direction)
        requires
            old(self).wf(),
        ensures
            *final(self) == old(self).scrolled(amount as nat, direction),
            final(self).wf(),
    {
        if amount > 0 && self.len > 0 {
            let from: usize = match self.selected {
                Some(i) => i,
                None => 0,
            };
            let to: usize = match direction {
                Direction::Down => if amount >= self.len - from {
                    self.len - 1
                } else {
                    from + amount
                },
                Direction::Up => if amount >= from {
                    0
                } else {
                    from - amount
                },
            };
            self.selected = Some(to);
        }
    }

    /// How far a move of the selected entry by `amount` places in
    /// `direction` can go.
    pub fn travel_by(&self, amount: usize, direction: Direction) -> (travel: usize)
        ensures
            travel == self.travel(amount as nat, direction),
            travel <= amount,
    {
        let room: usize = match self.selected {
            Some(i) => if i < self.len {
                match direction {
                    Direction::Up => i,
                    Direction::Down => self.len - 1 - i,
                }
            } else {
                0
            },
            None => 0,
        };
        if amount <= room {
            amount
        } else {
            room
        }
    }

    /// Lets the selection go along with the selected entry, which
    /// travelled `amount` places in `direction`.
    pub fn follow(&mut self, amount: usize, direction: Direction)
        requires
            old(self).wf(),
        ensures
            *final(self) == old(self).followed(amount as nat, direction),
            final(self).wf(),
    {
        if self.selected.is_some() {
            self.scroll_by(amount, direction);
        }
    }

    /// Moves the selection `amount` entries down, stopping at the last one.
    pub fn scroll_down_by(&mut self, amount: usize)
        requires
            old(self).wf(),
        ensures
            *final(self) == old(self).scrolled(amount as nat, Direction::Down),
            final(self).wf(),
    {
        self.scroll_by(amount, Direction::Down);
    }

    /// Moves the selection `amount` entries up, stopping at the first one.
    pub fn scroll_up_by(&mut self, amount: usize)
        requires
            old(self).wf(),
        ensures
            *final(self) == old(self).scrolled(amount as nat, Direction::Up),
            final(self).wf(),
    {
        self.scroll_by(amount, Direction::Up);
    }
}

/// A move by no positions leaves the selection as it is, whichever way it
/// goes and whatever is selected.
pub proof fn lemma_scroll_by_nothing(selection: SelectionState, direction: Direction)
    ensures
        selection.scrolled(0, direction) == selection,
{
}

/// Where the selected entry of a collection is taken out, the selection is
/// gone if that was the only entry, and otherwise stays on its index or, if
/// the index is no longer there, goes to the last entry. With `n` entries
/// before and the selection on `i`, that is `min(i, n - 2)`.
pub proof fn lemma_selection_after_delete(selection: SelectionState)
    requires
        selection.wf(),
        selection.selected is Some,
    ensures
        selection.len > 0,
        selection.resized((selection.len - 1) as usize).wf(),
        selection.resized((selection.len - 1) as usize).selected == (if selection.len == 1 {
            None
        } else if selection.selected->0 <= selection.len - 2 {
            Some(selection.selected->0)
        } else {
            Some((selection.len - 2) as usize)
        }),
{
}

/// Where the selected entry is moved `amount` places up, the move goes
/// `min(amount, i)` places from index `i`, and the selection ends on
/// `i - min(amount, i)`, which is never before the first entry.
pub proof fn lemma_selection_after_move_up(selection: SelectionState, amount: nat)
    requires
        selection.wf(),
        selection.selected is Some,
    ensures
        selection.travel(amount, Direction::Up) == (if amount <= selection.selected->0 {
            amount
        } else {
            selection.selected->0 as nat
        }),
        selection.followed(selection.travel(amount, Direction::Up), Direction::Up).selected
            == Some((selection.selected->0 - selection.travel(amount, Direction::Up)) as usize),
        selection.followed(selection.travel(amount, Direction::Up), Direction::Up).wf(),
{
}

/// Where the selected entry is moved `amount` places down, the move goes
/// `min(amount, len - 1 - i)` places from index `i`, and the selection ends
/// that many places further down, which is never after the last entry.
pub proof fn lemma_selection_after_move_down(selection: SelectionState, amount: nat)
    requires
        selection.wf(),
        selection.selected is Some,
    ensures
        selection.travel(amount, Direction::Down) == (if amount <= selection.len - 1
            - selection.selected->0 {
            amount
        } else {
            (selection.len - 1 - selection.selected->0) as nat
        }),
        selection.followed(selection.travel(amount, Direction::Down), Direction::Down).selected
            == Some((selection.selected->0 + selection.travel(amount, Direction::Down)) as usize),
        selection.followed(selection.travel(amount, Direction::Down), Direction::Down).wf(),
{
}

/// Every way of moving the selection keeps it within the collection.
pub proof fn lemma_selection_stays_within(
    selection: SelectionState,
    amount: nat,
    direction: Direction,
    index: Option<usize>,
    len: usize,
)
    requires
        selection.wf(),
    ensures
        selection.next().wf(),
        selection.previous().wf(),
        selection.first().wf(),
        selection.last().wf(),
        selection.scrolled(amount, direction).wf(),
        selection.followed(amount, direction).wf(),
        selection.with_selected(index).wf(),
        selection.resized(len).wf(),
{
    if selection.len > 0 {
        if let Some(i) = selection.selected {
            let n = selection.len as int;
            assert(0 <= (i + 1) % n < n) by (nonlinear_arith)
                requires
                    n > 0,
            ;
        }
    }
}

} // verus!
