//! Where things go on the terminal.

use vstd::prelude::*;

verus! {

/// A rectangle of terminal cells.
#[derive(Debug, Clone, Copy, PartialEq, Eq, Structural)]
pub struct Area {
    pub x: u16,
    pub y: u16,
    pub width: u16,
    pub height: u16,
}

/// How tall the header is made.
#[derive(Debug, Clone, Copy, PartialEq, Eq, Structural)]
pub enum HeaderHeight {
    /// So many rows.
    Rows(u16),
    /// So many hundredths of the terminal's height.
    Percent(u16),
}

/// The arrangement of the main screen.
pub struct AppLayout;

/// The coordinate `offset` cells after `start`, or the last coordinate
/// there is where that lies beyond.
pub open spec fn shifted(start: u16, offset: int) -> u16 {
    if start + offset > u16::MAX {
        u16::MAX
    } else if start + offset < 0 {
        0
    } else {
        (start + offset) as u16
    }
}

/// The share `numerator / denominator` of a length, rounded down.
pub open spec fn share(length: u16, numerator: int, denominator: int) -> u16 {
    ((length * numerator) / denominator) as u16
}

impl Area {
    /// The rectangle of the given size in the middle of this one. A
    /// rectangle larger than this one starts where this one starts.
    pub open spec fn centered(self, width: u16, height: u16) -> Area {
        Area {
            x: shifted(self.x, (if self.width > width {
                self.width - width
            } else {
                0
            }) / 2),
            y: shifted(self.y, (if self.height > height {
                self.height - height
            } else {
                0
            }) / 2),
            width,
            height,
        }
    }

    /// The rectangle of the given size three cells off the lower right
    /// corner of this one.
    pub open spec fn cornered(self, width: u16, height: u16) -> Area {
        Area {
            x: shifted(shifted(self.x, if self.width > width {
                self.width - width
            } else {
                0
            }), -3),
            y: shifted(shifted(self.y, if self.height > height {
                self.height - height
            } else {
                0
            }), -3),
            width,
            height,
        }
    }

    /// A rectangle.
    pub fn new(x: u16, y: u16, width: u16, height: u16) -> (area: Area)
        ensures
            area == (Area { x, y, width, height }),
    {
        Area { x, y, width, height }
    }

    /// The rectangle of the given size in the middle of this one.
    pub fn center(&self, width: u16, height: u16) -> (area: Area)
        ensures
            area == self.centered(width, height),
    {
        Area {
            x: self.x.saturating_add(self.width.saturating_sub(width) / 2),
            y: self.y.saturating_add(self.height.saturating_sub(height) / 2),
            width,
            height,
        }
    }

    /// The rectangle of the given size three cells off the lower right
    /// corner of this one.
    pub fn corner(&self, width: u16, height: u16) -> (area: Area)
        ensures
            area == self.cornered(width, height),
    {
        Area {
            x: self.x.saturating_add(self.width.saturating_sub(width)).saturating_sub(3),
            y: self.y.saturating_add(self.height.saturating_sub(height)).saturating_sub(3),
            width,
            height,
        }
    }

    /// Three quarters of the width, rounded down.
    pub fn three_quarters(&self) -> (width: u16)
        ensures
            width == share(self.width, 3, 4),
            width <= self.width,
    {
        let wide: u32 = self.width as u32 * 3 / 4;
        wide as u16
    }

    /// Two thirds of the width, rounded down.
    pub fn two_thirds(&self) -> (width: u16)
        ensures
            width == share(self.width, 2, 3),
            width <= self.width,
    {
        let wide: u32 = self.width as u32 * 2 / 3;
        wide as u16
    }
}

impl AppLayout {
    /// How tall the header is for a terminal of `height` rows: three rows
    /// on a very small terminal, eight on a small one, a fifth of the
    /// height otherwise.
    pub open spec fn header(height: u16) -> HeaderHeight {
        if height < 15 {
            HeaderHeight::Rows(3)
        } else if height < 25 {
            HeaderHeight::Rows(8)
        } else {
            HeaderHeight::Percent(20)
        }
    }

    /// How tall the header is for a terminal of `height` rows.
    pub fn header_height(height: u16) -> (header: HeaderHeight)
        ensures
            header == AppLayout::header(height),
    {
        if height < 15 {
            HeaderHeight::Rows(3)
        } else if height < 25 {
            HeaderHeight::Rows(8)
        } else {
            HeaderHeight::Percent(20)
        }
    }
}

} // verus!
