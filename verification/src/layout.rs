//! Where the panes of the browsing screen go.

use vstd::prelude::*;

verus! {

/// Share of the screen's height, in percent, for the list and the content.
pub const MAIN_PERCENT: u16 = 80;

/// Share of the screen's height, in percent, for the key help.
pub const KEYBINDS_PERCENT: u16 = 20;

/// Share of the main area's width, in percent, for the list.
pub const LIST_PERCENT: u16 = 50;

/// Share of the main area's width, in percent, for the content.
pub const CONTENT_PERCENT: u16 = 50;

/// A rectangle of terminal cells.
#[derive(Clone, Copy, Debug, PartialEq, Eq, Structural)]
pub struct Area {
    pub x: u16,
    pub y: u16,
    pub width: u16,
    pub height: u16,
}

impl Area {
    /// The column just past the area's last.
    pub open spec fn right(self) -> int {
        self.x + self.width
    }

    /// The row just past the area's last.
    pub open spec fn bottom(self) -> int {
        self.y + self.height
    }

    /// Whether every cell of `self` is a cell of `outer`.
    pub open spec fn inside(self, outer: Area) -> bool {
        &&& outer.x <= self.x
        &&& outer.y <= self.y
        &&& self.right() <= outer.right()
        &&& self.bottom() <= outer.bottom()
    }

    /// Whether the far edges of the area are coordinates.
    pub open spec fn spec_bounded(&self) -> bool {
        self.right() <= u16::MAX && self.bottom() <= u16::MAX
    }

    /// Whether the area can be laid out: its far edges are coordinates,
    /// and the shares of its height and width can be computed in 16 bits.
    pub open spec fn spec_splittable(&self) -> bool {
        &&& self.spec_bounded()
        &&& MAIN_PERCENT * self.height <= u16::MAX
        &&& LIST_PERCENT * self.width <= u16::MAX
    }

    /// The box of `width` by `height` cells in the middle of the area, cut
    /// down to the area where it is larger. Where the cells left over do
    /// not halve, the odd one goes to the right and to the bottom.
    pub open spec fn centered(self, width: u16, height: u16) -> Area {
        let w = if width <= self.width {
            width
        } else {
            self.width
        };
        let h = if height <= self.height {
            height
        } else {
            self.height
        };
        Area {
            x: (self.x + (self.width - w) / 2) as u16,
            y: (self.y + (self.height - h) / 2) as u16,
            width: w,
            height: h,
        }
    }

    /// Whether the far edges of the area are coordinates.
    #[verifier::when_used_as_spec(spec_bounded)]
    pub fn bounded(&self) -> (ok: bool)
        ensures
            ok == self.spec_bounded(),
    {
        self.width <= u16::MAX - self.x && self.height <= u16::MAX - self.y
    }

    /// Whether [`layout`] accepts the area.
    #[verifier::when_used_as_spec(spec_splittable)]
    pub fn splittable(&self) -> (ok: bool)
        ensures
            ok == self.spec_splittable(),
    {
        self.bounded() && self.height <= u16::MAX / MAIN_PERCENT && self.width <= u16::MAX
            / LIST_PERCENT
    }

    /// The box of `width` by `height` cells in the middle of the area.
    pub fn center(&self, width: u16, height: u16) -> (middle: Area)
        requires
            self.bounded(),
        ensures
            middle == self.centered(width, height),
    {
        let w: u16 = if width <= self.width {
            width
        } else {
            self.width
        };
        let h: u16 = if height <= self.height {
            height
        } else {
            self.height
        };
        Area { x: self.x + (self.width - w) / 2, y: self.y + (self.height - h) / 2, width: w, height: h }
    }
}

/// A centered box lies inside its area, keeps the size asked for where
/// the area has room, and leaves as much room to its left as to its
/// right, and above as below, or one cell less.
pub proof fn law_centered_is_in_the_middle(area: Area, width: u16, height: u16)
    requires
        area.bounded(),
    ensures
        ({
            let middle = area.centered(width, height);
            let left = middle.x - area.x;
            let right = area.right() - middle.right();
            let above = middle.y - area.y;
            let below = area.bottom() - middle.bottom();
            &&& middle.inside(area)
            &&& middle.bounded()
            &&& width <= area.width ==> middle.width == width
            &&& height <= area.height ==> middle.height == height
            &&& width > area.width ==> middle.width == area.width
            &&& height > area.height ==> middle.height == area.height
            &&& left <= right <= left + 1
            &&& above <= below <= above + 1
        }),
{
}

/// Along which axis an area is cut.
#[derive(Clone, Copy, Debug, PartialEq, Eq, Structural)]
pub enum Direction {
    /// Parts side by side.
    Horizontal,
    /// Parts one above the other.
    Vertical,
}

/// Where the three panes of the browsing screen go.
#[derive(Clone, Copy, Debug, PartialEq, Eq, Structural)]
pub struct Panes {
    pub list: Area,
    pub content: Area,
    pub keybinds: Area,
}

/// What is sure of two parts cut from `area` along `direction`, whatever
/// sizes the parts get: both lie inside `area` and span it across the cut;
/// the first starts where `area` starts, the second starts where the
/// first ends and ends where `area` ends. So the two parts tile the area:
/// they share no cell and leave none out.
pub open spec fn cut_in_two(parts: Seq<Area>, direction: Direction, area: Area) -> bool {
    &&& parts.len() == 2
    &&& parts[0].inside(area)
    &&& parts[1].inside(area)
    &&& match direction {
        Direction::Vertical => {
            &&& parts[0].x == area.x && parts[0].width == area.width
            &&& parts[1].x == area.x && parts[1].width == area.width
            &&& parts[0].y == area.y
            &&& parts[1].y == parts[0].bottom()
            &&& parts[1].bottom() == area.bottom()
        },
        Direction::Horizontal => {
            &&& parts[0].y == area.y && parts[0].height == area.height
            &&& parts[1].y == area.y && parts[1].height == area.height
            &&& parts[0].x == area.x
            &&& parts[1].x == parts[0].right()
            &&& parts[1].right() == area.right()
        },
    }
}

/// `Layout::split` of tui, for two parts given in percent of the area's
/// extent along `direction`, without margin. The percentages are
/// preferences that a floating-point solver weighs, so the contract is
/// silent on the sizes along the cut. It states the shape of the result,
/// one part for each percentage, and what the solver is required to
/// keep: every part within the area, equal to it across the cut, the
/// first part at the area's start, each next part where the one before
/// it ends. The far edge of the last part is set to the area's after the
/// solver has run. The `requires` asks for
/// percentages that share out the whole, and leaves out the areas on
/// which the call overflows in its 16-bit arithmetic or has no solution.
#[verifier::external_body]
fn split_in_two(direction: Direction, first: u16, second: u16, area: Area) -> (parts: Vec<Area>)
    requires
        first + second == 100,
        area.x + area.width <= u16::MAX,
        area.y + area.height <= u16::MAX,
        direction is Vertical ==> first * area.height <= u16::MAX && second * area.height
            <= u16::MAX,
        direction is Horizontal ==> first * area.width <= u16::MAX && second * area.width
            <= u16::MAX,
    ensures
        cut_in_two(parts@, direction, area),
{
    let direction = match direction {
        Direction::Horizontal => tui::layout::Direction::Horizontal,
        Direction::Vertical => tui::layout::Direction::Vertical,
    };
    let constraints =
        vec![tui::layout::Constraint::Percentage(first), tui::layout::Constraint::Percentage(second)];
    let area = tui::layout::Rect { x: area.x, y: area.y, width: area.width, height: area.height };
    let parts = tui::layout::Layout::default().direction(direction).constraints(constraints).split(area);
    parts.into_iter().map(|r| Area { x: r.x, y: r.y, width: r.width, height: r.height }).collect()
}

/// Whether `panes` are arranged over `screen` as the viewer shows them.
/// The list starts in the top left corner. The content stands beside it,
/// from the list's right edge to the screen's, at the same height. The
/// key help lies beneath both, from the list's bottom edge to the
/// screen's, over the full width. The three panes tile the screen: widths
/// and heights add up to the screen's, no cell is shared and none is left
/// out.
pub open spec fn arranged(panes: Panes, screen: Area) -> bool {
    &&& panes.list.inside(screen)
    &&& panes.content.inside(screen)
    &&& panes.keybinds.inside(screen)
    &&& panes.list.x == screen.x
    &&& panes.list.y == screen.y
    &&& panes.content.x == panes.list.right()
    &&& panes.content.y == screen.y
    &&& panes.content.height == panes.list.height
    &&& panes.content.right() == screen.right()
    &&& panes.list.width + panes.content.width == screen.width
    &&& panes.keybinds.x == screen.x
    &&& panes.keybinds.y == panes.list.bottom()
    &&& panes.keybinds.width == screen.width
    &&& panes.keybinds.bottom() == screen.bottom()
    &&& panes.list.height + panes.keybinds.height == screen.height
}

/// Cuts the screen into a main area over the key help, and the main area
/// into the list and the content, side by side.
///
/// The cuts are asked for at [`MAIN_PERCENT`] and [`KEYBINDS_PERCENT`] of
/// the height and at [`LIST_PERCENT`] and [`CONTENT_PERCENT`] of the
/// width. The shares are not promised: the layout engine takes a
/// percentage as a preference, not as a constraint, so the contract fixes
/// how the panes lie to one another and to the screen, and leaves open
/// where exactly the two cuts fall.
pub fn layout(screen: Area) -> (panes: Panes)
    requires
        screen.splittable(),
    ensures
        arranged(panes, screen),
{
    let rows = split_in_two(Direction::Vertical, MAIN_PERCENT, KEYBINDS_PERCENT, screen);
    let main = rows[0];
    let columns = split_in_two(Direction::Horizontal, LIST_PERCENT, CONTENT_PERCENT, main);
    Panes { list: columns[0], content: columns[1], keybinds: rows[1] }
}

} // verus!
