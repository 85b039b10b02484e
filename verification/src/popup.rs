//! The "your turn" popup: when it shows, where it goes, and what its hand
//! line says.

use crate::client::{Screen, SeatLine};
use vstd::prelude::*;

verus! {

/// A rectangle of the terminal, in cells.
#[derive(Clone, Copy, Debug, PartialEq, Eq, Structural)]
pub struct Rect {
    pub x: u16,
    pub y: u16,
    pub width: u16,
    pub height: u16,
}

impl Rect {
    /// A rectangle at `(x, y)`, its size clamped so that it ends within the
    /// `u16` range.
    pub fn new(x: u16, y: u16, width: u16, height: u16) -> (r: Rect)
        ensures
            r == (Rect {
                x,
                y,
                width: if width > u16::MAX - x { (u16::MAX - x) as u16 } else { width },
                height: if height > u16::MAX - y { (u16::MAX - y) as u16 } else { height },
            }),
    {
        let max_width = u16::MAX - x;
        let max_height = u16::MAX - y;
        let width = if width > max_width { max_width } else { width };
        let height = if height > max_height { max_height } else { height };
        Rect { x, y, width, height }
    }
}

/// `a - b`, or 0 where `b` is larger.
pub open spec fn less(a: u16, b: u16) -> int {
    if a >= b { a - b } else { 0 }
}

/// Where a popup of the given size goes: centred in `area`, no larger than
/// it.
pub open spec fn popup_area(width: u16, height: u16, area: Rect) -> Rect {
    let x = (area.x + less(area.width, width) / 2) as u16;
    let y = (area.y + less(area.height, height) / 2) as u16;
    let w = if width <= area.width { width } else { area.width };
    let h = if height <= area.height { height } else { area.height };
    Rect {
        x,
        y,
        width: if w > u16::MAX - x { (u16::MAX - x) as u16 } else { w },
        height: if h > u16::MAX - y { (u16::MAX - y) as u16 } else { h },
    }
}

pub fn centered_popup(width: u16, height: u16, area: Rect) -> (r: Rect)
    requires
        area.x + less(area.width, width) / 2 <= u16::MAX,
        area.y + less(area.height, height) / 2 <= u16::MAX,
    ensures
        r == popup_area(width, height, area),
{
    let x = area.x + area.width.saturating_sub(width) / 2;
    let y = area.y + area.height.saturating_sub(height) / 2;
    Rect::new(x, y, if width <= area.width { width } else { area.width }, if height <= area.height { height } else { area.height })
}

/// Whether the popup shows: at a table, on the player's turn.
pub open spec fn popup_shows(s: Screen) -> bool {
    s matches Screen::Table(t) && t.is_my_turn
}

pub fn shows_player_turn_popup(screen: &Screen) -> (b: bool)
    ensures
        b == popup_shows(*screen),
{
    match screen {
        Screen::Table(t) => t.is_my_turn,
        _ => false,
    }
}

/// What follows the cards on the hand line.
#[derive(Clone, Copy, Debug, PartialEq, Eq, Structural)]
pub enum ValueLabel {
    Bust,
    Total(u32),
    Blank,
}

/// The hand line: the hand of the first active seat, or none.
#[derive(Clone, Copy, Debug, PartialEq, Eq, Structural)]
pub enum HandLine {
    NoHand,
    Hand { seat: usize, value: ValueLabel },
}

/// `i` is the first active seat.
pub open spec fn is_first_active(players: Seq<SeatLine>, i: int) -> bool {
    &&& 0 <= i < players.len()
    &&& players[i].active
    &&& forall|j: int| 0 <= j < i ==> !(#[trigger] players[j]).active
}

pub open spec fn value_label(p: SeatLine) -> ValueLabel {
    if p.is_bust {
        ValueLabel::Bust
    } else if p.hand_value > 0 {
        ValueLabel::Total(p.hand_value)
    } else {
        ValueLabel::Blank
    }
}

/// The hand line for the seats: the first active seat's hand and its
/// label (bust, the value where it is positive, nothing otherwise), or no
/// hand where no seat is active.
pub open spec fn hand_line(players: Seq<SeatLine>) -> HandLine {
    if exists|i: int| #[trigger] is_first_active(players, i) {
        let i = choose|i: int| #[trigger] is_first_active(players, i);
        HandLine::Hand { seat: i as usize, value: value_label(players[i]) }
    } else {
        HandLine::NoHand
    }
}

pub fn build_hand_line(players: &Vec<SeatLine>) -> (h: HandLine)
    ensures
        h == hand_line(players@),
{
    let mut i: usize = 0;
    while i < players.len()
        invariant
            i <= players.len(),
            forall|j: int| 0 <= j < i ==> !(#[trigger] players@[j]).active,
        decreases players.len() - i,
    {
        let p = &players[i];
        if p.active {
            assert(is_first_active(players@, i as int));
            proof {
                let c = choose|k: int| #[trigger] is_first_active(players@, k);
                if c < i {
                    assert(!players@[c].active);
                } else if c > i {
                    assert(!players@[i as int].active);
                }
            }
            let value = if p.is_bust {
                ValueLabel::Bust
            } else if p.hand_value > 0 {
                ValueLabel::Total(p.hand_value)
            } else {
                ValueLabel::Blank
            };
            return HandLine::Hand { seat: i, value };
        }
        i = i + 1;
    }
    assert(!exists|k: int| #[trigger] is_first_active(players@, k)) by {
        if exists|k: int| #[trigger] is_first_active(players@, k) {
            let k = choose|k: int| #[trigger] is_first_active(players@, k);
            assert(!players@[k].active);
        }
    }
    HandLine::NoHand
}

/// The popup lies within the area it is centred in.
pub proof fn law_popup_within_area(width: u16, height: u16, area: Rect)
    requires
        area.x + area.width <= u16::MAX,
        area.y + area.height <= u16::MAX,
    ensures
        ({
            let r = popup_area(width, height, area);
            &&& area.x <= r.x
            &&& r.x + r.width <= area.x + area.width
            &&& area.y <= r.y
            &&& r.y + r.height <= area.y + area.height
            &&& r.width <= width
            &&& r.height <= height
        }),
{
}

} // verus!
