use vstd::prelude::*;

use crate::display::Pixel;

verus! {

/// Number of positions of the spinner's hand.
pub const SPINNER_STEPS: usize = 8;

/// Offset of the spinner's hand from its center at position `k` (of
/// `SPINNER_STEPS`): straight up at 0, then clockwise in eighths of a turn.
pub open spec fn hand_at(k: int) -> Pixel {
    if k == 0 {
        Pixel { x: 0i32, y: -6i32 }
    } else if k == 1 {
        Pixel { x: 4i32, y: -4i32 }
    } else if k == 2 {
        Pixel { x: 6i32, y: 0i32 }
    } else if k == 3 {
        Pixel { x: 4i32, y: 4i32 }
    } else if k == 4 {
        Pixel { x: 0i32, y: 6i32 }
    } else if k == 5 {
        Pixel { x: -4i32, y: 4i32 }
    } else if k == 6 {
        Pixel { x: -6i32, y: 0i32 }
    } else {
        Pixel { x: -4i32, y: -4i32 }
    }
}

/// Offset of the spinner's hand drawn in frame `frame`.
pub open spec fn hand_of_frame(frame: usize) -> Pixel {
    hand_at((frame % SPINNER_STEPS) as int)
}

/// Center of the boot screen's spinner.
pub open spec fn spinner_center() -> Pixel {
    Pixel { x: 64, y: 36 }
}

/// What one frame of the boot screen shows, on a panel cleared to unlit: the
/// title and the status line centered on their anchors, and the spinner, a
/// circle with a hand from its center, all lit.
#[derive(Debug, Clone, Copy)]
pub struct BootFrame {
    /// The title text.
    pub title: &'static str,
    /// Center of the title's baseline-free box (6x10 font, centered).
    pub title_at: Pixel,
    /// Center of the status line's box (6x10 font, centered).
    pub status_at: Pixel,
    /// Top-left corner of the box of the spinner's circle.
    pub circle_at: Pixel,
    /// Diameter (px) of the spinner's circle.
    pub circle_diameter: u32,
    /// Stroke width (px) of the spinner's circle.
    pub circle_stroke: u32,
    /// Center of the spinner, where its hand starts.
    pub hand_from: Pixel,
    /// Where the spinner's hand ends.
    pub hand_to: Pixel,
    /// Stroke width (px) of the spinner's hand.
    pub hand_stroke: u32,
}

/// The boot frame drawn in frame number `frame`.
pub open spec fn boot_frame(frame: usize) -> BootFrame {
    let c = spinner_center();
    let h = hand_of_frame(frame);
    BootFrame {
        title: "CO2 Sensor",
        title_at: Pixel { x: 64, y: 18 },
        status_at: Pixel { x: 64, y: 54 },
        circle_at: Pixel { x: (c.x - 8) as i32, y: (c.y - 8) as i32 },
        circle_diameter: 16,
        circle_stroke: 1,
        hand_from: c,
        hand_to: Pixel { x: (c.x + h.x) as i32, y: (c.y + h.y) as i32 },
        hand_stroke: 2,
    }
}

/// Boot screen animation: a spinner whose hand advances one step per frame
/// drawn.
pub struct BootAnimation {
    frame: usize,
}

impl View for BootAnimation {
    type V = usize;

    /// The number of the next frame to draw (counting wraps around).
    closed spec fn view(&self) -> usize {
        self.frame
    }
}

impl BootAnimation {
    pub fn new() -> (b: Self)
        ensures
            b@ == 0,
    {
        Self { frame: 0 }
    }

    /// Lays out the current frame. Drawing it is the caller's: clear the panel
    /// to unlit, write the title and the status, draw the circle and the hand;
    /// then, once every part was drawn, call [`BootAnimation::advance`].
    pub fn frame(&self) -> (f: BootFrame)
        ensures
            f == boot_frame(self@),
            f.title@ == "CO2 Sensor"@,
    {
        let hand = self.spinner_hand();
        BootFrame {
            title: "CO2 Sensor",
            title_at: Pixel { x: 64, y: 18 },
            status_at: Pixel { x: 64, y: 54 },
            circle_at: Pixel { x: 64 - 8, y: 36 - 8 },
            circle_diameter: 16,
            circle_stroke: 1,
            hand_from: Pixel { x: 64, y: 36 },
            hand_to: Pixel { x: 64 + hand.x, y: 36 + hand.y },
            hand_stroke: 2,
        }
    }

    /// Offset of the spinner's hand from the spinner's center in the current
    /// frame.
    pub fn spinner_hand(&self) -> (hand: Pixel)
        ensures
            hand == hand_of_frame(self@),
    {
        let dirs: [Pixel; SPINNER_STEPS] = [
            Pixel { x: 0, y: -6 },
            Pixel { x: 4, y: -4 },
            Pixel { x: 6, y: 0 },
            Pixel { x: 4, y: 4 },
            Pixel { x: 0, y: 6 },
            Pixel { x: -4, y: 4 },
            Pixel { x: -6, y: 0 },
            Pixel { x: -4, y: -4 },
        ];
        let k = self.frame % dirs.len();
        dirs[k]
    }

    /// Moves on to the next frame (wrapping around), once the current one has
    /// been drawn in full. A frame whose drawing failed is not advanced past:
    /// the next attempt draws the same hand.
    pub fn advance(&mut self)
        ensures
            final(self)@ == old(self)@.wrapping_add(1),
    {
        self.frame = self.frame.wrapping_add(1);
    }
}

/// Each frame moves the spinner's hand one step clockwise, also when the frame
/// counter wraps around.
pub proof fn lemma_hand_steps_clockwise(frame: usize)
    ensures
        hand_of_frame(frame.wrapping_add(1)) == hand_at(((frame % SPINNER_STEPS) + 1) as int
            % SPINNER_STEPS as int),
{
    if frame == usize::MAX {
        assert(usize::MAX % 8 == 7) by {
            assert(usize::BITS == 32 || usize::BITS == 64);
        }
    }
}

/// `p` turned a quarter turn clockwise on the panel (whose y axis points
/// down).
pub open spec fn quarter_turn_cw(p: Pixel) -> (int, int) {
    (-(p.y as int), p.x as int)
}

/// The z-component of the cross product of `a` and `b`: positive when turning
/// from `a` to `b` is clockwise on the panel.
pub open spec fn cross(a: Pixel, b: Pixel) -> int {
    (a.x as int) * (b.y as int) - (a.y as int) * (b.x as int)
}

/// The spinner's geometry: the hand starts straight up, six pixels long; each
/// position is the previous one turned clockwise, two positions make exactly
/// a quarter turn, four make a half turn, and the positions between the axes
/// lie on the diagonals.
pub proof fn lemma_spinner_geometry(k: int)
    requires
        0 <= k < SPINNER_STEPS,
    ensures
        hand_at(0) == (Pixel { x: 0i32, y: -6i32 }),
        cross(hand_at(k), hand_at((k + 1) % 8)) > 0,
        ({
            let q = quarter_turn_cw(hand_at(k));
            let n = hand_at((k + 2) % 8);
            n.x as int == q.0 && n.y as int == q.1
        }),
        hand_at((k + 4) % 8).x == -hand_at(k).x && hand_at((k + 4) % 8).y == -hand_at(k).y,
        k % 2 == 0 ==> hand_at(k).x * hand_at(k).y == 0 && hand_at(k).x * hand_at(k).x
            + hand_at(k).y * hand_at(k).y == 36,
        k % 2 == 1 ==> (hand_at(k).x == hand_at(k).y || hand_at(k).x == -hand_at(k).y)
            && hand_at(k).x * hand_at(k).x == 16,
{
    if k == 0 {
    } else if k == 1 {
    } else if k == 2 {
    } else if k == 3 {
    } else if k == 4 {
    } else if k == 5 {
    } else if k == 6 {
    } else {
    }
}

} // verus!
