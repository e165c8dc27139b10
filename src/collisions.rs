use vstd::prelude::*;

verus! {

/// An axis-aligned box given by its center and its full width and height.
#[derive(Clone, Copy, Debug, PartialEq, Eq, Structural)]
pub struct HitBox {
    pub x: i32,
    pub y: i32,
    pub width: u32,
    pub height: u32,
}

pub open spec fn abs(v: int) -> int {
    if v < 0 {
        -v
    } else {
        v
    }
}

/// Open-interval overlap of two boxes given by center and size:
/// `|xa - xb| < (wa + wb) / 2` and `|ya - yb| < (ha + hb) / 2`, both sides doubled.
/// Touching edges do not overlap.
pub open spec fn overlap(
    xa: int,
    ya: int,
    wa: int,
    ha: int,
    xb: int,
    yb: int,
    wb: int,
    hb: int,
) -> bool {
    &&& 2 * abs(xa - xb) < wa + wb
    &&& 2 * abs(ya - yb) < ha + hb
}

pub open spec fn boxes_overlap(a: HitBox, b: HitBox) -> bool {
    overlap(
        a.x as int,
        a.y as int,
        a.width as int,
        a.height as int,
        b.x as int,
        b.y as int,
        b.width as int,
        b.height as int,
    )
}

/// A box of size `w` x `h` centered at `(x, y)` hits at least one of `boxes`.
pub open spec fn hits_any(x: int, y: int, w: int, h: int, boxes: Seq<HitBox>) -> bool {
    exists|i: int|
        0 <= i < boxes.len() && #[trigger] overlap(
            x,
            y,
            w,
            h,
            boxes[i].x as int,
            boxes[i].y as int,
            boxes[i].width as int,
            boxes[i].height as int,
        )
}

impl HitBox {
    pub fn new(x: i32, y: i32, width: u32, height: u32) -> (r: HitBox)
        ensures
            r == (HitBox { x, y, width, height }),
    {
        HitBox { x, y, width, height }
    }

    pub fn set_pos(&mut self, x: i32, y: i32)
        ensures
            *final(self) == (HitBox { x, y, ..*old(self) }),
    {
        self.x = x;
        self.y = y;
    }
}

/// Whether a box of size `w` x `h` centered at `(x, y)` overlaps `other`.
pub fn overlaps_at(x: i32, y: i32, w: u32, h: u32, other: &HitBox) -> (r: bool)
    ensures
        r == overlap(
            x as int,
            y as int,
            w as int,
            h as int,
            other.x as int,
            other.y as int,
            other.width as int,
            other.height as int,
        ),
{
    let dx: i64 = x as i64 - other.x as i64;
    let dy: i64 = y as i64 - other.y as i64;
    let adx: i64 = if dx < 0 {
        -dx
    } else {
        dx
    };
    let ady: i64 = if dy < 0 {
        -dy
    } else {
        dy
    };
    2 * adx < w as i64 + other.width as i64 && 2 * ady < h as i64 + other.height as i64
}

/// Whether two boxes overlap.
pub fn are_overlapping(a: &HitBox, b: &HitBox) -> (r: bool)
    ensures
        r == boxes_overlap(*a, *b),
{
    overlaps_at(a.x, a.y, a.width, a.height, b)
}

/// Whether a box of size `w` x `h` centered at `(x, y)` overlaps any of `boxes`.
pub fn overlaps_any(x: i32, y: i32, w: u32, h: u32, boxes: &Vec<HitBox>) -> (r: bool)
    ensures
        r == hits_any(x as int, y as int, w as int, h as int, boxes@),
{
    let mut i: usize = 0;
    while i < boxes.len()
        invariant
            0 <= i <= boxes.len(),
            forall|j: int|
                0 <= j < i ==> !overlap(
                    x as int,
                    y as int,
                    w as int,
                    h as int,
                    boxes@[j].x as int,
                    boxes@[j].y as int,
                    boxes@[j].width as int,
                    boxes@[j].height as int,
                ),
        decreases boxes.len() - i,
    {
        if overlaps_at(x, y, w, h, &boxes[i]) {
            return true;
        }
        i += 1;
    }
    false
}

/// Overlap does not depend on which box is named first.
pub proof fn lemma_overlap_symmetric(a: HitBox, b: HitBox)
    ensures
        boxes_overlap(a, b) == boxes_overlap(b, a),
{
}

/// A box with a nonzero width and height overlaps itself, so an actor must be
/// left out of the obstacles it is tested against; a degenerate box never does.
pub proof fn lemma_overlap_self(a: HitBox)
    ensures
        boxes_overlap(a, a) <==> (a.width > 0 && a.height > 0),
{
}

} // verus!
