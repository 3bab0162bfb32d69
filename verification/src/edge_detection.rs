//! Edge detection: from a starting pixel, scan along an axis for the first
//! luminance jump between adjacent pixels.

use vstd::prelude::*;

use crate::screenshot::Screenshot;

verus! {

/// Luminance difference between adjacent pixels above which a scan reports an
/// edge.
pub const EDGE_THRESHOLD: u8 = 5;

/// Distance between two luminance values.
pub open spec fn abs_diff(a: int, b: int) -> int {
    if a >= b {
        a - b
    } else {
        b - a
    }
}

/// An `Option<u32>` result carries the same value as an `Option<int>` answer
/// from a specification.
pub open spec fn same_opt(r: Option<u32>, o: Option<int>) -> bool {
    match r {
        Some(e) => o == Some(e as int),
        None => o is None,
    }
}

/// An edge lies between the horizontally adjacent pixels `x - 1` and `x`.
pub open spec fn hjump(s: &Screenshot, y: int, x: int) -> bool
    recommends
        1 <= x < s.width,
        0 <= y < s.height,
{
    abs_diff(s.lum(x, y) as int, s.lum(x - 1, y) as int) > EDGE_THRESHOLD
}

/// An edge lies between the vertically adjacent pixels `y - 1` and `y`.
pub open spec fn vjump(s: &Screenshot, x: int, y: int) -> bool
    recommends
        0 <= x < s.width,
        1 <= y < s.height,
{
    abs_diff(s.lum(x, y) as int, s.lum(x, y - 1) as int) > EDGE_THRESHOLD
}

/// Last pixel at or right of `x` that is still on the near side of the first
/// horizontal jump, or `None` when the scan runs off the right border.
pub open spec fn first_jump_right(s: &Screenshot, y: int, x: int) -> Option<int>
    decreases s.width - x,
{
    if x < 0 || x + 1 >= s.width {
        None
    } else if hjump(s, y, x + 1) {
        Some(x)
    } else {
        first_jump_right(s, y, x + 1)
    }
}

/// Last pixel at or left of `x` that is still on the near side of the first
/// horizontal jump, or `None` when the scan runs off the left border.
pub open spec fn first_jump_left(s: &Screenshot, y: int, x: int) -> Option<int>
    decreases x,
{
    if x <= 0 || x >= s.width {
        None
    } else if hjump(s, y, x) {
        Some(x)
    } else {
        first_jump_left(s, y, x - 1)
    }
}

/// Last pixel at or below `y` that is still on the near side of the first
/// vertical jump, or `None` when the scan runs off the bottom border.
pub open spec fn first_jump_down(s: &Screenshot, x: int, y: int) -> Option<int>
    decreases s.height - y,
{
    if y < 0 || y + 1 >= s.height {
        None
    } else if vjump(s, x, y + 1) {
        Some(y)
    } else {
        first_jump_down(s, x, y + 1)
    }
}

/// Last pixel at or above `y` that is still on the near side of the first
/// vertical jump, or `None` when the scan runs off the top border.
pub open spec fn first_jump_up(s: &Screenshot, x: int, y: int) -> Option<int>
    decreases y,
{
    if y <= 0 || y >= s.height {
        None
    } else if vjump(s, x, y) {
        Some(y)
    } else {
        first_jump_up(s, x, y - 1)
    }
}

/// The left edge reported for a pointer at `(x, y)`: the scan result, or the
/// frame border when no jump exists.
pub open spec fn left_edge_spec(s: &Screenshot, x: int, y: int) -> int {
    match first_jump_left(s, y, x) {
        Some(e) => e,
        None => 0,
    }
}

/// The right edge reported for a pointer at `(x, y)`.
pub open spec fn right_edge_spec(s: &Screenshot, x: int, y: int) -> int {
    match first_jump_right(s, y, x) {
        Some(e) => e,
        None => s.width - 1,
    }
}

/// The top edge reported for a pointer at `(x, y)`.
pub open spec fn up_edge_spec(s: &Screenshot, x: int, y: int) -> int {
    match first_jump_up(s, x, y) {
        Some(e) => e,
        None => 0,
    }
}

/// The bottom edge reported for a pointer at `(x, y)`.
pub open spec fn down_edge_spec(s: &Screenshot, x: int, y: int) -> int {
    match first_jump_down(s, x, y) {
        Some(e) => e,
        None => s.height - 1,
    }
}

/// The nearest detected content boundary in each of the four axis directions
/// around the pointer.
#[derive(Debug, Clone, Copy, PartialEq, Eq, Structural)]
pub struct Edges {
    /// Nearest boundary left of the pointer.
    pub left: u32,
    /// Nearest boundary right of the pointer.
    pub right: u32,
    /// Nearest boundary above the pointer.
    pub up: u32,
    /// Nearest boundary below the pointer.
    pub down: u32,
}

/// Scan one pixel at a time from `(start_x, y)` in `direction` (1 is right,
/// -1 is left), comparing each new pixel's luminance with the pixel the scan
/// just left; report the last pixel before the first jump, or `None` at the
/// border.
pub fn scan_horizontal(s: &Screenshot, start_x: u32, y: u32, direction: i32) -> (r: Option<u32>)
    requires
        s.wf(),
        start_x < s.width,
        y < s.height,
        direction == 1 || direction == -1,
    ensures
        direction == 1 ==> same_opt(r, first_jump_right(s, y as int, start_x as int)),
        direction == -1 ==> same_opt(r, first_jump_left(s, y as int, start_x as int)),
        r is Some ==> direction == 1 ==> start_x <= r->Some_0 < s.width,
        r is Some ==> direction == -1 ==> 1 <= r->Some_0 <= start_x,
{
    let mut x: u32 = start_x;
    let mut prev: u8 = s.get_luminance(start_x, y);
    if direction == 1 {
        loop
            invariant
                start_x <= x < s.width,
                prev == s.lum(x as int, y as int),
                first_jump_right(s, y as int, start_x as int) == first_jump_right(
                    s,
                    y as int,
                    x as int,
                ),
            decreases s.width - x,
        {
            if x + 1 >= s.width {
                return None;
            }
            let lum: u8 = s.get_luminance(x + 1, y);
            let d: u8 = if lum >= prev {
                lum - prev
            } else {
                prev - lum
            };
            if d > EDGE_THRESHOLD {
                return Some(x);
            }
            prev = lum;
            x = x + 1;
        }
    } else {
        loop
            invariant
                x <= start_x,
                prev == s.lum(x as int, y as int),
                first_jump_left(s, y as int, start_x as int) == first_jump_left(
                    s,
                    y as int,
                    x as int,
                ),
            decreases x,
        {
            if x == 0 {
                return None;
            }
            let lum: u8 = s.get_luminance(x - 1, y);
            let d: u8 = if lum >= prev {
                lum - prev
            } else {
                prev - lum
            };
            if d > EDGE_THRESHOLD {
                return Some(x);
            }
            prev = lum;
            x = x - 1;
        }
    }
}

/// Scan one pixel at a time from `(x, start_y)` in `direction` (1 is down,
/// -1 is up), comparing each new pixel's luminance with the pixel the scan
/// just left; report the last pixel before the first jump, or `None` at the
/// border.
pub fn scan_vertical(s: &Screenshot, x: u32, start_y: u32, direction: i32) -> (r: Option<u32>)
    requires
        s.wf(),
        x < s.width,
        start_y < s.height,
        direction == 1 || direction == -1,
    ensures
        direction == 1 ==> same_opt(r, first_jump_down(s, x as int, start_y as int)),
        direction == -1 ==> same_opt(r, first_jump_up(s, x as int, start_y as int)),
        r is Some ==> direction == 1 ==> start_y <= r->Some_0 < s.height,
        r is Some ==> direction == -1 ==> 1 <= r->Some_0 <= start_y,
{
    let mut y: u32 = start_y;
    let mut prev: u8 = s.get_luminance(x, start_y);
    if direction == 1 {
        loop
            invariant
                start_y <= y < s.height,
                prev == s.lum(x as int, y as int),
                first_jump_down(s, x as int, start_y as int) == first_jump_down(
                    s,
                    x as int,
                    y as int,
                ),
            decreases s.height - y,
        {
            if y + 1 >= s.height {
                return None;
            }
            let lum: u8 = s.get_luminance(x, y + 1);
            let d: u8 = if lum >= prev {
                lum - prev
            } else {
                prev - lum
            };
            if d > EDGE_THRESHOLD {
                return Some(y);
            }
            prev = lum;
            y = y + 1;
        }
    } else {
        loop
            invariant
                y <= start_y,
                prev == s.lum(x as int, y as int),
                first_jump_up(s, x as int, start_y as int) == first_jump_up(
                    s,
                    x as int,
                    y as int,
                ),
            decreases y,
        {
            if y == 0 {
                return None;
            }
            let lum: u8 = s.get_luminance(x, y - 1);
            let d: u8 = if lum >= prev {
                lum - prev
            } else {
                prev - lum
            };
            if d > EDGE_THRESHOLD {
                return Some(y);
            }
            prev = lum;
            y = y - 1;
        }
    }
}

/// Find the nearest content boundary in all four directions around the
/// pointer.  A direction whose scan reaches the border without a jump
/// degrades to the frame border itself, so every returned coordinate stays
/// between the pointer and the border.
pub fn find_edges(screenshot: &Screenshot, cursor_x: u32, cursor_y: u32) -> (r: Edges)
    requires
        screenshot.wf(),
        cursor_x < screenshot.width,
        cursor_y < screenshot.height,
    ensures
        r.left == left_edge_spec(screenshot, cursor_x as int, cursor_y as int),
        r.right == right_edge_spec(screenshot, cursor_x as int, cursor_y as int),
        r.up == up_edge_spec(screenshot, cursor_x as int, cursor_y as int),
        r.down == down_edge_spec(screenshot, cursor_x as int, cursor_y as int),
        r.left <= cursor_x < screenshot.width,
        cursor_x <= r.right < screenshot.width,
        r.up <= cursor_y < screenshot.height,
        cursor_y <= r.down < screenshot.height,
{
    let left: u32 = match scan_horizontal(screenshot, cursor_x, cursor_y, -1) {
        Some(e) => e,
        None => 0,
    };
    let right: u32 = match scan_horizontal(screenshot, cursor_x, cursor_y, 1) {
        Some(e) => e,
        None => screenshot.width - 1,
    };
    let up: u32 = match scan_vertical(screenshot, cursor_x, cursor_y, -1) {
        Some(e) => e,
        None => 0,
    };
    let down: u32 = match scan_vertical(screenshot, cursor_x, cursor_y, 1) {
        Some(e) => e,
        None => screenshot.height - 1,
    };
    Edges { left, right, up, down }
}

/// Law: what the rightward scan returns is the first luminance jump.  A
/// found edge `e` lies at or right of the start, the jump is between `e`
/// and `e + 1`, and no jump lies between the start and `e`; a miss means no
/// jump lies anywhere right of the start.
pub proof fn lemma_first_jump_right_characterization(s: &Screenshot, y: int, x: int)
    requires
        0 <= x < s.width,
    ensures
        match first_jump_right(s, y, x) {
            Some(e) => x <= e && e + 1 < s.width && hjump(s, y, e + 1) && (forall|j: int|
                x < j <= e ==> !hjump(s, y, j)),
            None => forall|j: int| x < j < s.width ==> !hjump(s, y, j),
        },
    decreases s.width - x,
{
    if x + 1 < s.width && !hjump(s, y, x + 1) {
        lemma_first_jump_right_characterization(s, y, x + 1);
    }
}

/// Law: what the leftward scan returns is the first luminance jump, read
/// toward falling columns, with the found edge one step before the jump.
pub proof fn lemma_first_jump_left_characterization(s: &Screenshot, y: int, x: int)
    requires
        0 <= x < s.width,
    ensures
        match first_jump_left(s, y, x) {
            Some(e) => 1 <= e <= x && hjump(s, y, e) && (forall|j: int|
                e < j <= x ==> !hjump(s, y, j)),
            None => forall|j: int| 0 < j <= x ==> !hjump(s, y, j),
        },
    decreases x,
{
    if 0 < x && !hjump(s, y, x) {
        lemma_first_jump_left_characterization(s, y, x - 1);
    }
}

/// Law: what the downward scan returns is the first luminance jump, as
/// `lemma_first_jump_right_characterization` states for rows.
pub proof fn lemma_first_jump_down_characterization(s: &Screenshot, x: int, y: int)
    requires
        0 <= y < s.height,
    ensures
        match first_jump_down(s, x, y) {
            Some(e) => y <= e && e + 1 < s.height && vjump(s, x, e + 1) && (forall|j: int|
                y < j <= e ==> !vjump(s, x, j)),
            None => forall|j: int| y < j < s.height ==> !vjump(s, x, j),
        },
    decreases s.height - y,
{
    if y + 1 < s.height && !vjump(s, x, y + 1) {
        lemma_first_jump_down_characterization(s, x, y + 1);
    }
}

/// Law: what the upward scan returns is the first luminance jump, read
/// toward falling rows, with the found edge one step before the jump.
pub proof fn lemma_first_jump_up_characterization(s: &Screenshot, x: int, y: int)
    requires
        0 <= y < s.height,
    ensures
        match first_jump_up(s, x, y) {
            Some(e) => 1 <= e <= y && vjump(s, x, e) && (forall|j: int|
                e < j <= y ==> !vjump(s, x, j)),
            None => forall|j: int| 0 < j <= y ==> !vjump(s, x, j),
        },
    decreases y,
{
    if 0 < y && !vjump(s, x, y) {
        lemma_first_jump_up_characterization(s, x, y - 1);
    }
}

proof fn lemma_uniform_no_jump_right(s: &Screenshot, y: int, x: int)
    requires
        s.wf(),
        s.uniform_luminance(),
        0 <= y < s.height,
        0 <= x,
    ensures
        first_jump_right(s, y, x) is None,
    decreases s.width - x,
{
    if x + 1 < s.width {
        assert(s.lum(x + 1, y) == s.lum(0, 0));
        assert(s.lum(x, y) == s.lum(0, 0));
        lemma_uniform_no_jump_right(s, y, x + 1);
    }
}

proof fn lemma_uniform_no_jump_left(s: &Screenshot, y: int, x: int)
    requires
        s.wf(),
        s.uniform_luminance(),
        0 <= y < s.height,
        x < s.width,
    ensures
        first_jump_left(s, y, x) is None,
    decreases x,
{
    if 0 < x < s.width {
        assert(s.lum(x, y) == s.lum(0, 0));
        assert(s.lum(x - 1, y) == s.lum(0, 0));
        lemma_uniform_no_jump_left(s, y, x - 1);
    }
}

proof fn lemma_uniform_no_jump_down(s: &Screenshot, x: int, y: int)
    requires
        s.wf(),
        s.uniform_luminance(),
        0 <= x < s.width,
        0 <= y,
    ensures
        first_jump_down(s, x, y) is None,
    decreases s.height - y,
{
    if y + 1 < s.height {
        assert(s.lum(x, y + 1) == s.lum(0, 0));
        assert(s.lum(x, y) == s.lum(0, 0));
        lemma_uniform_no_jump_down(s, x, y + 1);
    }
}

proof fn lemma_uniform_no_jump_up(s: &Screenshot, x: int, y: int)
    requires
        s.wf(),
        s.uniform_luminance(),
        0 <= x < s.width,
        y < s.height,
    ensures
        first_jump_up(s, x, y) is None,
    decreases y,
{
    if 0 < y < s.height {
        assert(s.lum(x, y) == s.lum(0, 0));
        assert(s.lum(x, y - 1) == s.lum(0, 0));
        lemma_uniform_no_jump_up(s, x, y - 1);
    }
}

/// Law: over an image of uniform luminance, edge detection reports no false
/// edge; all four directions fall back to the full frame border.
pub proof fn lemma_uniform_find_edges(s: &Screenshot, x: int, y: int)
    requires
        s.wf(),
        s.uniform_luminance(),
        0 <= x < s.width,
        0 <= y < s.height,
    ensures
        left_edge_spec(s, x, y) == 0,
        right_edge_spec(s, x, y) == s.width - 1,
        up_edge_spec(s, x, y) == 0,
        down_edge_spec(s, x, y) == s.height - 1,
{
    lemma_uniform_no_jump_right(s, y, x);
    lemma_uniform_no_jump_left(s, y, x);
    lemma_uniform_no_jump_down(s, x, y);
    lemma_uniform_no_jump_up(s, x, y);
}

} // verus!
