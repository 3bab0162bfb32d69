//! Content snapping: pull a user-drawn rectangle edge onto a nearby content
//! boundary by sampling bounded luminance scans along the whole edge.

use vstd::prelude::*;

use crate::edge_detection::abs_diff;
use crate::edge_detection::same_opt;
use crate::screenshot::Screenshot;

verus! {

/// How far a bounded snap scan walks before giving up, in pixels.
pub const SNAP_THRESHOLD: u32 = 200;

/// Luminance difference from the scan's starting pixel above which a stepped
/// pixel counts as content.  Coarser than the edge-detection threshold, so the
/// scan rides through anti-aliased gradients.
pub const SNAP_EDGE_THRESHOLD: u8 = 30;

/// The pixel at `(x, y)` differs from the scan's starting pixel
/// `(start_x, y)` by more than the snap threshold.
pub open spec fn snap_hit_h(s: &Screenshot, start_x: int, y: int, x: int) -> bool {
    abs_diff(s.lum(x, y) as int, s.lum(start_x, y) as int) > SNAP_EDGE_THRESHOLD
}

/// The pixel at `(x, y)` differs from the scan's starting pixel
/// `(x, start_y)` by more than the snap threshold.
pub open spec fn snap_hit_v(s: &Screenshot, x: int, start_y: int, y: int) -> bool {
    abs_diff(s.lum(x, y) as int, s.lum(x, start_y) as int) > SNAP_EDGE_THRESHOLD
}

/// Where a horizontal scan from `(start_x, y)` in direction `dir` snaps: the
/// last pixel still within the snap threshold of the starting pixel, one
/// step before the first pixel whose luminance leaves it.  `None` when the
/// scan hits the border or gives up after `max` steps without finding a
/// departure.  `k` is the step about to be taken.
pub open spec fn first_snap_hit_h(
    s: &Screenshot,
    start_x: int,
    y: int,
    dir: int,
    max: int,
    k: int,
) -> Option<int>
    decreases max + 1 - k,
{
    if k > max {
        None
    } else {
        let x = start_x + dir * k;
        if x < 0 || x >= s.width {
            None
        } else if snap_hit_h(s, start_x, y, x) {
            Some(x - dir)
        } else {
            first_snap_hit_h(s, start_x, y, dir, max, k + 1)
        }
    }
}

/// Where a vertical scan from `(x, start_y)` in direction `dir` snaps: the
/// last pixel still within the snap threshold of the starting pixel, one
/// step before the first pixel whose luminance leaves it.  `None` when the
/// scan hits the border or gives up after `max` steps without finding a
/// departure.
pub open spec fn first_snap_hit_v(
    s: &Screenshot,
    x: int,
    start_y: int,
    dir: int,
    max: int,
    k: int,
) -> Option<int>
    decreases max + 1 - k,
{
    if k > max {
        None
    } else {
        let y = start_y + dir * k;
        if y < 0 || y >= s.height {
            None
        } else if snap_hit_v(s, x, start_y, y) {
            Some(y - dir)
        } else {
            first_snap_hit_v(s, x, start_y, dir, max, k + 1)
        }
    }
}

/// Merge one sample line's hit into the best hit so far: in the positive
/// direction the minimum wins, in the negative direction the maximum, so the
/// aggregate keeps the outermost detected boundary.
pub open spec fn combine_hits(prev: Option<int>, cur: Option<int>, dir: int) -> Option<int> {
    match cur {
        None => prev,
        Some(e) => match prev {
            None => Some(e),
            Some(b) => if dir == 1 {
                Some(if b <= e {
                    b
                } else {
                    e
                })
            } else {
                Some(if b >= e {
                    b
                } else {
                    e
                })
            },
        },
    }
}

/// Outermost horizontal snap hit over the sample lines `y_start ..= y_end`.
pub open spec fn best_snap_x(s: &Screenshot, x: int, dir: int, y_start: int, y_end: int) -> Option<
    int,
>
    decreases y_end - y_start + 1,
{
    if y_end < y_start {
        None
    } else {
        combine_hits(
            best_snap_x(s, x, dir, y_start, y_end - 1),
            first_snap_hit_h(s, x, y_end, dir, SNAP_THRESHOLD as int, 1),
            dir,
        )
    }
}

/// Outermost vertical snap hit over the sample lines `x_start ..= x_end`.
pub open spec fn best_snap_y(s: &Screenshot, y: int, dir: int, x_start: int, x_end: int) -> Option<
    int,
>
    decreases x_end - x_start + 1,
{
    if x_end < x_start {
        None
    } else {
        combine_hits(
            best_snap_y(s, y, dir, x_start, x_end - 1),
            first_snap_hit_v(s, x_end, y, dir, SNAP_THRESHOLD as int, 1),
            dir,
        )
    }
}

/// What snapping a vertical rectangle edge at `x` returns: the outermost hit
/// over the sampled span, or `x` unchanged when no sample line finds any
/// content departure.
pub open spec fn snap_x_spec(s: &Screenshot, x: int, y_start: int, y_end: int, dir: int) -> int {
    match best_snap_x(s, x, dir, y_start, y_end) {
        Some(e) => e,
        None => x,
    }
}

/// What snapping a horizontal rectangle edge at `y` returns.
pub open spec fn snap_y_spec(s: &Screenshot, y: int, x_start: int, x_end: int, dir: int) -> int {
    match best_snap_y(s, y, dir, x_start, x_end) {
        Some(e) => e,
        None => y,
    }
}

/// Walk up to `max_distance` pixels from `(start_x, y)` in `direction`
/// (1 is right, -1 is left) until a pixel's luminance leaves the starting
/// pixel's by more than the snap threshold, and report the pixel one step
/// before it: the last one still on the starting side of the transition.
pub fn scan_horizontal_limited(
    s: &Screenshot,
    start_x: u32,
    y: u32,
    direction: i32,
    max_distance: u32,
) -> (r: Option<u32>)
    requires
        s.wf(),
        start_x < s.width,
        y < s.height,
        direction == 1 || direction == -1,
    ensures
        same_opt(
            r,
            first_snap_hit_h(
                s,
                start_x as int,
                y as int,
                direction as int,
                max_distance as int,
                1,
            ),
        ),
        r is Some ==> r->Some_0 < s.width,
        r is Some && direction == 1 ==> start_x <= r->Some_0 < start_x + max_distance,
        r is Some && direction == -1 ==> start_x - max_distance < r->Some_0 <= start_x,
{
    let start_lum: u8 = s.get_luminance(start_x, y);
    let mut k: u64 = 1;
    loop
        invariant
            1 <= k <= max_distance + 1,
            start_lum == s.lum(start_x as int, y as int),
            first_snap_hit_h(
                s,
                start_x as int,
                y as int,
                direction as int,
                max_distance as int,
                1,
            ) == first_snap_hit_h(
                s,
                start_x as int,
                y as int,
                direction as int,
                max_distance as int,
                k as int,
            ),
        decreases max_distance + 1 - k,
    {
        if k > max_distance as u64 {
            return None;
        }
        if direction == 1 {
            let x64: u64 = start_x as u64 + k;
            if x64 >= s.width as u64 {
                return None;
            }
            let x: u32 = x64 as u32;
            let lum: u8 = s.get_luminance(x, y);
            let d: u8 = if lum >= start_lum {
                lum - start_lum
            } else {
                start_lum - lum
            };
            if d > SNAP_EDGE_THRESHOLD {
                return Some(x - 1);
            }
        } else {
            if k > start_x as u64 {
                return None;
            }
            let x: u32 = start_x - k as u32;
            let lum: u8 = s.get_luminance(x, y);
            let d: u8 = if lum >= start_lum {
                lum - start_lum
            } else {
                start_lum - lum
            };
            if d > SNAP_EDGE_THRESHOLD {
                return Some(x + 1);
            }
        }
        k = k + 1;
    }
}

/// Walk up to `max_distance` pixels from `(x, start_y)` in `direction`
/// (1 is down, -1 is up) until a pixel's luminance leaves the starting
/// pixel's by more than the snap threshold, and report the pixel one step
/// before it: the last one still on the starting side of the transition.
pub fn scan_vertical_limited(
    s: &Screenshot,
    x: u32,
    start_y: u32,
    direction: i32,
    max_distance: u32,
) -> (r: Option<u32>)
    requires
        s.wf(),
        x < s.width,
        start_y < s.height,
        direction == 1 || direction == -1,
    ensures
        same_opt(
            r,
            first_snap_hit_v(
                s,
                x as int,
                start_y as int,
                direction as int,
                max_distance as int,
                1,
            ),
        ),
        r is Some ==> r->Some_0 < s.height,
        r is Some && direction == 1 ==> start_y <= r->Some_0 < start_y + max_distance,
        r is Some && direction == -1 ==> start_y - max_distance < r->Some_0 <= start_y,
{
    let start_lum: u8 = s.get_luminance(x, start_y);
    let mut k: u64 = 1;
    loop
        invariant
            1 <= k <= max_distance + 1,
            start_lum == s.lum(x as int, start_y as int),
            first_snap_hit_v(
                s,
                x as int,
                start_y as int,
                direction as int,
                max_distance as int,
                1,
            ) == first_snap_hit_v(
                s,
                x as int,
                start_y as int,
                direction as int,
                max_distance as int,
                k as int,
            ),
        decreases max_distance + 1 - k,
    {
        if k > max_distance as u64 {
            return None;
        }
        if direction == 1 {
            let y64: u64 = start_y as u64 + k;
            if y64 >= s.height as u64 {
                return None;
            }
            let y: u32 = y64 as u32;
            let lum: u8 = s.get_luminance(x, y);
            let d: u8 = if lum >= start_lum {
                lum - start_lum
            } else {
                start_lum - lum
            };
            if d > SNAP_EDGE_THRESHOLD {
                return Some(y - 1);
            }
        } else {
            if k > start_y as u64 {
                return None;
            }
            let y: u32 = start_y - k as u32;
            let lum: u8 = s.get_luminance(x, y);
            let d: u8 = if lum >= start_lum {
                lum - start_lum
            } else {
                start_lum - lum
            };
            if d > SNAP_EDGE_THRESHOLD {
                return Some(y + 1);
            }
        }
        k = k + 1;
    }
}

/// Snap a vertical rectangle edge at `x` onto the outermost content
/// transition detected over the sampled lines `y_start ..= y_end`, each
/// snapped edge landing on the last pixel still on its scan's starting
/// side.  `prefer_direction` is 1 when snapping a left edge (scan
/// rightward) and -1 for a right edge (scan leftward).  When no line finds
/// any transition, `x` is returned unchanged.
pub fn snap_to_nearest_edge_x(
    screenshot: &Screenshot,
    x: u32,
    y_start: u32,
    y_end: u32,
    prefer_direction: i32,
) -> (r: u32)
    requires
        screenshot.wf(),
        x < screenshot.width,
        y_start <= y_end < screenshot.height,
        prefer_direction == 1 || prefer_direction == -1,
    ensures
        r == snap_x_spec(
            screenshot,
            x as int,
            y_start as int,
            y_end as int,
            prefer_direction as int,
        ),
        r < screenshot.width,
{
    let mut best_edge: Option<u32> = None;
    let mut y: u32 = y_start;
    loop
        invariant
            y_start <= y <= y_end + 1,
            same_opt(
                best_edge,
                best_snap_x(
                    screenshot,
                    x as int,
                    prefer_direction as int,
                    y_start as int,
                    y as int - 1,
                ),
            ),
            best_edge is Some ==> best_edge->Some_0 < screenshot.width,
        decreases y_end + 1 - y,
    {
        if y > y_end {
            break ;
        }
        if let Some(edge) = scan_horizontal_limited(screenshot, x, y, prefer_direction,
            SNAP_THRESHOLD) {
            best_edge = Some(
                match best_edge {
                    Some(prev) => if prefer_direction > 0 {
                        if prev <= edge {
                            prev
                        } else {
                            edge
                        }
                    } else {
                        if prev >= edge {
                            prev
                        } else {
                            edge
                        }
                    },
                    None => edge,
                },
            );
        }
        y = y + 1;
    }
    match best_edge {
        Some(edge) => edge,
        None => x,
    }
}

/// Snap a horizontal rectangle edge at `y` onto the outermost content
/// transition detected over the sampled lines `x_start ..= x_end`, as
/// `snap_to_nearest_edge_x` does for vertical edges.  `prefer_direction`
/// is 1 when snapping a top edge (scan downward) and -1 for a bottom edge
/// (scan upward).  When no line finds any transition, `y` is returned
/// unchanged.
pub fn snap_to_nearest_edge_y(
    screenshot: &Screenshot,
    x_start: u32,
    x_end: u32,
    y: u32,
    prefer_direction: i32,
) -> (r: u32)
    requires
        screenshot.wf(),
        y < screenshot.height,
        x_start <= x_end < screenshot.width,
        prefer_direction == 1 || prefer_direction == -1,
    ensures
        r == snap_y_spec(
            screenshot,
            y as int,
            x_start as int,
            x_end as int,
            prefer_direction as int,
        ),
        r < screenshot.height,
{
    let mut best_edge: Option<u32> = None;
    let mut x: u32 = x_start;
    loop
        invariant
            x_start <= x <= x_end + 1,
            same_opt(
                best_edge,
                best_snap_y(
                    screenshot,
                    y as int,
                    prefer_direction as int,
                    x_start as int,
                    x as int - 1,
                ),
            ),
            best_edge is Some ==> best_edge->Some_0 < screenshot.height,
        decreases x_end + 1 - x,
    {
        if x > x_end {
            break ;
        }
        if let Some(edge) = scan_vertical_limited(screenshot, x, y, prefer_direction,
            SNAP_THRESHOLD) {
            best_edge = Some(
                match best_edge {
                    Some(prev) => if prefer_direction > 0 {
                        if prev <= edge {
                            prev
                        } else {
                            edge
                        }
                    } else {
                        if prev >= edge {
                            prev
                        } else {
                            edge
                        }
                    },
                    None => edge,
                },
            );
        }
        x = x + 1;
    }
    match best_edge {
        Some(edge) => edge,
        None => y,
    }
}

proof fn lemma_uniform_no_snap_hit_h(s: &Screenshot, start_x: int, y: int, dir: int, max: int, k: int)
    requires
        s.wf(),
        s.uniform_luminance(),
        0 <= start_x < s.width,
        0 <= y < s.height,
    ensures
        first_snap_hit_h(s, start_x, y, dir, max, k) is None,
    decreases max + 1 - k,
{
    if k <= max {
        let x = start_x + dir * k;
        if 0 <= x < s.width {
            assert(s.lum(x, y) == s.lum(0, 0));
            assert(s.lum(start_x, y) == s.lum(0, 0));
            lemma_uniform_no_snap_hit_h(s, start_x, y, dir, max, k + 1);
        }
    }
}

proof fn lemma_uniform_no_snap_hit_v(s: &Screenshot, x: int, start_y: int, dir: int, max: int, k: int)
    requires
        s.wf(),
        s.uniform_luminance(),
        0 <= x < s.width,
        0 <= start_y < s.height,
    ensures
        first_snap_hit_v(s, x, start_y, dir, max, k) is None,
    decreases max + 1 - k,
{
    if k <= max {
        let y = start_y + dir * k;
        if 0 <= y < s.height {
            assert(s.lum(x, y) == s.lum(0, 0));
            assert(s.lum(x, start_y) == s.lum(0, 0));
            lemma_uniform_no_snap_hit_v(s, x, start_y, dir, max, k + 1);
        }
    }
}

proof fn lemma_uniform_no_best_snap_x(s: &Screenshot, x: int, dir: int, y_start: int, y_end: int)
    requires
        s.wf(),
        s.uniform_luminance(),
        0 <= x < s.width,
        0 <= y_start,
        y_end < s.height,
    ensures
        best_snap_x(s, x, dir, y_start, y_end) is None,
    decreases y_end - y_start + 1,
{
    if y_start <= y_end {
        lemma_uniform_no_snap_hit_h(s, x, y_end, dir, SNAP_THRESHOLD as int, 1);
        lemma_uniform_no_best_snap_x(s, x, dir, y_start, y_end - 1);
    }
}

proof fn lemma_uniform_no_best_snap_y(s: &Screenshot, y: int, dir: int, x_start: int, x_end: int)
    requires
        s.wf(),
        s.uniform_luminance(),
        0 <= y < s.height,
        0 <= x_start,
        x_end < s.width,
    ensures
        best_snap_y(s, y, dir, x_start, x_end) is None,
    decreases x_end - x_start + 1,
{
    if x_start <= x_end {
        lemma_uniform_no_snap_hit_v(s, x_end, y, dir, SNAP_THRESHOLD as int, 1);
        lemma_uniform_no_best_snap_y(s, y, dir, x_start, x_end - 1);
    }
}

/// Law: over an image of uniform luminance, snapping a vertical edge finds no
/// content boundary and returns the unsnapped coordinate unchanged.
pub proof fn lemma_uniform_snap_x(s: &Screenshot, x: int, y_start: int, y_end: int, dir: int)
    requires
        s.wf(),
        s.uniform_luminance(),
        0 <= x < s.width,
        0 <= y_start <= y_end < s.height,
    ensures
        snap_x_spec(s, x, y_start, y_end, dir) == x,
{
    lemma_uniform_no_best_snap_x(s, x, dir, y_start, y_end);
}

/// Law: over an image of uniform luminance, snapping a horizontal edge finds
/// no content boundary and returns the unsnapped coordinate unchanged.
pub proof fn lemma_uniform_snap_y(s: &Screenshot, y: int, x_start: int, x_end: int, dir: int)
    requires
        s.wf(),
        s.uniform_luminance(),
        0 <= y < s.height,
        0 <= x_start <= x_end < s.width,
    ensures
        snap_y_spec(s, y, x_start, x_end, dir) == y,
{
    lemma_uniform_no_best_snap_y(s, y, dir, x_start, x_end);
}

proof fn lemma_best_snap_x_outermost(s: &Screenshot, x: int, y_start: int, y_end: int, dir: int, y: int, e: int)
    requires
        dir == 1 || dir == -1,
        y_start <= y <= y_end,
        first_snap_hit_h(s, x, y, dir, SNAP_THRESHOLD as int, 1) == Some(e),
    ensures
        best_snap_x(s, x, dir, y_start, y_end) is Some,
        dir == 1 ==> best_snap_x(s, x, dir, y_start, y_end)->Some_0 <= e,
        dir == -1 ==> best_snap_x(s, x, dir, y_start, y_end)->Some_0 >= e,
    decreases y_end - y_start + 1,
{
    if y < y_end {
        lemma_best_snap_x_outermost(s, x, y_start, y_end - 1, dir, y, e);
    }
}

proof fn lemma_best_snap_y_outermost(s: &Screenshot, y: int, x_start: int, x_end: int, dir: int, x: int, e: int)
    requires
        dir == 1 || dir == -1,
        x_start <= x <= x_end,
        first_snap_hit_v(s, x, y, dir, SNAP_THRESHOLD as int, 1) == Some(e),
    ensures
        best_snap_y(s, y, dir, x_start, x_end) is Some,
        dir == 1 ==> best_snap_y(s, y, dir, x_start, x_end)->Some_0 <= e,
        dir == -1 ==> best_snap_y(s, y, dir, x_start, x_end)->Some_0 >= e,
    decreases x_end - x_start + 1,
{
    if x < x_end {
        lemma_best_snap_y_outermost(s, y, x_start, x_end - 1, dir, x, e);
    }
}

/// Law: the snap of a vertical edge aggregates the per-line hits by keeping
/// the outermost one.  When any sample line in `y_start ..= y_end` hits, the
/// snapped coordinate is itself one of the line hits, no larger than every
/// hit in the positive direction and no smaller than every hit in the
/// negative direction.
pub proof fn lemma_snap_x_aggregation(s: &Screenshot, x: int, y_start: int, y_end: int, dir: int)
    requires
        dir == 1 || dir == -1,
        y_start <= y_end,
        exists|y: int|
            y_start <= y <= y_end && (#[trigger] first_snap_hit_h(
                s,
                x,
                y,
                dir,
                SNAP_THRESHOLD as int,
                1,
            )) is Some,
    ensures
        exists|y: int|
            y_start <= y <= y_end && #[trigger] first_snap_hit_h(
                s,
                x,
                y,
                dir,
                SNAP_THRESHOLD as int,
                1,
            ) == Some(snap_x_spec(s, x, y_start, y_end, dir)),
        forall|y: int|
            y_start <= y <= y_end && (#[trigger] first_snap_hit_h(
                s,
                x,
                y,
                dir,
                SNAP_THRESHOLD as int,
                1,
            )) is Some ==> if dir == 1 {
                snap_x_spec(s, x, y_start, y_end, dir) <= first_snap_hit_h(
                    s,
                    x,
                    y,
                    dir,
                    SNAP_THRESHOLD as int,
                    1,
                )->Some_0
            } else {
                snap_x_spec(s, x, y_start, y_end, dir) >= first_snap_hit_h(
                    s,
                    x,
                    y,
                    dir,
                    SNAP_THRESHOLD as int,
                    1,
                )->Some_0
            },
{
    let yw = choose|y: int|
        y_start <= y <= y_end && (#[trigger] first_snap_hit_h(
            s,
            x,
            y,
            dir,
            SNAP_THRESHOLD as int,
            1,
        )) is Some;
    let ew = first_snap_hit_h(s, x, yw, dir, SNAP_THRESHOLD as int, 1)->Some_0;
    lemma_best_snap_x_outermost(s, x, y_start, y_end, dir, yw, ew);
    lemma_best_snap_x_is_hit(s, x, y_start, y_end, dir);
    assert forall|y: int|
        y_start <= y <= y_end && (#[trigger] first_snap_hit_h(
            s,
            x,
            y,
            dir,
            SNAP_THRESHOLD as int,
            1,
        )) is Some implies if dir == 1 {
        snap_x_spec(s, x, y_start, y_end, dir) <= first_snap_hit_h(
            s,
            x,
            y,
            dir,
            SNAP_THRESHOLD as int,
            1,
        )->Some_0
    } else {
        snap_x_spec(s, x, y_start, y_end, dir) >= first_snap_hit_h(
            s,
            x,
            y,
            dir,
            SNAP_THRESHOLD as int,
            1,
        )->Some_0
    } by {
        let e = first_snap_hit_h(s, x, y, dir, SNAP_THRESHOLD as int, 1)->Some_0;
        lemma_best_snap_x_outermost(s, x, y_start, y_end, dir, y, e);
    }
}

proof fn lemma_best_snap_x_is_hit(s: &Screenshot, x: int, y_start: int, y_end: int, dir: int)
    requires
        best_snap_x(s, x, dir, y_start, y_end) is Some,
    ensures
        exists|y: int|
            y_start <= y <= y_end && #[trigger] first_snap_hit_h(
                s,
                x,
                y,
                dir,
                SNAP_THRESHOLD as int,
                1,
            ) == Some(best_snap_x(s, x, dir, y_start, y_end)->Some_0),
    decreases y_end - y_start + 1,
{
    let b = best_snap_x(s, x, dir, y_start, y_end)->Some_0;
    let prev = best_snap_x(s, x, dir, y_start, y_end - 1);
    let cur = first_snap_hit_h(s, x, y_end, dir, SNAP_THRESHOLD as int, 1);
    if cur == Some(b) {
        assert(y_start <= y_end <= y_end && first_snap_hit_h(
            s,
            x,
            y_end,
            dir,
            SNAP_THRESHOLD as int,
            1,
        ) == Some(b));
    } else {
        assert(prev == Some(b));
        lemma_best_snap_x_is_hit(s, x, y_start, y_end - 1, dir);
    }
}

proof fn lemma_best_snap_y_is_hit(s: &Screenshot, y: int, x_start: int, x_end: int, dir: int)
    requires
        best_snap_y(s, y, dir, x_start, x_end) is Some,
    ensures
        exists|x: int|
            x_start <= x <= x_end && #[trigger] first_snap_hit_v(
                s,
                x,
                y,
                dir,
                SNAP_THRESHOLD as int,
                1,
            ) == Some(best_snap_y(s, y, dir, x_start, x_end)->Some_0),
    decreases x_end - x_start + 1,
{
    let b = best_snap_y(s, y, dir, x_start, x_end)->Some_0;
    let prev = best_snap_y(s, y, dir, x_start, x_end - 1);
    let cur = first_snap_hit_v(s, x_end, y, dir, SNAP_THRESHOLD as int, 1);
    if cur == Some(b) {
        assert(x_start <= x_end <= x_end && first_snap_hit_v(
            s,
            x_end,
            y,
            dir,
            SNAP_THRESHOLD as int,
            1,
        ) == Some(b));
    } else {
        assert(prev == Some(b));
        lemma_best_snap_y_is_hit(s, y, x_start, x_end - 1, dir);
    }
}

/// Law: the snap of a horizontal edge aggregates the per-line hits by keeping
/// the outermost one, as `lemma_snap_x_aggregation` states for vertical edges.
pub proof fn lemma_snap_y_aggregation(s: &Screenshot, y: int, x_start: int, x_end: int, dir: int)
    requires
        dir == 1 || dir == -1,
        x_start <= x_end,
        exists|x: int|
            x_start <= x <= x_end && (#[trigger] first_snap_hit_v(
                s,
                x,
                y,
                dir,
                SNAP_THRESHOLD as int,
                1,
            )) is Some,
    ensures
        exists|x: int|
            x_start <= x <= x_end && #[trigger] first_snap_hit_v(
                s,
                x,
                y,
                dir,
                SNAP_THRESHOLD as int,
                1,
            ) == Some(snap_y_spec(s, y, x_start, x_end, dir)),
        forall|x: int|
            x_start <= x <= x_end && (#[trigger] first_snap_hit_v(
                s,
                x,
                y,
                dir,
                SNAP_THRESHOLD as int,
                1,
            )) is Some ==> if dir == 1 {
                snap_y_spec(s, y, x_start, x_end, dir) <= first_snap_hit_v(
                    s,
                    x,
                    y,
                    dir,
                    SNAP_THRESHOLD as int,
                    1,
                )->Some_0
            } else {
                snap_y_spec(s, y, x_start, x_end, dir) >= first_snap_hit_v(
                    s,
                    x,
                    y,
                    dir,
                    SNAP_THRESHOLD as int,
                    1,
                )->Some_0
            },
{
    let xw = choose|x: int|
        x_start <= x <= x_end && (#[trigger] first_snap_hit_v(
            s,
            x,
            y,
            dir,
            SNAP_THRESHOLD as int,
            1,
        )) is Some;
    let ew = first_snap_hit_v(s, xw, y, dir, SNAP_THRESHOLD as int, 1)->Some_0;
    lemma_best_snap_y_outermost(s, y, x_start, x_end, dir, xw, ew);
    lemma_best_snap_y_is_hit(s, y, x_start, x_end, dir);
    assert forall|x: int|
        x_start <= x <= x_end && (#[trigger] first_snap_hit_v(
            s,
            x,
            y,
            dir,
            SNAP_THRESHOLD as int,
            1,
        )) is Some implies if dir == 1 {
        snap_y_spec(s, y, x_start, x_end, dir) <= first_snap_hit_v(
            s,
            x,
            y,
            dir,
            SNAP_THRESHOLD as int,
            1,
        )->Some_0
    } else {
        snap_y_spec(s, y, x_start, x_end, dir) >= first_snap_hit_v(
            s,
            x,
            y,
            dir,
            SNAP_THRESHOLD as int,
            1,
        )->Some_0
    } by {
        let e = first_snap_hit_v(s, x, y, dir, SNAP_THRESHOLD as int, 1)->Some_0;
        lemma_best_snap_y_outermost(s, y, x_start, x_end, dir, x, e);
    }
}

} // verus!
