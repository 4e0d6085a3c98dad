//! Where the companion's window goes: hidden at a screen edge, peeking out,
//! revealed again, re-anchored after a resize, placed at start-up, and which
//! window layer it keeps. Coordinates are physical pixels.

use vstd::prelude::*;

verus! {

/// Logical width left showing when the pet hides at an edge.
pub const EDGE_PEEK_WIDTH: u32 = 58;

/// Logical width showing while the pointer hovers a hidden pet.
pub const EDGE_HOVER_WIDTH: u32 = 176;

/// How close to an edge, in pixels, a dropped pet must be to hide there.
pub const EDGE_SNAP_PIXELS: i32 = 32;

/// Gap kept between the pet and the right edge of the work area at start-up.
pub const START_RIGHT_GAP: i32 = 28;

/// Walking speed, in pixels per second, of a pet coming back from an edge.
pub const REVEAL_WALK_SPEED: i32 = 34;

/// Horizontal speed, in pixels per second, of a jump off a wall.
pub const WALL_JUMP_SPEED: i32 = 240;

/// A monitor's work area: its position and size.
#[derive(Clone, Copy, Debug)]
pub struct WorkArea {
    pub x: i32,
    pub y: i32,
    pub width: u32,
    pub height: u32,
}

/// The value is a 32-bit signed integer.
pub open spec fn fits_i32(v: int) -> bool {
    i32::MIN <= v <= i32::MAX
}

/// A size read as a signed coordinate, as `u32 as i32` does.
pub open spec fn signed(v: u32) -> int {
    (v as i32) as int
}

/// The right edge of a work area.
pub open spec fn area_right(area: WorkArea) -> int {
    area.x + signed(area.width)
}

/// The bottom edge of a work area.
pub open spec fn area_bottom(area: WorkArea) -> int {
    area.y + signed(area.height)
}

/// The window's left edge when it sits at the edge `side` (negative: left)
/// with `visible` pixels showing.
pub open spec fn edge_x_spec(side: i64, area: WorkArea, window_width: u32, visible: i32) -> int {
    if side < 0 {
        area.x - signed(window_width) + visible
    } else {
        area_right(area) - visible
    }
}

/// The steps of `edge_x_spec` stay within 32 bits.
pub open spec fn edge_x_in_range(side: i64, area: WorkArea, window_width: u32, visible: i32) -> bool {
    if side < 0 {
        fits_i32(area.x - signed(window_width)) && fits_i32(
            area.x - signed(window_width) + visible,
        )
    } else {
        fits_i32(area_right(area)) && fits_i32(area_right(area) - visible)
    }
}

/// The window's left edge when it sits at the edge `side` (negative: left)
/// of the work area with `visible` pixels showing.
pub fn edge_position(side: i64, area: WorkArea, window_width: u32, visible: i32) -> (r: i32)
    requires
        edge_x_in_range(side, area, window_width, visible),
    ensures
        r == edge_x_spec(side, area, window_width, visible),
{
    if side < 0 {
        area.x - (window_width as i32) + visible
    } else {
        area.x + (area.width as i32) - visible
    }
}

/// The logical width left showing by a pet hidden at an edge: wider while
/// the pointer hovers it.
pub fn peek_width(expanded: bool) -> (r: u32)
    ensures
        r == (if expanded { EDGE_HOVER_WIDTH } else { EDGE_PEEK_WIDTH }),
{
    if expanded {
        EDGE_HOVER_WIDTH
    } else {
        EDGE_PEEK_WIDTH
    }
}

/// Where a pet hidden at an edge comes back to, and how it starts walking.
#[derive(Clone, Copy, Debug)]
pub struct Reveal {
    /// The window's new left edge.
    pub x: i32,
    /// Horizontal speed, away from the edge, in pixels per second.
    pub walk_speed: i32,
}

/// The left edge of a window flush against the edge `side` inside the area.
pub open spec fn reveal_x_spec(side: i64, area: WorkArea, window_width: u32) -> int {
    if side < 0 {
        area.x as int
    } else {
        area_right(area) - signed(window_width)
    }
}

/// The steps of `reveal_x_spec` stay within 32 bits.
pub open spec fn reveal_in_range(side: i64, area: WorkArea, window_width: u32) -> bool {
    side >= 0 ==> fits_i32(area_right(area)) && fits_i32(area_right(area) - signed(window_width))
}

/// Brings a pet hidden at the edge `side` fully back into the work area:
/// nothing when it is not hidden (`side == 0`), else flush with that edge and
/// walking away from it.
pub fn reveal_from_edge(side: i64, area: WorkArea, window_width: u32) -> (r: Option<Reveal>)
    requires
        reveal_in_range(side, area, window_width),
    ensures
        side == 0 ==> r is None,
        side != 0 ==> (r matches Some(v) && v.x == reveal_x_spec(side, area, window_width)
            && v.walk_speed == (if side < 0 { REVEAL_WALK_SPEED as int } else { -REVEAL_WALK_SPEED })),
{
    if side == 0 {
        return None;
    }
    if side < 0 {
        Some(Reveal { x: area.x, walk_speed: REVEAL_WALK_SPEED })
    } else {
        Some(
            Reveal {
                x: area.x + (area.width as i32) - (window_width as i32),
                walk_speed: -REVEAL_WALK_SPEED,
            },
        )
    }
}

/// Where a pet dropped near an edge hides.
#[derive(Clone, Copy, Debug)]
pub struct EdgeHide {
    /// The edge: -1 for the left one, 1 for the right one.
    pub side: i64,
    /// The window's new left edge.
    pub x: i32,
}

/// Distance from the window's left edge to the area's left edge.
pub open spec fn left_gap(window_x: i32, area: WorkArea) -> int {
    let d = window_x - area.x;
    if d < 0 { -d } else { d }
}

/// Distance from the window's right edge to the area's right edge.
pub open spec fn right_gap(window_x: i32, window_width: u32, area: WorkArea) -> int {
    let d = area_right(area) - window_x - signed(window_width);
    if d < 0 { -d } else { d }
}

/// The steps of the edge test and of the hidden position stay within 32 bits.
pub open spec fn hide_in_range(window_x: i32, window_width: u32, area: WorkArea, reveal: i32) -> bool {
    &&& fits_i32(window_x - area.x) && (window_x - area.x) != i32::MIN
    &&& fits_i32(area_right(area))
    &&& fits_i32(area_right(area) - window_x)
    &&& fits_i32(area_right(area) - window_x - signed(window_width))
    &&& (area_right(area) - window_x - signed(window_width)) != i32::MIN
    &&& left_gap(window_x, area) <= EDGE_SNAP_PIXELS ==> edge_x_in_range(
        -1i64,
        area,
        window_width,
        reveal,
    )
    &&& left_gap(window_x, area) > EDGE_SNAP_PIXELS && right_gap(window_x, window_width, area)
        <= EDGE_SNAP_PIXELS ==> edge_x_in_range(1i64, area, window_width, reveal)
}

/// Where a window at `window_x` hides: at the left edge when within 32
/// pixels of it, else at the right edge when within 32 pixels of that,
/// with `reveal` pixels showing; `None` when it is near neither.
pub open spec fn hide_target(window_x: i32, window_width: u32, area: WorkArea, reveal: i32) -> Option<(i64, int)> {
    if left_gap(window_x, area) <= EDGE_SNAP_PIXELS {
        Some((-1i64, edge_x_spec(-1i64, area, window_width, reveal)))
    } else if right_gap(window_x, window_width, area) <= EDGE_SNAP_PIXELS {
        Some((1i64, edge_x_spec(1i64, area, window_width, reveal)))
    } else {
        None
    }
}

/// Decides whether a pet released at `window_x` hides at an edge of the work
/// area, and where, leaving `reveal` pixels showing.
pub fn hide_near_screen_edge(window_x: i32, window_width: u32, area: WorkArea, reveal: i32) -> (r: Option<EdgeHide>)
    requires
        hide_in_range(window_x, window_width, area, reveal),
    ensures
        match hide_target(window_x, window_width, area, reveal) {
            Some((side, x)) => (r matches Some(h) && h.side == side && h.x == x),
            None => r is None,
        },
{
    let left_offset = window_x - area.x;
    let left_distance = if left_offset < 0 { -left_offset } else { left_offset };
    let right_of_area = area.x + (area.width as i32);
    let right_offset = right_of_area - window_x - (window_width as i32);
    let right_distance = if right_offset < 0 { -right_offset } else { right_offset };
    if left_distance <= EDGE_SNAP_PIXELS {
        Some(EdgeHide { side: -1, x: edge_position(-1, area, window_width, reveal) })
    } else if right_distance <= EDGE_SNAP_PIXELS {
        Some(EdgeHide { side: 1, x: edge_position(1, area, window_width, reveal) })
    } else {
        None
    }
}

/// The smaller of two integers.
pub open spec fn min_int(a: int, b: int) -> int {
    if a <= b { a } else { b }
}

/// The larger of two integers.
pub open spec fn max_int(a: int, b: int) -> int {
    if a >= b { a } else { b }
}

/// `v.clamp(lo, hi)` for `lo <= hi`.
pub open spec fn clamp_int(v: int, lo: int, hi: int) -> int {
    if v < lo { lo } else if v > hi { hi } else { v }
}

/// A window position.
#[derive(Clone, Copy, Debug)]
pub struct Position {
    pub x: i32,
    pub y: i32,
}

/// One coordinate of the window's corner after a resize that keeps its
/// bottom-right corner in place, before keeping it on screen: the old
/// coordinate plus the old extent minus the new one, along that axis.
pub open spec fn anchored_coordinate(old: i32, old_extent: u32, new_extent: i32) -> int {
    old + signed(old_extent) - new_extent
}

/// Keeps a coordinate between `margin` from the area's near edge and
/// `margin` from its far edge, the near bound winning when the window does
/// not fit.
pub open spec fn keep_on_screen(v: int, start: i32, length: u32, size: i32, margin: i32) -> int {
    let lo = start + margin;
    let hi = start + signed(length) - size - margin;
    clamp_int(v, lo, max_int(hi, lo))
}

/// The steps of the re-anchoring stay within 32 bits.
pub open spec fn anchor_in_range(
    old: Position,
    old_width: u32,
    old_height: u32,
    new_width: i32,
    new_height: i32,
    area: Option<WorkArea>,
    margin: i32,
) -> bool {
    &&& fits_i32(old.x + signed(old_width)) && fits_i32(anchored_coordinate(old.x, old_width, new_width))
    &&& fits_i32(old.y + signed(old_height)) && fits_i32(anchored_coordinate(old.y, old_height, new_height))
    &&& (area matches Some(a) ==> {
        &&& fits_i32(a.x + margin) && fits_i32(a.y + margin)
        &&& fits_i32(area_right(a)) && fits_i32(area_right(a) - new_width)
        &&& fits_i32(area_right(a) - new_width - margin)
        &&& fits_i32(area_bottom(a)) && fits_i32(area_bottom(a) - new_height)
        &&& fits_i32(area_bottom(a) - new_height - margin)
    })
}

fn clamp_i32(v: i32, lo: i32, hi: i32) -> (r: i32)
    requires
        lo <= hi,
    ensures
        r == clamp_int(v as int, lo as int, hi as int),
{
    if v < lo {
        lo
    } else if v > hi {
        hi
    } else {
        v
    }
}

/// The window's position after it was resized from `old_width` by
/// `old_height` to `new_width` by `new_height`: its bottom-right corner stays
/// where it was, then, when the monitor's work area is known, the window is
/// kept `margin` pixels inside it.
pub fn resize_anchored(
    old: Position,
    old_width: u32,
    old_height: u32,
    new_width: i32,
    new_height: i32,
    area: Option<WorkArea>,
    margin: i32,
) -> (r: Position)
    requires
        anchor_in_range(old, old_width, old_height, new_width, new_height, area, margin),
    ensures
        match area {
            None => r.x == anchored_coordinate(old.x, old_width, new_width) && r.y == anchored_coordinate(
                old.y,
                old_height,
                new_height,
            ),
            Some(a) => r.x == keep_on_screen(
                anchored_coordinate(old.x, old_width, new_width),
                a.x,
                a.width,
                new_width,
                margin,
            ) && r.y == keep_on_screen(
                anchored_coordinate(old.y, old_height, new_height),
                a.y,
                a.height,
                new_height,
                margin,
            ),
        },
{
    let x = old.x + (old_width as i32) - new_width;
    let y = old.y + (old_height as i32) - new_height;
    match area {
        None => Position { x, y },
        Some(a) => {
            let min_x = a.x + margin;
            let min_y = a.y + margin;
            let max_x = a.x + (a.width as i32) - new_width - margin;
            let max_y = a.y + (a.height as i32) - new_height - margin;
            let hi_x = if max_x >= min_x { max_x } else { min_x };
            let hi_y = if max_y >= min_y { max_y } else { min_y };
            Position { x: clamp_i32(x, min_x, hi_x), y: clamp_i32(y, min_y, hi_y) }
        },
    }
}

/// The start-up position: bottom of the work area, 28 pixels from its right
/// edge, for a window of `width` by `height` pixels.
pub open spec fn start_position(area: WorkArea, width: i32, height: i32) -> (int, int) {
    (area_right(area) - width - START_RIGHT_GAP, area_bottom(area) - height)
}

/// The steps of `start_position` stay within 32 bits.
pub open spec fn start_in_range(area: WorkArea, width: i32, height: i32) -> bool {
    &&& fits_i32(area_right(area)) && fits_i32(area_right(area) - width)
    &&& fits_i32(area_right(area) - width - START_RIGHT_GAP)
    &&& fits_i32(area_bottom(area)) && fits_i32(area_bottom(area) - height)
}

/// Where the pet appears at start-up: on the bottom of the work area, near
/// its right edge.
pub fn ready_position(area: WorkArea, width: i32, height: i32) -> (r: Position)
    requires
        start_in_range(area, width, height),
    ensures
        r.x == start_position(area, width, height).0,
        r.y == start_position(area, width, height).1,
{
    Position {
        x: area.x + (area.width as i32) - width - START_RIGHT_GAP,
        y: area.y + (area.height as i32) - height,
    }
}

/// The window layer that the pet keeps.
#[derive(PartialEq, Eq, Structural, Clone, Copy, Debug)]
pub enum WindowLayer {
    /// Above other windows: not on the bottom, then on top.
    AlwaysOnTop,
    /// On the desktop: not on top, then on the bottom.
    AlwaysOnBottom,
}

/// The layer of the pet: on the desktop in desktop mode, else on top.
pub fn window_level(desktop_level: bool) -> (r: WindowLayer)
    ensures
        r == (if desktop_level { WindowLayer::AlwaysOnBottom } else { WindowLayer::AlwaysOnTop }),
{
    if desktop_level {
        WindowLayer::AlwaysOnBottom
    } else {
        WindowLayer::AlwaysOnTop
    }
}

/// The layer of the pet given focus: in desktop mode it comes forward while
/// focused and returns to the desktop when it loses focus.
pub fn focus_aware_window_level(desktop_level: bool, focused: bool) -> (r: WindowLayer)
    ensures
        r == (if desktop_level && !focused {
            WindowLayer::AlwaysOnBottom
        } else {
            WindowLayer::AlwaysOnTop
        }),
{
    if desktop_level && focused {
        WindowLayer::AlwaysOnTop
    } else {
        window_level(desktop_level)
    }
}

/// The horizontal speed of a jump: away from the wall the pet clings to
/// (`1`: a wall on its right, `-1`: on its left), or `None` to keep its speed.
pub fn wall_jump_speed(wall_side: i8) -> (r: Option<i32>)
    ensures
        r == (if wall_side == 1 {
            Some(-WALL_JUMP_SPEED as i32)
        } else if wall_side == -1 {
            Some(WALL_JUMP_SPEED as i32)
        } else {
            None::<i32>
        }),
{
    match wall_side {
        1 => Some(-WALL_JUMP_SPEED),
        -1 => Some(WALL_JUMP_SPEED),
        _ => None,
    }
}

/// How long, in milliseconds, a drag that has not moved is waited for.
pub const DRAG_START_GRACE_MS: i64 = 3_000;

/// How long, in milliseconds, a drag must stay still to count as finished.
pub const DRAG_IDLE_MS: i64 = 240;

/// A drag that began at `started` and last moved at `last_move` (a time not
/// after `started` meaning it never moved) is over at `now`: unmoved for 3
/// seconds, or moved and then still for 240 milliseconds.
pub open spec fn drag_over(started: i64, last_move: i64, now: i64) -> bool {
    if last_move > started {
        now - last_move >= DRAG_IDLE_MS
    } else {
        now - started >= DRAG_START_GRACE_MS
    }
}

/// Whether a drag is over, as `drag_over` says.
pub fn drag_settled(started: i64, last_move: i64, now: i64) -> (r: bool)
    requires
        last_move > started ==> fits_i64(now - last_move),
        last_move <= started ==> fits_i64(now - started),
    ensures
        r == drag_over(started, last_move, now),
{
    let has_moved = last_move > started;
    let waiting = (!has_moved && now - started < DRAG_START_GRACE_MS) || (has_moved && now
        - last_move < DRAG_IDLE_MS);
    !waiting
}

/// The value is a 64-bit signed integer.
pub open spec fn fits_i64(v: int) -> bool {
    i64::MIN <= v <= i64::MAX
}


/// A pet hidden at an edge leaves exactly `reveal` pixels of its window
/// inside the work area, and sits where the edge position for that side puts
/// it, so peeking with the same width leaves it in place.
pub proof fn lemma_hidden_strip(window_x: i32, window_width: u32, area: WorkArea, reveal: i32)
    ensures
        match hide_target(window_x, window_width, area, reveal) {
            Some((side, x)) => {
                &&& side == -1 ==> x + signed(window_width) - area.x == reveal
                &&& side == 1 ==> area_right(area) - x == reveal
                &&& x == edge_x_spec(side, area, window_width, reveal)
            },
            None => left_gap(window_x, area) > EDGE_SNAP_PIXELS && right_gap(
                window_x,
                window_width,
                area,
            ) > EDGE_SNAP_PIXELS,
        },
{
}

/// A revealed pet is flush with the edge it hid at and, when it is no wider
/// than the work area, lies entirely inside it.
pub proof fn lemma_reveal_inside(side: i64, area: WorkArea, window_width: u32)
    requires
        side != 0,
        0 <= signed(window_width) <= signed(area.width),
    ensures
        area.x <= reveal_x_spec(side, area, window_width),
        reveal_x_spec(side, area, window_width) + signed(window_width) <= area_right(area),
        side < 0 ==> reveal_x_spec(side, area, window_width) == area.x,
        side > 0 ==> reveal_x_spec(side, area, window_width) + signed(window_width) == area_right(
            area,
        ),
{
}

/// A resize keeps the window's bottom-right corner where it was when no work
/// area is known; with one, a window that fits with its margins ends up inside
/// them, and one already inside them keeps its bottom-right corner.
pub proof fn lemma_resize_anchored(
    v: int,
    start: i32,
    length: u32,
    size: i32,
    margin: i32,
)
    requires
        size + 2 * margin <= signed(length),
    ensures
        start + margin <= keep_on_screen(v, start, length, size, margin),
        keep_on_screen(v, start, length, size, margin) + size + margin <= start + signed(length),
        start + margin <= v && v + size + margin <= start + signed(length) ==> keep_on_screen(
            v,
            start,
            length,
            size,
            margin,
        ) == v,
{
}

/// Once a drag is over it stays over as time goes on, and an unmoved drag is
/// waited for its whole grace period.
pub proof fn lemma_drag_over_monotonic(started: i64, last_move: i64, now: i64, later: i64)
    requires
        now <= later,
    ensures
        drag_over(started, last_move, now) ==> drag_over(started, last_move, later),
        last_move <= started && now - started < DRAG_START_GRACE_MS ==> !drag_over(
            started,
            last_move,
            now,
        ),
{
}


/// A window at an edge leaves exactly `visible` pixels inside the work area:
/// at the left edge its right edge is `visible` past the area's left edge, at
/// the right edge its left edge is `visible` before the area's right edge.
pub proof fn lemma_edge_position_visible(side: i64, area: WorkArea, window_width: u32, visible: i32)
    ensures
        side < 0 ==> edge_x_spec(side, area, window_width, visible) + (window_width as i32) - area.x
            == visible,
        side >= 0 ==> area.x + (area.width as i32) - edge_x_spec(side, area, window_width, visible)
            == visible,
{
}

/// A pet released within 32 pixels of the work area's left edge hides there;
/// otherwise one within 32 pixels of its right edge hides there; otherwise it
/// stays. At the left edge `reveal` pixels of its right side show, at the
/// right edge `reveal` pixels of its left side.
pub proof fn lemma_hide_near_edges(window_x: i32, window_width: u32, area: WorkArea, reveal: i32)
    ensures
        ({
            let left = if window_x >= area.x { window_x - area.x } else { area.x - window_x };
            let right_gap_raw = area.x + (area.width as i32) - window_x - (window_width as i32);
            let right = if right_gap_raw >= 0 { right_gap_raw } else { -right_gap_raw };
            &&& left <= 32 ==> hide_target(window_x, window_width, area, reveal) == Some(
                (-1i64, area.x - (window_width as i32) + reveal),
            )
            &&& left > 32 && right <= 32 ==> hide_target(window_x, window_width, area, reveal)
                == Some((1i64, area.x + (area.width as i32) - reveal))
            &&& left > 32 && right > 32 ==> hide_target(window_x, window_width, area, reveal)
                is None
        }),
{
}

/// At start-up the window's bottom edge lies on the work area's bottom edge
/// and its right edge 28 pixels left of the area's right edge.
pub proof fn lemma_start_position(area: WorkArea, width: i32, height: i32)
    ensures
        start_position(area, width, height).0 + width + 28 == area.x + (area.width as i32),
        start_position(area, width, height).1 + height == area.y + (area.height as i32),
{
}

/// Without a known work area a resize keeps the window's bottom-right
/// corner: the new corner plus the new size is the old corner plus the old
/// size.
pub proof fn lemma_anchored_corner(old: i32, old_extent: u32, new_extent: i32)
    ensures
        anchored_coordinate(old, old_extent, new_extent) + new_extent == old + (old_extent as i32),
{
}

/// Keeping a window on screen clamps its coordinate between the near bound
/// `start + margin` and the far bound `start + length - size - margin` (the
/// near one when they cross): a coordinate before the near bound moves to it,
/// one past the far bound moves to the far bound, one between them stays.
pub proof fn lemma_keep_on_screen_clamps(v: int, start: i32, length: u32, size: i32, margin: i32)
    ensures
        ({
            let lo = start + margin;
            let far = start + signed(length) - size - margin;
            let hi = if far >= lo { far } else { lo };
            &&& v < lo ==> keep_on_screen(v, start, length, size, margin) == lo
            &&& v > hi ==> keep_on_screen(v, start, length, size, margin) == hi
            &&& lo <= v <= hi ==> keep_on_screen(v, start, length, size, margin) == v
            &&& lo <= keep_on_screen(v, start, length, size, margin) <= hi
        }),
{
}

/// A drag is over exactly when it never moved and began at least 3 seconds
/// ago, or when it moved and has then been still for at least 240
/// milliseconds; a drag that moved less than 240 milliseconds ago goes on
/// however long ago it began.
pub proof fn lemma_drag_over_exactly(started: i64, last_move: i64, now: i64)
    ensures
        last_move > started && now - last_move < 240 ==> !drag_over(started, last_move, now),
        last_move > started && now - last_move >= 240 ==> drag_over(started, last_move, now),
        last_move <= started && now - started < 3000 ==> !drag_over(started, last_move, now),
        last_move <= started && now - started >= 3000 ==> drag_over(started, last_move, now),
{
}

} // verus!
