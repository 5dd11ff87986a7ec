//! On-screen strip of minimized windows.
//!
//! Minimized windows are taken out of the layout entirely. The strip shows a small thumbnail of
//! each one in a corner of every output, and clicking a thumbnail restores that window.
//!
//! The strip is stateless: its geometry is recomputed on every render and on every hit test, by
//! the same function, so the two can't drift apart.
//!
//! Positions and sizes on an output are integers in *strip units*: one physical pixel is 240
//! units, and at the scale `n120 / 120` one logical pixel is `2 * n120` units. Every coordinate of
//! the strip is a whole number of units, in physical and in logical pixels alike.

use vstd::prelude::*;

use crate::utils::geometry::{FractionalScale, LogicalLength, Point, Rectangle, Size};
use crate::utils::ratio::{
    round_div, round_div_signed, rounded, rounded_away, rounded_is_nearest, Ratio,
};

verus! {

/// A length of so many physical pixels, in strip units.
pub open spec fn units(pixels: int) -> int {
    240 * pixels
}

/// Converts physical pixels to strip units.
fn to_units(pixels: i64) -> (length: i64)
    requires
        -0x10_0000_0000 <= pixels <= 0x10_0000_0000,
    ensures
        length == units(pixels as int),
{
    240 * pixels
}

/// Identifies a mapped window.
#[derive(Debug, Clone, Copy, PartialEq, Eq, Structural)]
pub struct MappedId(pub u64);

/// The output corner that the strip sits in.
#[derive(Debug, Clone, Copy, PartialEq, Eq, Structural)]
pub enum MinimizedPosition {
    TopLeft,
    TopRight,
    BottomLeft,
    BottomRight,
}

impl MinimizedPosition {
    pub open spec fn top(self) -> bool {
        self is TopLeft || self is TopRight
    }

    pub open spec fn left(self) -> bool {
        self is TopLeft || self is BottomLeft
    }

    pub fn is_top(&self) -> (top: bool)
        ensures
            top == self.top(),
    {
        matches!(self, MinimizedPosition::TopLeft | MinimizedPosition::TopRight)
    }

    pub fn is_left(&self) -> (left: bool)
        ensures
            left == self.left(),
    {
        matches!(self, MinimizedPosition::TopLeft | MinimizedPosition::BottomLeft)
    }
}

/// Configuration of the strip.
#[derive(Debug, Clone, Copy, PartialEq, Eq)]
pub struct MinimizedWindows {
    /// The strip is not shown at all.
    pub off: bool,
    pub position: MinimizedPosition,
    /// Length of the longer side of a thumbnail.
    pub size: LogicalLength,
    /// Gap between thumbnails, and between the strip and the output edges.
    pub gaps: LogicalLength,
}

impl MinimizedWindows {
    /// The lengths are fractions.
    pub open spec fn wf(self) -> bool {
        self.size.den > 0 && self.gaps.den > 0
    }
}

/// Placement of one minimized window's thumbnail.
#[derive(Debug, Clone, Copy, PartialEq, Eq)]
pub struct ThumbnailGeo {
    pub id: MappedId,
    /// Where the thumbnail goes, in strip units from the output's top-left corner.
    pub geo: Rectangle<i64>,
    /// Logical size of the window itself, which the thumbnail is a scaled-down copy of.
    pub window_size: Size<i32>,
}

/// The windows that can have a thumbnail, in order: those with a positive size.
pub open spec fn showable(windows: Seq<(MappedId, Size<i32>)>) -> Seq<(MappedId, Size<i32>)>
    decreases windows.len(),
{
    if windows.len() == 0 {
        windows
    } else {
        let rest = showable(windows.drop_last());
        let last = windows.last();
        if last.1.w > 0 && last.1.h > 0 {
            rest.push(last)
        } else {
            rest
        }
    }
}

/// The longer side of a window.
pub open spec fn longer_side(window: Size<i32>) -> int {
    if window.w >= window.h {
        window.w as int
    } else {
        window.h as int
    }
}

/// Size of a window's thumbnail in physical pixels: the window fitted into a square of `size`
/// pixels without distorting it.
pub open spec fn thumbnail_pixels(window: Size<i32>, size: int) -> Size<int> {
    Size {
        w: rounded(size * window.w, longer_side(window)),
        h: rounded(size * window.h, longer_side(window)),
    }
}

/// Distance in pixels from the left edge of the strip to the left edge of thumbnail `i`.
pub open spec fn thumbnail_offset(
    shown: Seq<(MappedId, Size<i32>)>,
    size: int,
    gaps: int,
    i: int,
) -> int
    decreases i,
{
    if i <= 0 {
        0
    } else {
        thumbnail_offset(shown, size, gaps, i - 1) + thumbnail_pixels(shown[i - 1].1, size).w + gaps
    }
}

/// Width in pixels of a strip of the first `count` thumbnails, without its margins.
pub open spec fn strip_width(
    shown: Seq<(MappedId, Size<i32>)>,
    size: int,
    gaps: int,
    count: int,
) -> int {
    if count <= 0 {
        0
    } else {
        thumbnail_offset(shown, size, gaps, count - 1) + thumbnail_pixels(shown[count - 1].1, size).w
    }
}

/// Whether a strip of the first `count` thumbnails fits across the output, with a gap to either
/// edge.
pub open spec fn strip_fits(
    shown: Seq<(MappedId, Size<i32>)>,
    size: int,
    gaps: int,
    output_width: int,
    count: int,
) -> bool {
    count <= 0 || strip_width(shown, size, gaps, count) + 2 * gaps <= output_width
}

/// Whether a row of thumbnails fits the height of the output, with a gap to either edge.
pub open spec fn row_fits(size: int, gaps: int, output_height: int) -> bool {
    size + 2 * gaps <= output_height
}

/// The placement of thumbnail `i` in a strip of `count` thumbnails.
pub open spec fn placement(
    shown: Seq<(MappedId, Size<i32>)>,
    size: int,
    gaps: int,
    position: MinimizedPosition,
    output: Size<i32>,
    count: int,
    i: int,
) -> ThumbnailGeo {
    let thumb = thumbnail_pixels(shown[i].1, size);
    let start = if position.left() {
        gaps
    } else {
        output.w - gaps - strip_width(shown, size, gaps, count)
    };
    let row = if position.top() {
        gaps
    } else {
        output.h - gaps - size
    };
    ThumbnailGeo {
        id: shown[i].0,
        geo: Rectangle {
            loc: Point {
                x: units(start + thumbnail_offset(shown, size, gaps, i)) as i64,
                // Shorter thumbnails are centered in the row.
                y: (units(row) + units(size - thumb.h) / 2) as i64,
            },
            size: Size {
                w: units(thumb.w) as i64,
                h: units(thumb.h) as i64,
            },
        },
        window_size: shown[i].1,
    }
}

/// How many thumbnails are shown when the first `count` are known to fit: thumbnails are added in
/// order until one does not fit.
pub open spec fn count_from(
    shown: Seq<(MappedId, Size<i32>)>,
    size: int,
    gaps: int,
    output_width: int,
    count: int,
) -> int
    decreases shown.len() - count,
{
    if count < shown.len() && strip_fits(shown, size, gaps, output_width, count + 1) {
        count_from(shown, size, gaps, output_width, count + 1)
    } else {
        count
    }
}

/// How many thumbnails are shown: none on an output that is too short for the row.
pub open spec fn strip_count(
    shown: Seq<(MappedId, Size<i32>)>,
    size: int,
    gaps: int,
    output: Size<i32>,
) -> int {
    if row_fits(size, gaps, output.h as int) {
        count_from(shown, size, gaps, output.w as int, 0)
    } else {
        0
    }
}

/// The strip on an output of the given physical size: as many thumbnails as fit, in order, each
/// in its place.
pub open spec fn strip_layout(
    windows: Seq<(MappedId, Size<i32>)>,
    config: MinimizedWindows,
    output: Size<i32>,
    scale: FractionalScale,
) -> Seq<ThumbnailGeo> {
    let shown = showable(windows);
    let size = config.size.pixels(scale);
    let gaps = config.gaps.pixels(scale);
    let count = strip_count(shown, size, gaps, output);
    Seq::new(
        count as nat,
        |i: int| placement(shown, size, gaps, config.position, output, count, i),
    )
}

/// The strip that is shown: none when it is off.
pub open spec fn strip(
    windows: Seq<(MappedId, Size<i32>)>,
    config: MinimizedWindows,
    output: Size<i32>,
    scale: FractionalScale,
) -> Seq<ThumbnailGeo> {
    if config.off {
        Seq::empty()
    } else {
        strip_layout(windows, config, output, scale)
    }
}

/// The thumbnail under a point. Later thumbnails are above earlier ones.
pub open spec fn topmost_under(placed: Seq<ThumbnailGeo>, pos: Point<i64>) -> Option<MappedId>
    decreases placed.len(),
{
    if placed.len() == 0 {
        None
    } else if placed.last().geo.covers(pos) {
        Some(placed.last().id)
    } else {
        topmost_under(placed.drop_last(), pos)
    }
}

proof fn lemma_showable_prefix(windows: Seq<(MappedId, Size<i32>)>, i: int)
    requires
        0 <= i <= windows.len(),
    ensures
        showable(windows.take(i)).len() <= showable(windows).len(),
        showable(windows.take(i)) == showable(windows).take(showable(windows.take(i)).len() as int),
    decreases windows.len() - i,
{
    if i == windows.len() {
        assert(windows.take(i) == windows);
        assert(showable(windows).take(showable(windows).len() as int) == showable(windows));
    } else {
        lemma_showable_prefix(windows, i + 1);
        let next = windows.take(i + 1);
        assert(next.drop_last() == windows.take(i));
        let short = showable(windows.take(i));
        let long = showable(next);
        assert(long == short || long == short.push(next.last()));
        assert(short == long.take(short.len() as int));
        assert(short == showable(windows).take(short.len() as int));
    }
}

proof fn lemma_showable_positive(windows: Seq<(MappedId, Size<i32>)>)
    ensures
        forall|i: int|
            0 <= i < showable(windows).len() ==> (#[trigger] showable(windows)[i]).1.w > 0
                && showable(windows)[i].1.h > 0,
    decreases windows.len(),
{
    if windows.len() > 0 {
        lemma_showable_positive(windows.drop_last());
        let rest = showable(windows.drop_last());
        assert forall|i: int| 0 <= i < showable(windows).len() implies (#[trigger] showable(
            windows,
        )[i]).1.w > 0 && showable(windows)[i].1.h > 0 by {
            if i < rest.len() {
                assert(showable(windows)[i] == rest[i]);
            }
        }
    }
}

/// Both sides of a thumbnail are within the box, and one of them is the box's side.
proof fn lemma_thumbnail_in_box(window: Size<i32>, size: int)
    requires
        window.w > 0,
        window.h > 0,
        0 <= size,
    ensures
        0 <= thumbnail_pixels(window, size).w <= size,
        0 <= thumbnail_pixels(window, size).h <= size,
        window.w >= window.h ==> thumbnail_pixels(window, size).w == size,
        window.h >= window.w ==> thumbnail_pixels(window, size).h == size,
{
    let m = longer_side(window);
    lemma_rounded_in_box(size, window.w as int, m);
    lemma_rounded_in_box(size, window.h as int, m);
}

proof fn lemma_rounded_in_box(size: int, side: int, longer: int)
    requires
        0 < side <= longer,
        0 <= size,
    ensures
        0 <= rounded(size * side, longer) <= size,
        side == longer ==> rounded(size * side, longer) == size,
{
    assert(0 <= size * side <= size * longer) by (nonlinear_arith)
        requires
            0 < side <= longer,
            0 <= size,
    ;
    rounded_is_nearest(size * side, longer);
    let q = rounded(size * side, longer);
    assert(q <= size) by (nonlinear_arith)
        requires
            2 * longer * q <= 2 * (size * side) + longer,
            size * side <= size * longer,
            0 < longer,
    ;
    if side == longer {
        assert(q >= size) by (nonlinear_arith)
            requires
                2 * (size * side) < 2 * longer * q + longer,
                side == longer,
                0 < longer,
        ;
    }
}

proof fn lemma_offset_nonnegative(shown: Seq<(MappedId, Size<i32>)>, size: int, gaps: int, i: int)
    requires
        0 <= i <= shown.len(),
        0 <= size,
        0 <= gaps,
        forall|k: int| 0 <= k < shown.len() ==> (#[trigger] shown[k]).1.w > 0 && shown[k].1.h > 0,
    ensures
        0 <= thumbnail_offset(shown, size, gaps, i),
    decreases i,
{
    if i > 0 {
        lemma_offset_nonnegative(shown, size, gaps, i - 1);
        lemma_thumbnail_in_box(shown[i - 1].1, size);
    }
}

proof fn lemma_offset_bounded(
    shown: Seq<(MappedId, Size<i32>)>,
    size: int,
    gaps: int,
    i: int,
    count: int,
)
    requires
        0 <= i < count <= shown.len(),
        0 <= size,
        0 <= gaps,
        forall|k: int| 0 <= k < shown.len() ==> (#[trigger] shown[k]).1.w > 0 && shown[k].1.h > 0,
    ensures
        thumbnail_offset(shown, size, gaps, i) + thumbnail_pixels(shown[i].1, size).w
            <= strip_width(shown, size, gaps, count),
    decreases count - i,
{
    if i + 1 < count {
        lemma_offset_bounded(shown, size, gaps, i + 1, count);
        lemma_thumbnail_in_box(shown[i + 1].1, size);
    }
}

/// A strip that fits still fits when thumbnails are taken off its end.
proof fn lemma_shorter_strip_fits(
    shown: Seq<(MappedId, Size<i32>)>,
    size: int,
    gaps: int,
    output_width: int,
    shorter: int,
    longer: int,
)
    requires
        0 <= shorter <= longer <= shown.len(),
        0 <= size,
        0 <= gaps,
        forall|k: int| 0 <= k < shown.len() ==> (#[trigger] shown[k]).1.w > 0 && shown[k].1.h > 0,
        strip_fits(shown, size, gaps, output_width, longer),
    ensures
        strip_fits(shown, size, gaps, output_width, shorter),
{
    if shorter > 0 {
        lemma_offset_bounded(shown, size, gaps, shorter - 1, longer);
    }
}

/// The shown count is the one that fits and cannot be extended.
proof fn lemma_count_is_maximal(
    shown: Seq<(MappedId, Size<i32>)>,
    size: int,
    gaps: int,
    output_width: int,
    from: int,
    count: int,
)
    requires
        0 <= from <= count <= shown.len(),
        0 <= size,
        0 <= gaps,
        forall|k: int| 0 <= k < shown.len() ==> (#[trigger] shown[k]).1.w > 0 && shown[k].1.h > 0,
        strip_fits(shown, size, gaps, output_width, count),
        count < shown.len() ==> !strip_fits(shown, size, gaps, output_width, count + 1),
    ensures
        count_from(shown, size, gaps, output_width, from) == count,
    decreases count - from,
{
    if from < count {
        lemma_shorter_strip_fits(shown, size, gaps, output_width, from + 1, count);
        lemma_count_is_maximal(shown, size, gaps, output_width, from + 1, count);
    }
}

/// Lays out the strip on an output of the given physical size. There is none on an output that is
/// too short for it.
///
/// Thumbnails that would overflow the output are dropped rather than squeezed, so the ones that
/// are shown stay legible.
pub fn layout_thumbnails(
    windows: &Vec<(MappedId, Size<i32>)>,
    config: &MinimizedWindows,
    output_size: Size<i32>,
    scale: FractionalScale,
) -> (placed: Vec<ThumbnailGeo>)
    requires
        config.wf(),
    ensures
        placed@ == strip_layout(windows@, *config, output_size, scale),
{
    let size: u128 = config.size.to_pixels(scale);
    let gaps: u128 = config.gaps.to_pixels(scale);
    let ghost shown = showable(windows@);

    proof {
        lemma_showable_positive(windows@);
        lemma_pixels_bounded(config.size, scale);
        lemma_pixels_bounded(config.gaps, scale);
    }

    if output_size.h < 0 || size + gaps * 2 > output_size.h as u128 {
        // Not even one thumbnail fits.
        return Vec::new();
    }
    let size: i64 = size as i64;
    let gaps: i64 = gaps as i64;

    // The row is `size` tall regardless of the aspect ratios in it, so thumbnails of different
    // shapes still line up.
    let row: i64 = if config.position.is_top() {
        gaps
    } else {
        output_size.h as i64 - gaps - size
    };

    let mut placed: Vec<ThumbnailGeo> = Vec::new();
    let mut used: i64 = 0;
    let mut full: bool = false;
    let mut i: usize = 0;
    assert(windows@.take(0) == Seq::<(MappedId, Size<i32>)>::empty());
    while i < windows.len() && !full
        invariant
            i <= windows.len(),
            shown == showable(windows@),
            0 <= size <= i32::MAX,
            0 <= gaps <= i32::MAX,
            row_fits(size as int, gaps as int, output_size.h as int),
            size == config.size.pixels(scale),
            gaps == config.gaps.pixels(scale),
            row == if config.position.top() { gaps as int } else { output_size.h - gaps - size },
            forall|k: int| 0 <= k < shown.len() ==> (#[trigger] shown[k]).1.w > 0 && shown[k].1.h > 0,
            placed.len() <= shown.len(),
            used == strip_width(shown, size as int, gaps as int, placed.len() as int),
            strip_fits(shown, size as int, gaps as int, output_size.w as int, placed.len() as int),
            placed.len() == 0 ==> used == 0,
            placed.len() > 0 ==> 0 <= used <= i32::MAX,
            !full ==> placed.len() == showable(windows@.take(i as int)).len(),
            full ==> placed.len() < shown.len() && !strip_fits(
                shown,
                size as int,
                gaps as int,
                output_size.w as int,
                placed.len() + 1,
            ),
            forall|k: int|
                #![trigger placed[k]]
                0 <= k < placed.len() ==> {
                    let p = placement(
                        shown,
                        size as int,
                        gaps as int,
                        config.position,
                        output_size,
                        0,
                        k,
                    );
                    &&& placed[k].id == p.id
                    &&& placed[k].window_size == p.window_size
                    &&& placed[k].geo.size == p.geo.size
                    &&& placed[k].geo.loc.y == p.geo.loc.y
                },
        decreases windows.len() - i + (if full { 0int } else { 1int }),
    {
        let (id, window_size) = windows[i];
        proof {
            assert(windows@.take(i + 1).drop_last() == windows@.take(i as int));
            lemma_showable_prefix(windows@, i + 1);
        }
        if window_size.w > 0 && window_size.h > 0 {
            let ghost n = placed.len() as int;
            let longer: i32 = if window_size.w >= window_size.h {
                window_size.w
            } else {
                window_size.h
            };
            proof {
                assert(showable(windows@.take(i + 1)).last() == (id, window_size));
                assert(shown[n] == (id, window_size));
                lemma_thumbnail_in_box(window_size, size as int);
                lemma_offset_nonnegative(shown, size as int, gaps as int, n);
                assert(size * window_size.w <= i32::MAX * i32::MAX) by (nonlinear_arith)
                    requires
                        0 <= size <= i32::MAX,
                        0 < window_size.w <= i32::MAX,
                ;
                assert(size * window_size.h <= i32::MAX * i32::MAX) by (nonlinear_arith)
                    requires
                        0 <= size <= i32::MAX,
                        0 < window_size.h <= i32::MAX,
                ;
            }
            let thumb_w: i64 = round_div(size as u128 * window_size.w as u128, longer as u128) as i64;
            let thumb_h: i64 = round_div(size as u128 * window_size.h as u128, longer as u128) as i64;

            let advance: i64 = if placed.len() == 0 {
                thumb_w
            } else {
                thumb_w + gaps
            };
            assert(used + advance == strip_width(shown, size as int, gaps as int, n + 1));
            if used + advance + gaps * 2 > output_size.w as i64 {
                // Out of room. Better to show fewer thumbnails than unreadable ones.
                full = true;
            } else {
                used = used + advance;
                placed.push(
                    ThumbnailGeo {
                        id,
                        // x is filled in below, once the total width is known.
                        geo: Rectangle {
                            loc: Point {
                                x: 0,
                                y: to_units(row) + to_units(size - thumb_h) / 2,
                            },
                            size: Size { w: to_units(thumb_w), h: to_units(thumb_h) },
                        },
                        window_size,
                    },
                );
            }
        }
        i = i + 1;
    }
    proof {
        assert(windows@.take(windows@.len() as int) == windows@);
    }

    // Right-hand corners grow leftwards, so the strip has to be laid out from its total width.
    let mut x: i64 = if config.position.is_left() {
        gaps
    } else {
        output_size.w as i64 - gaps - used
    };
    let ghost start = x as int;
    let ghost count = placed.len() as int;

    let mut k: usize = 0;
    while k < placed.len()
        invariant
            k <= placed.len(),
            placed.len() == count,
            count <= shown.len(),
            0 <= size <= i32::MAX,
            0 <= gaps <= i32::MAX,
            i32::MIN - i32::MAX - i32::MAX <= start <= i32::MAX,
            start == if config.position.left() {
                gaps as int
            } else {
                output_size.w - gaps - strip_width(shown, size as int, gaps as int, count)
            },
            strip_fits(shown, size as int, gaps as int, output_size.w as int, count),
            x == start + thumbnail_offset(shown, size as int, gaps as int, k as int),
            forall|k: int| 0 <= k < shown.len() ==> (#[trigger] shown[k]).1.w > 0 && shown[k].1.h > 0,
            forall|j: int|
                #![trigger placed[j]]
                0 <= j < count ==> {
                    let p = placement(
                        shown,
                        size as int,
                        gaps as int,
                        config.position,
                        output_size,
                        count,
                        j,
                    );
                    &&& placed[j].id == p.id
                    &&& placed[j].window_size == p.window_size
                    &&& placed[j].geo.size == p.geo.size
                    &&& placed[j].geo.loc.y == p.geo.loc.y
                    &&& j < k ==> placed[j].geo.loc.x == p.geo.loc.x
                },
        decreases placed.len() - k,
    {
        let mut thumb: ThumbnailGeo = placed[k];
        proof {
            lemma_thumbnail_in_box(shown[k as int].1, size as int);
            lemma_offset_nonnegative(shown, size as int, gaps as int, k as int);
            lemma_offset_bounded(shown, size as int, gaps as int, k as int, count);
        }
        thumb.geo.loc.x = to_units(x);
        placed.set(k, thumb);
        x = x + thumb.geo.size.w / 240 + gaps;
        k = k + 1;
    }

    proof {
        lemma_count_is_maximal(shown, size as int, gaps as int, output_size.w as int, 0, count);
    }
    placed
}

/// Computes where each minimized window's thumbnail goes on this output.
///
/// Returns an empty vec when the strip is off, when nothing is minimized, or when the output is
/// too small to fit even one thumbnail.
pub fn thumbnail_geometry(
    windows: &Vec<(MappedId, Size<i32>)>,
    config: &MinimizedWindows,
    output_size: Size<i32>,
    scale: FractionalScale,
) -> (placed: Vec<ThumbnailGeo>)
    requires
        config.off || config.wf(),
    ensures
        placed@ == strip(windows@, *config, output_size, scale),
{
    if config.off {
        return Vec::new();
    }
    layout_thumbnails(windows, config, output_size, scale)
}

/// Coordinates of a shown thumbnail stay far from the limits of their type.
proof fn lemma_coordinates_bounded(
    windows: Seq<(MappedId, Size<i32>)>,
    config: MinimizedWindows,
    output: Size<i32>,
    scale: FractionalScale,
    i: int,
)
    requires
        config.wf(),
        0 <= i < strip_layout(windows, config, output, scale).len(),
    ensures
        ({
            let geo = strip_layout(windows, config, output, scale)[i].geo;
            let w = strip_layout(windows, config, output, scale)[i].window_size;
            &&& -0x4_0000_0000 * 240 <= geo.loc.x <= 0x4_0000_0000 * 240
            &&& -0x4_0000_0000 * 240 <= geo.loc.y <= 0x4_0000_0000 * 240
            &&& 0 <= geo.size.w <= i32::MAX * 240
            &&& 0 <= geo.size.h <= i32::MAX * 240
            &&& w.w > 0
            &&& w.h > 0
        }),
{
    law_strip_is_maximal(windows, config, output, scale);
    let shown = showable(windows);
    let size = config.size.pixels(scale);
    let gaps = config.gaps.pixels(scale);
    let count = strip_layout(windows, config, output, scale).len() as int;
    lemma_pixels_nonnegative(config, scale);
    lemma_showable_positive(windows);
    lemma_thumbnail_in_box(shown[i].1, size);
    lemma_offset_nonnegative(shown, size, gaps, i);
    lemma_offset_bounded(shown, size, gaps, i, count);
}

proof fn lemma_pixels_nonnegative(config: MinimizedWindows, scale: FractionalScale)
    requires
        config.wf(),
    ensures
        0 <= config.size.pixels(scale),
        0 <= config.gaps.pixels(scale),
{
    lemma_pixels_bounded(config.size, scale);
    lemma_pixels_bounded(config.gaps, scale);
}

proof fn lemma_pixels_bounded(length: LogicalLength, scale: FractionalScale)
    requires
        length.den > 0,
    ensures
        0 <= length.pixels(scale) <= u64::MAX,
{
    let a = length.num * scale.n120;
    let b = length.den * 120;
    assert(0 <= a <= u32::MAX * u32::MAX) by (nonlinear_arith)
        requires
            0 <= length.num <= u32::MAX,
            0 <= scale.n120 <= u32::MAX,
            a == length.num * scale.n120,
    ;
    rounded_is_nearest(a, b);
    let q = rounded(a, b);
    assert(q <= a + 1) by (nonlinear_arith)
        requires
            2 * b * q <= 2 * a + b,
            0 <= a,
            1 <= b,
    ;
}

/// The strip shows a first part of the showable windows, in order, as long as possible: it fits
/// the output with its margins, and with one more thumbnail it would not.
pub proof fn law_strip_is_maximal(
    windows: Seq<(MappedId, Size<i32>)>,
    config: MinimizedWindows,
    output: Size<i32>,
    scale: FractionalScale,
)
    requires
        config.wf(),
    ensures
        ({
            let shown = showable(windows);
            let size = config.size.pixels(scale);
            let gaps = config.gaps.pixels(scale);
            let placed = strip_layout(windows, config, output, scale);
            &&& placed.len() <= shown.len()
            &&& forall|i: int| #![trigger placed[i]]
                0 <= i < placed.len() ==> placed[i].id == shown[i].0 && placed[i].window_size
                    == shown[i].1
            &&& strip_fits(shown, size, gaps, output.w as int, placed.len() as int)
            &&& placed.len() > 0 ==> row_fits(size, gaps, output.h as int)
            &&& forall|more: int|
                placed.len() < more <= shown.len() && row_fits(size, gaps, output.h as int)
                    ==> !#[trigger] strip_fits(shown, size, gaps, output.w as int, more)
        }),
{
    let shown = showable(windows);
    let size = config.size.pixels(scale);
    let gaps = config.gaps.pixels(scale);
    lemma_showable_positive(windows);
    lemma_pixels_nonnegative(config, scale);
    lemma_count_reached(shown, size, gaps, output.w as int, 0);
    let count = strip_count(shown, size, gaps, output);
    assert forall|more: int|
        count < more <= shown.len() && row_fits(size, gaps, output.h as int) implies !#[trigger] strip_fits(
        shown,
        size,
        gaps,
        output.w as int,
        more,
    ) by {
        if strip_fits(shown, size, gaps, output.w as int, more) {
            lemma_shorter_strip_fits(shown, size, gaps, output.w as int, count + 1, more);
        }
    }
}

proof fn lemma_count_reached(
    shown: Seq<(MappedId, Size<i32>)>,
    size: int,
    gaps: int,
    output_width: int,
    from: int,
)
    requires
        0 <= from <= shown.len(),
        strip_fits(shown, size, gaps, output_width, from),
    ensures
        ({
            let count = count_from(shown, size, gaps, output_width, from);
            &&& from <= count <= shown.len()
            &&& strip_fits(shown, size, gaps, output_width, count)
            &&& count < shown.len() ==> !strip_fits(shown, size, gaps, output_width, count + 1)
        }),
    decreases shown.len() - from,
{
    if from < shown.len() && strip_fits(shown, size, gaps, output_width, from + 1) {
        lemma_count_reached(shown, size, gaps, output_width, from + 1);
    }
}

/// Returns the minimized window whose thumbnail is under this point of the output, if any. The
/// point is in strip units, rounded down.
pub fn window_under(
    windows: &Vec<(MappedId, Size<i32>)>,
    config: &MinimizedWindows,
    output_size: Size<i32>,
    scale: FractionalScale,
    pos_within_output: Point<i64>,
) -> (under: Option<MappedId>)
    requires
        config.off || config.wf(),
    ensures
        under == topmost_under(strip(windows@, *config, output_size, scale), pos_within_output),
{
    let placed: Vec<ThumbnailGeo> = thumbnail_geometry(windows, config, output_size, scale);
    // Later thumbnails are drawn on top, so hit-test in reverse.
    let mut i: usize = placed.len();
    assert(placed@.take(i as int) == placed@);
    while i > 0
        invariant
            i <= placed.len(),
            config.off || config.wf(),
            placed@ == strip(windows@, *config, output_size, scale),
            topmost_under(placed@, pos_within_output) == topmost_under(
                placed@.take(i as int),
                pos_within_output,
            ),
        decreases i,
    {
        i = i - 1;
        assert(placed@.take(i + 1).drop_last() == placed@.take(i as int));
        assert(placed@.take(i + 1).last() == placed@[i as int]);
        proof {
            lemma_coordinates_bounded(windows@, *config, output_size, scale, i as int);
        }
        if placed[i].geo.contains(pos_within_output) {
            return Some(placed[i].id);
        }
    }
    None
}

/// How much of the backdrop sticks out around a thumbnail, in logical pixels.
pub const BACKDROP_PADDING: i64 = 4;

/// One element of the drawn strip.
#[derive(Debug, Clone, Copy, PartialEq, Eq)]
pub enum MinimizedStripRenderElement {
    /// The contents of a window, rendered at the origin, scaled down by `scale_x` and `scale_y`
    /// and then moved to `loc`.
    Thumbnail {
        /// Which of the minimized windows it is.
        window: usize,
        scale_x: Ratio,
        scale_y: Ratio,
        /// In physical pixels.
        loc: Point<i64>,
    },
    /// A rectangle of solid color behind a thumbnail, so that dark windows stay visible.
    Backdrop {
        /// Which of the output's backdrop buffers it is drawn from.
        buffer: usize,
        /// In strip units.
        geo: Rectangle<i64>,
        /// Red, green, blue and alpha.
        color: (Ratio, Ratio, Ratio, Ratio),
    },
}

/// The first window with the given id.
pub open spec fn window_index(windows: Seq<(MappedId, Size<i32>)>, id: MappedId) -> int
    decreases windows.len(),
{
    if windows.len() == 0 {
        0
    } else if windows.first().0 == id {
        0
    } else {
        1 + window_index(windows.drop_first(), id)
    }
}

/// How a thumbnail is drawn.
pub open spec fn thumbnail_element(
    windows: Seq<(MappedId, Size<i32>)>,
    thumb: ThumbnailGeo,
    scale: FractionalScale,
) -> MinimizedStripRenderElement {
    MinimizedStripRenderElement::Thumbnail {
        window: window_index(windows, thumb.id) as usize,
        scale_x: Ratio {
            num: thumb.geo.size.w as i128,
            den: (2 * scale.n120 * thumb.window_size.w) as u128,
        },
        scale_y: Ratio {
            num: thumb.geo.size.h as i128,
            den: (2 * scale.n120 * thumb.window_size.h) as u128,
        },
        loc: Point {
            x: rounded_away(thumb.geo.loc.x as int, 240) as i64,
            y: rounded_away(thumb.geo.loc.y as int, 240) as i64,
        },
    }
}

/// How the backdrop of a thumbnail is drawn: it is larger by the padding on all sides.
pub open spec fn backdrop_element(
    buffer: int,
    thumb: ThumbnailGeo,
    scale: FractionalScale,
) -> MinimizedStripRenderElement {
    let padding = BACKDROP_PADDING * (2 * scale.n120);
    MinimizedStripRenderElement::Backdrop {
        buffer: buffer as usize,
        geo: Rectangle {
            loc: Point {
                x: (thumb.geo.loc.x - padding) as i64,
                y: (thumb.geo.loc.y - padding) as i64,
            },
            size: Size {
                w: (thumb.geo.size.w + 2 * padding) as i64,
                h: (thumb.geo.size.h + 2 * padding) as i64,
            },
        },
        color: (
            Ratio { num: 0, den: 1 },
            Ratio { num: 0, den: 1 },
            Ratio { num: 0, den: 1 },
            Ratio { num: 2, den: 5 },
        ),
    }
}

/// The drawn strip, front to back: the thumbnails and then, behind all of them, the backdrops.
pub open spec fn strip_elements(
    windows: Seq<(MappedId, Size<i32>)>,
    config: MinimizedWindows,
    output: Size<i32>,
    scale: FractionalScale,
) -> Seq<MinimizedStripRenderElement> {
    let placed = strip(windows, config, output, scale);
    Seq::new(placed.len(), |i: int| thumbnail_element(windows, placed[i], scale)) + Seq::new(
        placed.len(),
        |i: int| backdrop_element(i, placed[i], scale),
    )
}

/// Finds the window with the given id.
fn find_window(windows: &Vec<(MappedId, Size<i32>)>, id: MappedId) -> (index: usize)
    ensures
        index == window_index(windows@, id),
{
    let mut i: usize = 0;
    assert(windows@.skip(0) == windows@);
    while i < windows.len()
        invariant
            i <= windows.len(),
            window_index(windows@, id) == i + window_index(windows@.skip(i as int), id),
        decreases windows.len() - i,
    {
        assert(windows@.skip(i as int).drop_first() == windows@.skip(i + 1));
        if windows[i].0 == id {
            return i;
        }
        i = i + 1;
    }
    i
}

/// Draws the strip on top of everything else on this output. Returns its elements front to back:
/// whatever comes first ends up on top.
pub fn render_output(
    windows: &Vec<(MappedId, Size<i32>)>,
    config: &MinimizedWindows,
    output_size: Size<i32>,
    scale: FractionalScale,
) -> (elements: Vec<MinimizedStripRenderElement>)
    requires
        config.off || config.wf(),
    ensures
        elements@ == strip_elements(windows@, *config, output_size, scale),
{
    let thumbs: Vec<ThumbnailGeo> = thumbnail_geometry(windows, config, output_size, scale);
    let mut elements: Vec<MinimizedStripRenderElement> = Vec::new();

    // All thumbnails go in first, and the backdrops follow to sit behind them.
    let mut i: usize = 0;
    while i < thumbs.len()
        invariant
            i <= thumbs.len(),
            config.off || config.wf(),
            thumbs@ == strip(windows@, *config, output_size, scale),
            elements@ == Seq::new(i as nat, |k: int| thumbnail_element(windows@, thumbs[k], scale)),
        decreases thumbs.len() - i,
    {
        let thumb: ThumbnailGeo = thumbs[i];
        proof {
            lemma_coordinates_bounded(windows@, *config, output_size, scale, i as int);
            lemma_scale_denominator(scale.n120, thumb.window_size.w);
            lemma_scale_denominator(scale.n120, thumb.window_size.h);
        }
        elements.push(
            MinimizedStripRenderElement::Thumbnail {
                window: find_window(windows, thumb.id),
                scale_x: Ratio {
                    num: thumb.geo.size.w as i128,
                    den: 2 * scale.n120 as u128 * thumb.window_size.w as u128,
                },
                scale_y: Ratio {
                    num: thumb.geo.size.h as i128,
                    den: 2 * scale.n120 as u128 * thumb.window_size.h as u128,
                },
                loc: Point {
                    x: round_div_signed(thumb.geo.loc.x, 240),
                    y: round_div_signed(thumb.geo.loc.y, 240),
                },
            },
        );
        i = i + 1;
    }

    let padding: i64 = BACKDROP_PADDING * (2 * scale.n120 as i64);
    let ghost n = thumbs.len();
    let mut k: usize = 0;
    while k < thumbs.len()
        invariant
            k <= thumbs.len(),
            n == thumbs.len(),
            padding == BACKDROP_PADDING * (2 * scale.n120),
            0 <= padding <= 8 * u32::MAX,
            config.off || config.wf(),
            thumbs@ == strip(windows@, *config, output_size, scale),
            elements@ == Seq::new(n as nat, |j: int| thumbnail_element(windows@, thumbs[j], scale))
                + Seq::new(k as nat, |j: int| backdrop_element(j, thumbs[j], scale)),
        decreases thumbs.len() - k,
    {
        let thumb: ThumbnailGeo = thumbs[k];
        proof {
            lemma_coordinates_bounded(windows@, *config, output_size, scale, k as int);
        }
        elements.push(
            MinimizedStripRenderElement::Backdrop {
                buffer: k,
                geo: Rectangle {
                    loc: Point { x: thumb.geo.loc.x - padding, y: thumb.geo.loc.y - padding },
                    size: Size {
                        w: thumb.geo.size.w + 2 * padding,
                        h: thumb.geo.size.h + 2 * padding,
                    },
                },
                color: (Ratio::zero(), Ratio::zero(), Ratio::zero(), Ratio::new(2, 5)),
            },
        );
        k = k + 1;
    }

    elements
}

proof fn lemma_scale_denominator(n120: u32, side: i32)
    requires
        side > 0,
    ensures
        0 <= 2 * n120 * side <= 2 * u32::MAX * i32::MAX,
{
    assert(0 <= 2 * n120 * side <= 2 * u32::MAX * i32::MAX) by (nonlinear_arith)
        requires
            0 <= n120 <= u32::MAX,
            0 < side <= i32::MAX,
    ;
}

/// Facts about thumbnail `i` of the strip, in strip units and without casts.
proof fn lemma_placed(
    windows: Seq<(MappedId, Size<i32>)>,
    config: MinimizedWindows,
    output: Size<i32>,
    scale: FractionalScale,
    i: int,
)
    requires
        config.wf(),
        0 <= i < strip_layout(windows, config, output, scale).len(),
    ensures
        ({
            let shown = showable(windows);
            let size = config.size.pixels(scale);
            let gaps = config.gaps.pixels(scale);
            let placed = strip_layout(windows, config, output, scale);
            let thumb = thumbnail_pixels(shown[i].1, size);
            let start = if config.position.left() {
                gaps
            } else {
                output.w - gaps - strip_width(shown, size, gaps, placed.len() as int)
            };
            let row = if config.position.top() {
                gaps
            } else {
                output.h - gaps - size
            };
            &&& placed[i].geo.loc.x == units(start + thumbnail_offset(shown, size, gaps, i))
            &&& placed[i].geo.loc.y == units(row) + 120 * (size - thumb.h)
            &&& placed[i].geo.size.w == units(thumb.w)
            &&& placed[i].geo.size.h == units(thumb.h)
            &&& 0 <= thumb.w <= size
            &&& 0 <= thumb.h <= size
        }),
{
    let shown = showable(windows);
    let size = config.size.pixels(scale);
    let gaps = config.gaps.pixels(scale);
    let placed = strip_layout(windows, config, output, scale);
    let count = placed.len() as int;
    law_strip_is_maximal(windows, config, output, scale);
    lemma_pixels_nonnegative(config, scale);
    lemma_showable_positive(windows);
    lemma_thumbnail_in_box(shown[i].1, size);
    lemma_offset_nonnegative(shown, size, gaps, i);
    lemma_offset_bounded(shown, size, gaps, i, count);
    let thumb = thumbnail_pixels(shown[i].1, size);
    lemma_count_reached(shown, size, gaps, output.w as int, 0);
    assert(placed[i] == placement(shown, size, gaps, config.position, output, count, i));
}

/// Shown thumbnails stay on the output, with a gap to all of its edges.
pub proof fn law_thumbnails_stay_on_the_output(
    windows: Seq<(MappedId, Size<i32>)>,
    config: MinimizedWindows,
    output: Size<i32>,
    scale: FractionalScale,
    i: int,
)
    requires
        config.wf(),
        0 <= i < strip_layout(windows, config, output, scale).len(),
    ensures
        ({
            let geo = strip_layout(windows, config, output, scale)[i].geo;
            let gaps = config.gaps.pixels(scale);
            &&& units(gaps) <= geo.loc.x
            &&& geo.loc.x + geo.size.w <= units(output.w - gaps)
            &&& units(gaps) <= geo.loc.y
            &&& geo.loc.y + geo.size.h <= units(output.h - gaps)
        }),
{
    let shown = showable(windows);
    let size = config.size.pixels(scale);
    let gaps = config.gaps.pixels(scale);
    let placed = strip_layout(windows, config, output, scale);
    let count = placed.len() as int;
    law_strip_is_maximal(windows, config, output, scale);
    lemma_pixels_nonnegative(config, scale);
    lemma_showable_positive(windows);
    lemma_placed(windows, config, output, scale, i);
    lemma_offset_nonnegative(shown, size, gaps, i);
    lemma_offset_bounded(shown, size, gaps, i, count);
}

/// Neighbouring thumbnails are exactly one gap apart.
pub proof fn law_thumbnails_are_one_gap_apart(
    windows: Seq<(MappedId, Size<i32>)>,
    config: MinimizedWindows,
    output: Size<i32>,
    scale: FractionalScale,
    i: int,
)
    requires
        config.wf(),
        0 <= i,
        i + 1 < strip_layout(windows, config, output, scale).len(),
    ensures
        ({
            let placed = strip_layout(windows, config, output, scale);
            placed[i + 1].geo.loc.x == placed[i].geo.loc.x + placed[i].geo.size.w + units(
                config.gaps.pixels(scale),
            )
        }),
{
    lemma_placed(windows, config, output, scale, i);
    lemma_placed(windows, config, output, scale, i + 1);
}

/// A strip in a left corner starts one gap from the left edge. One in a right corner ends one gap
/// from the right edge.
pub proof fn law_strip_starts_in_its_corner(
    windows: Seq<(MappedId, Size<i32>)>,
    config: MinimizedWindows,
    output: Size<i32>,
    scale: FractionalScale,
)
    requires
        config.wf(),
        strip_layout(windows, config, output, scale).len() > 0,
    ensures
        ({
            let placed = strip_layout(windows, config, output, scale);
            let gaps = config.gaps.pixels(scale);
            if config.position.left() {
                placed.first().geo.loc.x == units(gaps)
            } else {
                placed.last().geo.loc.x + placed.last().geo.size.w == units(output.w - gaps)
            }
        }),
{
    let placed = strip_layout(windows, config, output, scale);
    lemma_placed(windows, config, output, scale, 0);
    lemma_placed(windows, config, output, scale, placed.len() - 1);
}

/// The row is one gap from the top or bottom edge and one thumbnail size tall. Every thumbnail
/// lies inside it, centered: there is as much room above it as below.
pub proof fn law_thumbnails_are_centered_in_the_row(
    windows: Seq<(MappedId, Size<i32>)>,
    config: MinimizedWindows,
    output: Size<i32>,
    scale: FractionalScale,
    i: int,
)
    requires
        config.wf(),
        0 <= i < strip_layout(windows, config, output, scale).len(),
    ensures
        ({
            let geo = strip_layout(windows, config, output, scale)[i].geo;
            let size = config.size.pixels(scale);
            let gaps = config.gaps.pixels(scale);
            let row_top = if config.position.top() {
                units(gaps)
            } else {
                units(output.h - gaps - size)
            };
            let row_bottom = row_top + units(size);
            &&& row_top <= geo.loc.y
            &&& geo.loc.y + geo.size.h <= row_bottom
            &&& geo.loc.y - row_top == row_bottom - (geo.loc.y + geo.size.h)
        }),
{
    lemma_placed(windows, config, output, scale, i);
}

/// Thumbnails are never squeezed: the longer side of each is exactly the configured size. They
/// are not distorted either: the other side is within half a pixel of the window's aspect ratio.
pub proof fn law_thumbnails_keep_size_and_aspect_ratio(
    windows: Seq<(MappedId, Size<i32>)>,
    config: MinimizedWindows,
    output: Size<i32>,
    scale: FractionalScale,
    i: int,
)
    requires
        config.wf(),
        0 <= i < strip_layout(windows, config, output, scale).len(),
    ensures
        ({
            let thumb = strip_layout(windows, config, output, scale)[i];
            let size = config.size.pixels(scale);
            let longer = longer_side(thumb.window_size);
            &&& thumb.window_size.w == longer ==> thumb.geo.size.w == units(size)
            &&& thumb.window_size.h == longer ==> thumb.geo.size.h == units(size)
            &&& -units(longer) <= 2 * (thumb.geo.size.w * longer - units(
                size * thumb.window_size.w,
            )) <= units(longer)
            &&& -units(longer) <= 2 * (thumb.geo.size.h * longer - units(
                size * thumb.window_size.h,
            )) <= units(longer)
        }),
{
    let shown = showable(windows);
    let size = config.size.pixels(scale);
    let gaps = config.gaps.pixels(scale);
    let placed = strip_layout(windows, config, output, scale);
    let count = placed.len() as int;
    law_strip_is_maximal(windows, config, output, scale);
    lemma_pixels_nonnegative(config, scale);
    lemma_showable_positive(windows);
    lemma_placed(windows, config, output, scale, i);
    let window = shown[i].1;
    let longer = longer_side(window);
    lemma_thumbnail_in_box(window, size);
    lemma_near_aspect(size, window.w as int, longer);
    lemma_near_aspect(size, window.h as int, longer);
}

proof fn lemma_near_aspect(size: int, side: int, longer: int)
    requires
        0 < side <= longer,
        0 <= size,
    ensures
        -units(longer) <= 2 * (units(rounded(size * side, longer)) * longer - units(size * side))
            <= units(longer),
{
    assert(0 <= size * side) by (nonlinear_arith)
        requires
            0 < side,
            0 <= size,
    ;
    rounded_is_nearest(size * side, longer);
    let q = rounded(size * side, longer);
    assert(units(q) * longer == 120 * (2 * longer * q)) by (nonlinear_arith)
        requires
            units(q) == 240 * q,
    ;
}

/// No point of the output belongs to two thumbnails.
pub proof fn law_thumbnails_do_not_overlap(
    windows: Seq<(MappedId, Size<i32>)>,
    config: MinimizedWindows,
    output: Size<i32>,
    scale: FractionalScale,
    i: int,
    j: int,
    pos: Point<i64>,
)
    requires
        config.wf(),
        0 <= i < strip_layout(windows, config, output, scale).len(),
        0 <= j < strip_layout(windows, config, output, scale).len(),
        strip_layout(windows, config, output, scale)[i].geo.covers(pos),
        strip_layout(windows, config, output, scale)[j].geo.covers(pos),
    ensures
        i == j,
{
    let shown = showable(windows);
    let size = config.size.pixels(scale);
    let gaps = config.gaps.pixels(scale);
    let placed = strip_layout(windows, config, output, scale);
    let count = placed.len() as int;
    law_strip_is_maximal(windows, config, output, scale);
    lemma_pixels_nonnegative(config, scale);
    lemma_showable_positive(windows);
    lemma_placed(windows, config, output, scale, i);
    lemma_placed(windows, config, output, scale, j);
    if i < j {
        lemma_offsets_ordered(shown, size, gaps, i, j);
    } else if j < i {
        lemma_offsets_ordered(shown, size, gaps, j, i);
    }
}

proof fn lemma_offsets_ordered(
    shown: Seq<(MappedId, Size<i32>)>,
    size: int,
    gaps: int,
    i: int,
    j: int,
)
    requires
        0 <= i < j < shown.len(),
        0 <= size,
        0 <= gaps,
        forall|k: int| 0 <= k < shown.len() ==> (#[trigger] shown[k]).1.w > 0 && shown[k].1.h > 0,
    ensures
        thumbnail_offset(shown, size, gaps, i) + thumbnail_pixels(shown[i].1, size).w
            <= thumbnail_offset(shown, size, gaps, j),
    decreases j - i,
{
    if i + 1 < j {
        lemma_offsets_ordered(shown, size, gaps, i, j - 1);
        lemma_thumbnail_in_box(shown[j - 1].1, size);
    }
}

/// Hit testing agrees with what is drawn: a point inside a shown thumbnail finds its window, and
/// a point outside all of them finds none.
pub proof fn law_hit_test_agrees_with_geometry(
    windows: Seq<(MappedId, Size<i32>)>,
    config: MinimizedWindows,
    output: Size<i32>,
    scale: FractionalScale,
    pos: Point<i64>,
)
    requires
        config.off || config.wf(),
    ensures
        ({
            let placed = strip(windows, config, output, scale);
            let under = topmost_under(placed, pos);
            &&& forall|i: int| #![trigger placed[i]]
                0 <= i < placed.len() && placed[i].geo.covers(pos) ==> under == Some(placed[i].id)
            &&& under is Some ==> exists|i: int| #![trigger placed[i]]
                0 <= i < placed.len() && placed[i].geo.covers(pos) && under == Some(placed[i].id)
        }),
{
    let placed = strip(windows, config, output, scale);
    lemma_topmost(placed, pos);
    assert forall|i: int| #![trigger placed[i]]
        0 <= i < placed.len() && placed[i].geo.covers(pos) implies topmost_under(placed, pos)
        == Some(placed[i].id) by {
        let top = choose|k: int| #![trigger placed[k]]
            0 <= k < placed.len() && placed[k].geo.covers(pos) && topmost_under(placed, pos)
                == Some(placed[k].id);
        law_thumbnails_do_not_overlap(windows, config, output, scale, i, top, pos);
    }
}

proof fn lemma_topmost(placed: Seq<ThumbnailGeo>, pos: Point<i64>)
    ensures
        topmost_under(placed, pos) is Some <==> exists|i: int| #![trigger placed[i]]
            0 <= i < placed.len() && placed[i].geo.covers(pos),
        topmost_under(placed, pos) is Some ==> exists|i: int| #![trigger placed[i]]
            0 <= i < placed.len() && placed[i].geo.covers(pos) && topmost_under(placed, pos)
                == Some(placed[i].id),
    decreases placed.len(),
{
    if placed.len() > 0 {
        let rest = placed.drop_last();
        lemma_topmost(rest, pos);
        assert(forall|i: int| 0 <= i < rest.len() ==> rest[i] == placed[i]);
        if placed.last().geo.covers(pos) {
            assert(placed[placed.len() - 1].geo.covers(pos));
        } else if topmost_under(rest, pos) is Some {
            let k = choose|k: int| #![trigger rest[k]]
                0 <= k < rest.len() && rest[k].geo.covers(pos) && topmost_under(rest, pos) == Some(
                    rest[k].id,
                );
            assert(placed[k].geo.covers(pos));
        }
    }
}

/// Nothing is shown when the strip is off, when nothing is minimized, and when the output is too
/// narrow or too short for the first thumbnail.
pub proof fn law_empty_strip(
    windows: Seq<(MappedId, Size<i32>)>,
    config: MinimizedWindows,
    output: Size<i32>,
    scale: FractionalScale,
)
    requires
        config.off || config.wf(),
        config.off || showable(windows).len() == 0 || thumbnail_pixels(
            showable(windows)[0].1,
            config.size.pixels(scale),
        ).w + 2 * config.gaps.pixels(scale) > output.w || config.size.pixels(scale) + 2
            * config.gaps.pixels(scale) > output.h,
    ensures
        strip(windows, config, output, scale).len() == 0,
        strip_elements(windows, config, output, scale).len() == 0,
        forall|pos: Point<i64>|
            topmost_under(strip(windows, config, output, scale), pos) is None,
{
    let shown = showable(windows);
    if !config.off {
        law_strip_is_maximal(windows, config, output, scale);
        assert(thumbnail_offset(shown, config.size.pixels(scale), config.gaps.pixels(scale), 0)
            == 0);
        assert(strip_width(shown, config.size.pixels(scale), config.gaps.pixels(scale), 1)
            == thumbnail_pixels(shown[0].1, config.size.pixels(scale)).w);
        if strip_layout(windows, config, output, scale).len() > 0 {
            lemma_pixels_nonnegative(config, scale);
            lemma_showable_positive(windows);
            lemma_shorter_strip_fits(
                shown,
                config.size.pixels(scale),
                config.gaps.pixels(scale),
                output.w as int,
                1,
                strip_layout(windows, config, output, scale).len() as int,
            );
        }
    }
}

/// Every drawn thumbnail shows one of the minimized windows, namely one with its own id.
pub proof fn law_thumbnails_show_minimized_windows(
    windows: Seq<(MappedId, Size<i32>)>,
    config: MinimizedWindows,
    output: Size<i32>,
    scale: FractionalScale,
    i: int,
)
    requires
        config.off || config.wf(),
        0 <= i < strip(windows, config, output, scale).len(),
    ensures
        ({
            let id = strip(windows, config, output, scale)[i].id;
            let index = window_index(windows, id);
            &&& 0 <= index < windows.len()
            &&& windows[index].0 == id
        }),
{
    law_strip_is_maximal(windows, config, output, scale);
    let k = lemma_showable_member(windows, i);
    lemma_window_index(windows, showable(windows)[i].0, k);
}

proof fn lemma_showable_member(windows: Seq<(MappedId, Size<i32>)>, i: int) -> (k: int)
    requires
        0 <= i < showable(windows).len(),
    ensures
        0 <= k < windows.len(),
        windows[k] == showable(windows)[i],
    decreases windows.len(),
{
    let rest = showable(windows.drop_last());
    if i < rest.len() {
        lemma_showable_member(windows.drop_last(), i)
    } else {
        windows.len() - 1
    }
}

proof fn lemma_window_index(windows: Seq<(MappedId, Size<i32>)>, id: MappedId, k: int)
    requires
        0 <= k < windows.len(),
        windows[k].0 == id,
    ensures
        0 <= window_index(windows, id) <= k,
        windows[window_index(windows, id)].0 == id,
    decreases windows.len(),
{
    if windows.first().0 != id {
        lemma_window_index(windows.drop_first(), id, k - 1);
    }
}

/// The windows that can have a thumbnail are exactly those with a positive width and height, in
/// order.
pub proof fn law_windows_with_a_size_are_shown(windows: Seq<(MappedId, Size<i32>)>)
    ensures
        showable(windows) == windows.filter(
            |window: (MappedId, Size<i32>)| window.1.w > 0 && window.1.h > 0,
        ),
    decreases windows.len(),
{
    reveal(Seq::filter);
    if windows.len() > 0 {
        law_windows_with_a_size_are_shown(windows.drop_last());
    }
}

/// The strip is drawn front to back: all thumbnails, in the order of the strip, and behind all of
/// them the backdrops, each from a buffer of its own.
pub proof fn law_thumbnails_are_in_front_of_backdrops(
    windows: Seq<(MappedId, Size<i32>)>,
    config: MinimizedWindows,
    output: Size<i32>,
    scale: FractionalScale,
    i: int,
)
    requires
        0 <= i < strip(windows, config, output, scale).len(),
    ensures
        ({
            let count = strip(windows, config, output, scale).len() as int;
            let elements = strip_elements(windows, config, output, scale);
            &&& elements.len() == 2 * count
            &&& elements[i] is Thumbnail
            &&& elements[count + i] is Backdrop
            &&& count <= usize::MAX ==> elements[count + i]->buffer == i
        }),
{
}

/// A drawn thumbnail shows its own window, and fills exactly its place in the strip. The logical
/// size of the window, times the output scale of `n120 / 120`, times `scale_x` and `scale_y`, is the
/// physical size of the place, which is in 240ths of a pixel. Its corner is the pixel nearest to that
/// of the place.
pub proof fn law_drawn_thumbnails_fill_their_place(
    windows: Seq<(MappedId, Size<i32>)>,
    config: MinimizedWindows,
    output: Size<i32>,
    scale: FractionalScale,
    i: int,
)
    requires
        config.wf(),
        windows.len() <= usize::MAX,
        0 <= i < strip(windows, config, output, scale).len(),
    ensures
        ({
            let place = strip(windows, config, output, scale)[i];
            match strip_elements(windows, config, output, scale)[i] {
                MinimizedStripRenderElement::Thumbnail { window, scale_x, scale_y, loc } => {
                    &&& 0 <= window < windows.len()
                    &&& windows[window as int].0 == place.id
                    &&& scale.n120 > 0 ==> scale_x.den > 0 && scale_y.den > 0
                    &&& (place.window_size.w * scale.n120 * scale_x.num) * 240 == (
                    place.geo.size.w * scale_x.den) * 120
                    &&& (place.window_size.h * scale.n120 * scale_y.num) * 240 == (
                    place.geo.size.h * scale_y.den) * 120
                    &&& -120 <= 240 * loc.x - place.geo.loc.x <= 120
                    &&& -120 <= 240 * loc.y - place.geo.loc.y <= 120
                },
                _ => false,
            }
        }),
{
    let place = strip(windows, config, output, scale)[i];
    lemma_coordinates_bounded(windows, config, output, scale, i);
    law_thumbnails_show_minimized_windows(windows, config, output, scale, i);
    lemma_scale_denominator(scale.n120, place.window_size.w);
    lemma_scale_denominator(scale.n120, place.window_size.h);
    lemma_fills(place.window_size.w as int, scale.n120 as int, place.geo.size.w as int);
    lemma_fills(place.window_size.h as int, scale.n120 as int, place.geo.size.h as int);
    lemma_nearest_pixel(place.geo.loc.x as int);
    lemma_nearest_pixel(place.geo.loc.y as int);
}

proof fn lemma_fills(window: int, n120: int, place: int)
    requires
        window > 0,
    ensures
        (window * n120 * place) * 240 == (place * (2 * n120 * window)) * 120,
        n120 > 0 ==> 2 * n120 * window > 0,
{
    assert((window * n120 * place) * 240 == (place * (2 * n120 * window)) * 120)
        by (nonlinear_arith);
    if n120 > 0 {
        assert(2 * n120 * window > 0) by (nonlinear_arith)
            requires
                n120 > 0,
                window > 0,
        ;
    }
}

proof fn lemma_nearest_pixel(units: int)
    ensures
        -120 <= 240 * rounded_away(units, 240) - units <= 120,
{
    if units >= 0 {
        rounded_is_nearest(units, 240);
    } else {
        rounded_is_nearest(-units, 240);
    }
}

/// A backdrop sticks out four logical pixels around its thumbnail, on all sides: at the scale
/// `n120 / 120`, a logical pixel is `2 * n120` of the 240ths of a physical pixel that the strip is
/// laid out in. It is black, with an opacity of 0.4.
pub proof fn law_backdrops_stick_out_around_thumbnails(
    windows: Seq<(MappedId, Size<i32>)>,
    config: MinimizedWindows,
    output: Size<i32>,
    scale: FractionalScale,
    i: int,
)
    requires
        config.wf(),
        0 <= i < strip(windows, config, output, scale).len(),
    ensures
        ({
            let placed = strip(windows, config, output, scale);
            let place = placed[i].geo;
            let logical = 2 * scale.n120;
            match strip_elements(windows, config, output, scale)[placed.len() + i] {
                MinimizedStripRenderElement::Backdrop { geo, color, .. } => {
                    &&& place.loc.x - geo.loc.x == 4 * logical
                    &&& place.loc.y - geo.loc.y == 4 * logical
                    &&& (geo.loc.x + geo.size.w) - (place.loc.x + place.size.w) == 4 * logical
                    &&& (geo.loc.y + geo.size.h) - (place.loc.y + place.size.h) == 4 * logical
                    &&& color.0.num == 0 && color.1.num == 0 && color.2.num == 0
                    &&& color.3.den > 0 && color.3.num * 10 == 4 * color.3.den
                },
                _ => false,
            }
        }),
{
    lemma_coordinates_bounded(windows, config, output, scale, i);
}

/// Thumbnails are laid out on the pixels of the output: their sides, and the edges of the row, are
/// whole pixels of 240 units. The configured size and gaps are rounded to the nearest pixel at the
/// output scale.
pub proof fn law_strip_is_aligned_to_pixels(
    windows: Seq<(MappedId, Size<i32>)>,
    config: MinimizedWindows,
    output: Size<i32>,
    scale: FractionalScale,
    i: int,
)
    requires
        config.wf(),
        0 <= i < strip_layout(windows, config, output, scale).len(),
    ensures
        ({
            let thumb = strip_layout(windows, config, output, scale)[i];
            let size = config.size.pixels(scale);
            let gaps = config.gaps.pixels(scale);
            let left = thumb.geo.loc.x as int;
            let top = thumb.geo.loc.y as int;
            let longer = if thumb.window_size.w >= thumb.window_size.h {
                thumb.geo.size.w
            } else {
                thumb.geo.size.h
            };
            &&& thumb.geo.size.w % 240 == 0
            &&& thumb.geo.size.h % 240 == 0
            &&& left % 240 == 0
            &&& longer == 240 * size
            &&& 240 * gaps <= left
            &&& left + thumb.geo.size.w <= 240 * (output.w - gaps)
            &&& 240 * gaps <= top
            &&& top + thumb.geo.size.h <= 240 * (output.h - gaps)
        }),
{
    lemma_placed(windows, config, output, scale, i);
    law_thumbnails_stay_on_the_output(windows, config, output, scale, i);
    law_thumbnails_keep_size_and_aspect_ratio(windows, config, output, scale, i);
    law_strip_is_maximal(windows, config, output, scale);
    let shown = showable(windows);
    let size = config.size.pixels(scale);
    let thumb = thumbnail_pixels(shown[i].1, size);
}

/// Windows are shown in their order, from left to right, for as long as they fit across the output
/// with a gap on either side.
pub proof fn law_strip_shows_windows_in_order(
    windows: Seq<(MappedId, Size<i32>)>,
    config: MinimizedWindows,
    output: Size<i32>,
    scale: FractionalScale,
    i: int,
    j: int,
)
    requires
        config.wf(),
        0 <= i < j < strip_layout(windows, config, output, scale).len(),
    ensures
        ({
            let placed = strip_layout(windows, config, output, scale);
            &&& placed[i].geo.loc.x + placed[i].geo.size.w + 240 * config.gaps.pixels(scale)
                <= placed[j].geo.loc.x
            &&& exists|k: int, l: int|
                0 <= k < l < windows.len() && windows[k].0 == placed[i].id && windows[l].0
                    == placed[j].id && #[trigger] windows[k].1 == placed[i].window_size
                    && #[trigger] windows[l].1 == placed[j].window_size
        }),
    decreases j - i,
{
    let placed = strip_layout(windows, config, output, scale);
    law_strip_is_maximal(windows, config, output, scale);
    lemma_pixels_nonnegative(config, scale);
    if i + 1 < j {
        law_strip_shows_windows_in_order(windows, config, output, scale, i, j - 1);
        lemma_placed(windows, config, output, scale, j - 1);
    }
    law_thumbnails_are_one_gap_apart(windows, config, output, scale, j - 1);
    let (k, l) = lemma_showable_order(windows, i, j);
    assert(windows[k].1 == placed[i].window_size);
    assert(windows[l].1 == placed[j].window_size);
}

proof fn lemma_showable_order(windows: Seq<(MappedId, Size<i32>)>, i: int, j: int) -> (at: (
    int,
    int,
))
    requires
        0 <= i < j < showable(windows).len(),
    ensures
        0 <= at.0 < at.1 < windows.len(),
        windows[at.0] == showable(windows)[i],
        windows[at.1] == showable(windows)[j],
    decreases windows.len(),
{
    let rest = showable(windows.drop_last());
    if j < rest.len() {
        lemma_showable_order(windows.drop_last(), i, j)
    } else {
        (lemma_showable_member(windows.drop_last(), i), windows.len() - 1)
    }
}

/// The strip sits in the configured corner, one gap from both of its edges.
pub proof fn law_strip_sits_in_the_configured_corner(
    windows: Seq<(MappedId, Size<i32>)>,
    config: MinimizedWindows,
    output: Size<i32>,
    scale: FractionalScale,
    i: int,
)
    requires
        config.wf(),
        0 <= i < strip_layout(windows, config, output, scale).len(),
    ensures
        ({
            let placed = strip_layout(windows, config, output, scale);
            let gap = 240 * config.gaps.pixels(scale);
            let geo = placed[i].geo;
            let slack = 240 * config.size.pixels(scale) - geo.size.h;
            let left = placed.first().geo.loc.x == gap;
            let right = placed.last().geo.loc.x + placed.last().geo.size.w == 240 * output.w - gap;
            let top = 2 * (geo.loc.y - gap) == slack;
            let bottom = 2 * ((240 * output.h - gap) - (geo.loc.y + geo.size.h)) == slack;
            match config.position {
                MinimizedPosition::TopLeft => top && left,
                MinimizedPosition::TopRight => top && right,
                MinimizedPosition::BottomLeft => bottom && left,
                MinimizedPosition::BottomRight => bottom && right,
            }
        }),
{
    let placed = strip_layout(windows, config, output, scale);
    law_strip_starts_in_its_corner(windows, config, output, scale);
    law_thumbnails_are_centered_in_the_row(windows, config, output, scale, i);
    lemma_placed(windows, config, output, scale, i);
}

/// A window that is left out of the strip really has no room: on an output that is tall enough for
/// the row, the strip with its thumbnail and a gap on either side would be wider than the output.
pub proof fn law_left_out_windows_have_no_room(
    windows: Seq<(MappedId, Size<i32>)>,
    config: MinimizedWindows,
    output: Size<i32>,
    scale: FractionalScale,
)
    requires
        config.wf(),
        strip_layout(windows, config, output, scale).len() < showable(windows).len(),
        config.size.pixels(scale) + 2 * config.gaps.pixels(scale) <= output.h,
    ensures
        ({
            let placed = strip_layout(windows, config, output, scale);
            let gaps = config.gaps.pixels(scale);
            let next = thumbnail_pixels(
                showable(windows)[placed.len() as int].1,
                config.size.pixels(scale),
            ).w;
            if placed.len() == 0 {
                next + 2 * gaps > output.w
            } else {
                (placed.last().geo.loc.x + placed.last().geo.size.w - placed.first().geo.loc.x)
                    + 240 * (gaps + next + 2 * gaps) > 240 * output.w
            }
        }),
{
    let placed = strip_layout(windows, config, output, scale);
    let shown = showable(windows);
    let size = config.size.pixels(scale);
    let gaps = config.gaps.pixels(scale);
    let count = placed.len() as int;
    law_strip_is_maximal(windows, config, output, scale);
    assert(!strip_fits(shown, size, gaps, output.w as int, count + 1));
    assert(thumbnail_offset(shown, size, gaps, 0) == 0);
    if count > 0 {
        lemma_placed(windows, config, output, scale, 0);
        lemma_placed(windows, config, output, scale, count - 1);
    }
}

/// The thumbnail of a window is the largest that fits the square of the configured size without
/// distorting the window: its longer side is that of the square, and the other one is within half a
/// pixel of the aspect ratio of the window.
pub proof fn law_thumbnails_fit_the_square(window: Size<i32>, size: int)
    requires
        window.w > 0,
        window.h > 0,
        size >= 0,
    ensures
        ({
            let thumb = thumbnail_pixels(window, size);
            &&& 0 <= thumb.w <= size
            &&& 0 <= thumb.h <= size
            &&& window.w >= window.h ==> thumb.w == size
            &&& window.h >= window.w ==> thumb.h == size
            &&& window.w >= window.h ==> -window.w <= 2 * (thumb.h * window.w - size * window.h)
                <= window.w
            &&& window.h >= window.w ==> -window.h <= 2 * (thumb.w * window.h - size * window.w)
                <= window.h
        }),
{
    lemma_thumbnail_in_box(window, size);
    let thumb = thumbnail_pixels(window, size);
    let longer = longer_side(window);
    assert(0 <= size * window.h && 0 <= size * window.w) by (nonlinear_arith)
        requires
            window.w > 0,
            window.h > 0,
            size >= 0,
    ;
    rounded_is_nearest(size * window.h, longer);
    rounded_is_nearest(size * window.w, longer);
    assert(2 * longer * thumb.h == 2 * (thumb.h * longer)) by (nonlinear_arith);
    assert(2 * longer * thumb.w == 2 * (thumb.w * longer)) by (nonlinear_arith);
}

/// What is drawn, what is hit by the pointer and what is laid out come from the same strip, which is
/// empty while it is off.
pub proof fn law_drawing_and_hit_testing_use_the_same_strip(
    windows: &Vec<(MappedId, Size<i32>)>,
    config: &MinimizedWindows,
    output: Size<i32>,
    scale: FractionalScale,
    pos: Point<i64>,
    placed: Vec<ThumbnailGeo>,
    elements: Vec<MinimizedStripRenderElement>,
    under: Option<MappedId>,
    laid_out: Vec<ThumbnailGeo>,
)
    requires
        config.wf(),
        call_ensures(layout_thumbnails, (windows, config, output, scale), laid_out),
        call_ensures(thumbnail_geometry, (windows, config, output, scale), placed),
        call_ensures(render_output, (windows, config, output, scale), elements),
        call_ensures(window_under, (windows, config, output, scale, pos), under),
    ensures
        config.off ==> placed@.len() == 0,
        !config.off ==> placed@ == laid_out@,
        placed@ == strip(windows@, *config, output, scale),
        laid_out@ == strip_layout(windows@, *config, output, scale),
        elements@.len() == 2 * placed@.len(),
        elements@ == strip_elements(windows@, *config, output, scale),
        forall|i: int| #![trigger placed@[i]]
            0 <= i < placed@.len() && placed@[i].geo.loc.x <= pos.x < placed@[i].geo.loc.x
                + placed@[i].geo.size.w && placed@[i].geo.loc.y <= pos.y < placed@[i].geo.loc.y
                + placed@[i].geo.size.h ==> under == Some(placed@[i].id),
        under is Some ==> exists|i: int| #![trigger placed@[i]]
            0 <= i < placed@.len() && under == Some(placed@[i].id),
{
    law_hit_test_agrees_with_geometry(windows@, *config, output, scale, pos);
}

} // verus!
