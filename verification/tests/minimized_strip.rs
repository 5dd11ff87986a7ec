use niri::ui::minimized_strip::{
    layout_thumbnails, render_output, thumbnail_geometry, window_under, MappedId,
    MinimizedPosition, MinimizedStripRenderElement, MinimizedWindows, ThumbnailGeo,
};
use niri::utils::geometry::{FractionalScale, LogicalLength, Point, Rectangle, Size};
use niri::utils::ratio::{round_div_signed, Ratio};

const ONE: FractionalScale = FractionalScale { n120: 120 };

fn config(position: MinimizedPosition) -> MinimizedWindows {
    MinimizedWindows {
        off: false,
        position,
        size: LogicalLength::whole(100),
        gaps: LogicalLength::whole(10),
    }
}

fn windows(sizes: &[(i32, i32)]) -> Vec<(MappedId, Size<i32>)> {
    sizes
        .iter()
        .enumerate()
        .map(|(i, &(w, h))| (MappedId(i as u64 + 1), Size::new(w, h)))
        .collect()
}

fn output() -> Size<i32> {
    Size::new(1000, 500)
}

/// Strip units in logical pixels, at a scale of one.
fn px(units: i64) -> f64 {
    units as f64 / 240.
}

fn layout(
    wins: &Vec<(MappedId, Size<i32>)>,
    position: MinimizedPosition,
) -> Vec<ThumbnailGeo> {
    layout_thumbnails(wins, &config(position), output(), ONE)
}

#[test]
fn thumbnails_preserve_aspect_ratio() {
    // A 200x100 window is twice as wide as tall, so it fits the 100 box by width.
    let wins = windows(&[(200, 100)]);
    let placed = layout(&wins, MinimizedPosition::BottomLeft);

    assert_eq!(placed.len(), 1);
    assert_eq!(px(placed[0].geo.size.w), 100.);
    assert_eq!(px(placed[0].geo.size.h), 50.);
}

#[test]
fn bottom_left_starts_at_the_left_edge() {
    let wins = windows(&[(100, 100), (100, 100)]);
    let placed = layout(&wins, MinimizedPosition::BottomLeft);

    assert_eq!(px(placed[0].geo.loc.x), 10.);
    assert_eq!(px(placed[1].geo.loc.x), 120.); // 10 + 100 + 10 gap
    // Row sits one gap above the bottom edge.
    assert_eq!(px(placed[0].geo.loc.y), 500. - 10. - 100.);
}

#[test]
fn bottom_right_grows_leftwards_and_ends_at_the_right_edge() {
    let wins = windows(&[(100, 100), (100, 100)]);
    let placed = layout(&wins, MinimizedPosition::BottomRight);

    // Total width is 100 + 10 + 100 = 210, so the strip starts at 1000 - 10 - 210.
    assert_eq!(px(placed[0].geo.loc.x), 780.);
    assert_eq!(px(placed[1].geo.loc.x), 890.);
    // Last thumbnail's right edge is one gap from the output's right edge.
    assert_eq!(px(placed[1].geo.loc.x + placed[1].geo.size.w), 990.);
}

#[test]
fn top_positions_sit_at_the_top() {
    let wins = windows(&[(100, 100)]);
    let placed = layout(&wins, MinimizedPosition::TopLeft);

    assert_eq!(px(placed[0].geo.loc.y), 10.);
}

#[test]
fn overflow_is_dropped_rather_than_squeezed() {
    // Each is 100 wide with 10 gaps, plus 10 margin each side: 9 fit, the 10th does not.
    let wins = windows(&[(100, 100); 20]);
    let placed = layout(&wins, MinimizedPosition::BottomLeft);

    assert!(
        placed.len() < 20,
        "some thumbnails should have been dropped"
    );
    let last = placed.last().unwrap();
    assert!(
        px(last.geo.loc.x + last.geo.size.w) <= 1000.,
        "shown thumbnails must stay on the output"
    );
    // Whatever is shown keeps full size.
    assert!(placed.iter().all(|t| px(t.geo.size.w) == 100.));
}

#[test]
fn degenerate_window_sizes_are_skipped() {
    let wins = windows(&[(0, 0), (100, 100)]);
    let placed = layout(&wins, MinimizedPosition::BottomLeft);

    assert_eq!(placed.len(), 1);
    assert_eq!(placed[0].id, wins[1].0);
}

#[test]
fn shorter_thumbnails_are_centered_in_the_row() {
    // 200x100 becomes 100x50, so it gets 25 of slack above and below inside the 100 row.
    let wins = windows(&[(200, 100)]);
    let placed = layout(&wins, MinimizedPosition::BottomLeft);

    assert_eq!(px(placed[0].geo.loc.y), 500. - 10. - 100. + 25.);
}

#[test]
fn as_many_thumbnails_as_fit() {
    // 9 * 100 + 8 * 10 + 2 * 10 is exactly the width of the output.
    let wins = windows(&[(100, 100); 20]);
    assert_eq!(layout(&wins, MinimizedPosition::TopRight).len(), 9);

    let narrow = layout_thumbnails(
        &wins,
        &config(MinimizedPosition::TopRight),
        Size::new(999, 500),
        ONE,
    );
    assert_eq!(narrow.len(), 8);
    assert_eq!(px(narrow[7].geo.loc.x + narrow[7].geo.size.w), 989.);
}

#[test]
fn layout_stops_at_the_first_that_does_not_fit() {
    // The second is too wide for what is left, although the third would fit.
    let wins = windows(&[(100, 100), (100, 100), (10, 100)]);
    let placed = layout_thumbnails(
        &wins,
        &config(MinimizedPosition::BottomLeft),
        Size::new(200, 500),
        ONE,
    );
    assert_eq!(placed.len(), 1);
    assert_eq!(placed[0].id, MappedId(1));
}

#[test]
fn thumbnails_align_to_physical_pixels() {
    // At a scale of 1.5, 100 and 10 logical pixels are 150 and 15 physical ones, and a 300x199
    // window becomes 150x100 (99.5 rounds up).
    let wins = windows(&[(300, 199)]);
    let placed = layout_thumbnails(
        &wins,
        &config(MinimizedPosition::TopLeft),
        Size::new(1500, 750),
        FractionalScale { n120: 180 },
    );
    assert_eq!(placed[0].geo.loc.x, 15 * 240);
    assert_eq!(placed[0].geo.size, Size::new(150 * 240, 100 * 240));
    assert_eq!(placed[0].geo.loc.y, 15 * 240 + 25 * 240);

    // One pixel of slack is split into two halves.
    let wins = windows(&[(100, 99)]);
    let placed = layout(&wins, MinimizedPosition::TopLeft);
    assert_eq!(placed[0].geo.loc.y, 10 * 240 + 120);
}

#[test]
fn strip_can_be_off_or_empty() {
    let wins = windows(&[(100, 100)]);
    let mut off = config(MinimizedPosition::BottomLeft);
    off.off = true;
    assert!(thumbnail_geometry(&wins, &off, output(), ONE).is_empty());
    assert!(render_output(&wins, &off, output(), ONE).is_empty());
    assert_eq!(
        window_under(&wins, &off, output(), ONE, Point::new(20 * 240, 400 * 240)),
        None
    );

    let on = config(MinimizedPosition::BottomLeft);
    assert_eq!(thumbnail_geometry(&wins, &on, output(), ONE).len(), 1);
    assert!(thumbnail_geometry(&windows(&[]), &on, output(), ONE).is_empty());
    assert!(thumbnail_geometry(&wins, &on, Size::new(119, 500), ONE).is_empty());
    assert_eq!(
        thumbnail_geometry(&wins, &on, Size::new(120, 500), ONE).len(),
        1
    );
}

#[test]
fn hit_test_finds_the_thumbnail_under_the_point() {
    let wins = windows(&[(100, 100), (200, 100)]);
    let config = config(MinimizedPosition::TopLeft);
    let under = |x: i64, y: i64| window_under(&wins, &config, output(), ONE, Point::new(x, y));

    assert_eq!(under(10 * 240, 10 * 240), Some(MappedId(1)));
    assert_eq!(under(110 * 240 - 1, 110 * 240 - 1), Some(MappedId(1)));
    // The gap.
    assert_eq!(under(110 * 240, 50 * 240), None);
    // The second thumbnail is only 50 tall, centered.
    assert_eq!(under(120 * 240, 34 * 240), None);
    assert_eq!(under(120 * 240, 35 * 240), Some(MappedId(2)));
    assert_eq!(under(220 * 240, 35 * 240), None);
    assert_eq!(under(0, 0), None);
}

#[test]
fn strip_is_drawn_in_front_of_its_backdrops() {
    let wins = windows(&[(0, 0), (200, 100), (100, 100)]);
    let elements = render_output(&wins, &config(MinimizedPosition::TopLeft), output(), ONE);
    assert_eq!(elements.len(), 4);
    assert_eq!(
        elements[0],
        MinimizedStripRenderElement::Thumbnail {
            window: 1,
            scale_x: Ratio::new(100 * 240, 2 * 120 * 200),
            scale_y: Ratio::new(50 * 240, 2 * 120 * 100),
            loc: Point::new(10, 35),
        }
    );
    assert!(matches!(
        elements[1],
        MinimizedStripRenderElement::Thumbnail { window: 2, .. }
    ));
    assert_eq!(
        elements[2],
        MinimizedStripRenderElement::Backdrop {
            buffer: 0,
            geo: Rectangle::new(
                Point::new(6 * 240, 31 * 240),
                Size::new(108 * 240, 58 * 240)
            ),
            color: (
                Ratio::zero(),
                Ratio::zero(),
                Ratio::zero(),
                Ratio::new(2, 5)
            ),
        }
    );
    assert!(matches!(
        elements[3],
        MinimizedStripRenderElement::Backdrop { buffer: 1, .. }
    ));
}

#[test]
fn thumbnail_locations_round_to_pixels() {
    // Half a pixel of slack rounds up.
    let wins = windows(&[(100, 99)]);
    let elements = render_output(&wins, &config(MinimizedPosition::TopLeft), output(), ONE);
    assert!(matches!(
        elements[0],
        MinimizedStripRenderElement::Thumbnail { loc: Point { x: 10, y: 11 }, .. }
    ));
}

#[test]
fn halves_round_away_from_zero() {
    assert_eq!(round_div_signed(2520, 240), 11);
    assert_eq!(round_div_signed(-2280, 240), -10);
    assert_eq!(round_div_signed(-2279, 240), -9);
}

#[test]
fn short_outputs_show_no_strip() {
    let wins = windows(&[(100, 100)]);
    for position in [
        MinimizedPosition::TopLeft,
        MinimizedPosition::TopRight,
        MinimizedPosition::BottomLeft,
        MinimizedPosition::BottomRight,
    ] {
        let config = config(position);
        for h in [-5, 0, 50, 100, 119] {
            let short = Size::new(1000, h);
            assert!(layout_thumbnails(&wins, &config, short, ONE).is_empty());
            assert!(render_output(&wins, &config, short, ONE).is_empty());
            let pos = Point::new(20 * 240, 20 * 240);
            assert_eq!(window_under(&wins, &config, short, ONE, pos), None);
        }
        let placed = layout_thumbnails(&wins, &config, Size::new(1000, 120), ONE);
        assert_eq!(placed.len(), 1);
        assert_eq!(px(placed[0].geo.loc.y), 10.);
        assert_eq!(px(placed[0].geo.loc.y + placed[0].geo.size.h), 110.);
    }

    // A row that is shorter than its box because of the shape of the window needs room too.
    let flat = windows(&[(200, 100)]);
    let config = config(MinimizedPosition::TopLeft);
    assert!(layout_thumbnails(&flat, &config, Size::new(1000, 119), ONE).is_empty());
}

#[test]
fn strips_too_large_for_any_output_are_not_shown() {
    let wins = windows(&[(100, 100)]);
    let mut large = config(MinimizedPosition::BottomLeft);
    large.size = LogicalLength::whole(u32::MAX);
    let scale = FractionalScale { n120: u32::MAX };
    let output = Size::new(i32::MAX, i32::MAX);
    assert!(thumbnail_geometry(&wins, &large, output, scale).is_empty());
    large = config(MinimizedPosition::BottomLeft);
    large.gaps = LogicalLength::whole(u32::MAX);
    assert!(thumbnail_geometry(&wins, &large, output, scale).is_empty());
}
