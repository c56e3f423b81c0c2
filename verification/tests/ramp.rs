use faded_rect::ramp::{fade_toward_end, fade_toward_start, shade};
use faded_rect::{FadedRectangle, Fading, Pixel, Point, Rectangle, Rgb888, Size};

fn band_of(faded: FadedRectangle) -> Vec<Pixel> {
    assert!(faded.has_band_in_range());
    let mut pixels = faded.into_iter();
    let mut band = Vec::new();
    while let Some(pixel) = pixels.next() {
        band.push(pixel);
    }
    assert_eq!(pixels.next(), None);
    band
}

fn at(x: i32, y: i32, r: u8, g: u8, b: u8) -> Pixel {
    Pixel(Point::new(x, y), Rgb888::new(r, g, b))
}

#[test]
fn left_fade_over_five_columns() {
    let faded = FadedRectangle::new(
        Rectangle::new(Point::new(0, 0), Size::new(5, 1)),
        Rgb888::new(100, 0, 0),
        Fading::Left { steps: 5 },
    );
    assert_eq!(
        band_of(faded),
        vec![
            at(0, 0, 0, 0, 0),
            at(1, 0, 20, 0, 0),
            at(2, 0, 40, 0, 0),
            at(3, 0, 60, 0, 0),
            at(4, 0, 80, 0, 0),
        ]
    );
    let factors: Vec<u16> = (0..5).map(|col| faded.fade_factor(col, 0)).collect();
    assert_eq!(factors, vec![256, 204, 153, 102, 51]);
}

#[test]
fn right_fade_over_five_columns() {
    let faded = FadedRectangle::new(
        Rectangle::new(Point::new(0, 0), Size::new(5, 1)),
        Rgb888::new(0, 100, 0),
        Fading::Right { steps: 5 },
    );
    assert_eq!(
        band_of(faded),
        vec![
            at(0, 0, 0, 80, 0),
            at(1, 0, 0, 60, 0),
            at(2, 0, 0, 40, 0),
            at(3, 0, 0, 20, 0),
            at(4, 0, 0, 0, 0),
        ]
    );
}

#[test]
fn top_fade_over_four_rows() {
    let faded = FadedRectangle::new(
        Rectangle::new(Point::new(0, 0), Size::new(1, 4)),
        Rgb888::new(0, 0, 200),
        Fading::Top { steps: 4 },
    );
    assert_eq!(
        band_of(faded),
        vec![
            at(0, 0, 0, 0, 0),
            at(0, 1, 0, 0, 50),
            at(0, 2, 0, 0, 100),
            at(0, 3, 0, 0, 150),
        ]
    );
}

#[test]
fn bottom_fade_over_four_rows() {
    let faded = FadedRectangle::new(
        Rectangle::new(Point::new(0, 0), Size::new(1, 4)),
        Rgb888::new(0, 0, 200),
        Fading::Bottom { steps: 4 },
    );
    assert_eq!(
        band_of(faded),
        vec![
            at(0, 0, 0, 0, 150),
            at(0, 1, 0, 0, 100),
            at(0, 2, 0, 0, 50),
            at(0, 3, 0, 0, 0),
        ]
    );
}

#[test]
fn steps_beyond_the_width_cover_the_rectangle() {
    let faded = FadedRectangle::new(
        Rectangle::new(Point::new(0, 0), Size::new(3, 1)),
        Rgb888::new(255, 255, 255),
        Fading::Left { steps: 10 },
    );
    assert_eq!(
        band_of(faded),
        vec![at(0, 0, 0, 0, 0), at(1, 0, 25, 25, 25), at(2, 0, 51, 51, 51)]
    );
    assert_eq!(faded.band_bounds(), (0, 3, 0, 1));
}

#[test]
fn right_steps_beyond_the_width_never_reach_black() {
    let faded = FadedRectangle::new(
        Rectangle::new(Point::new(0, 0), Size::new(3, 1)),
        Rgb888::new(255, 255, 255),
        Fading::Right { steps: 10 },
    );
    // factors 25, 51 and 76
    assert_eq!(
        band_of(faded),
        vec![at(0, 0, 230, 230, 230), at(1, 0, 204, 204, 204), at(2, 0, 179, 179, 179)]
    );
    assert_eq!(faded.fade_factor(2, 0), 76);
}

#[test]
fn band_is_walked_row_by_row() {
    let faded = FadedRectangle::new(
        Rectangle::new(Point::new(-2, 7), Size::new(6, 3)),
        Rgb888::new(64, 128, 255),
        Fading::Left { steps: 2 },
    );
    assert_eq!(
        band_of(faded),
        vec![
            at(-2, 7, 0, 0, 0),
            at(-1, 7, 32, 64, 127),
            at(-2, 8, 0, 0, 0),
            at(-1, 8, 32, 64, 127),
            at(-2, 9, 0, 0, 0),
            at(-1, 9, 32, 64, 127),
        ]
    );
}

#[test]
fn right_band_sits_at_the_far_edge() {
    let faded = FadedRectangle::new(
        Rectangle::new(Point::new(10, 10), Size::new(100, 2)),
        Rgb888::new(255, 255, 0),
        Fading::Right { steps: 2 },
    );
    assert_eq!(faded.band_bounds(), (98, 100, 0, 2));
    assert_eq!(
        band_of(faded),
        vec![
            at(108, 10, 127, 127, 0),
            at(109, 10, 0, 0, 0),
            at(108, 11, 127, 127, 0),
            at(109, 11, 0, 0, 0),
        ]
    );
}

#[test]
fn bottom_band_sits_at_the_far_edge() {
    let faded = FadedRectangle::new(
        Rectangle::new(Point::new(0, 0), Size::new(2, 5)),
        Rgb888::new(255, 0, 0),
        Fading::Bottom { steps: 4 },
    );
    assert_eq!(faded.band_bounds(), (0, 2, 1, 5));
    assert_eq!(
        band_of(faded),
        vec![
            at(0, 1, 191, 0, 0),
            at(1, 1, 191, 0, 0),
            at(0, 2, 127, 0, 0),
            at(1, 2, 127, 0, 0),
            at(0, 3, 63, 0, 0),
            at(1, 3, 63, 0, 0),
            at(0, 4, 0, 0, 0),
            at(1, 4, 0, 0, 0),
        ]
    );
}

#[test]
fn zero_steps_fade_nothing() {
    for fading in [
        Fading::Left { steps: 0 },
        Fading::Right { steps: 0 },
        Fading::Top { steps: 0 },
        Fading::Bottom { steps: 0 },
    ] {
        let faded = FadedRectangle::new(
            Rectangle::new(Point::new(3, 4), Size::new(5, 6)),
            Rgb888::new(9, 8, 7),
            fading,
        );
        assert!(band_of(faded).is_empty());
        assert_eq!(faded.fade_factor(0, 0), 0);
        assert_eq!(faded.fade_factor(4, 5), 0);
        assert_eq!(faded.color_at(Point::new(3, 4)), Rgb888::new(9, 8, 7));
    }
}

#[test]
fn empty_rectangles_have_no_band() {
    for size in [Size::new(0, 4), Size::new(4, 0), Size::new(0, 0)] {
        for fading in [
            Fading::Left { steps: 3 },
            Fading::Right { steps: 3 },
            Fading::Top { steps: 3 },
            Fading::Bottom { steps: 3 },
        ] {
            let faded = FadedRectangle::new(
                Rectangle::new(Point::new(1, 1), size),
                Rgb888::new(1, 2, 3),
                fading,
            );
            assert!(band_of(faded).is_empty());
        }
    }
}

#[test]
fn interior_has_the_base_color() {
    let base = Rgb888::new(12, 200, 77);
    let faded = FadedRectangle::new(
        Rectangle::new(Point::new(5, 5), Size::new(20, 10)),
        base,
        Fading::Left { steps: 4 },
    );
    for y in 5..15 {
        for x in 9..25 {
            assert_eq!(faded.color_at(Point::new(x, y)), base);
        }
    }
    assert_ne!(faded.color_at(Point::new(8, 5)), base);
}

#[test]
fn darkest_edge_is_black() {
    let rect = Rectangle::new(Point::new(-3, 2), Size::new(9, 7));
    let base = Rgb888::new(255, 130, 1);
    let black = Rgb888::new(0, 0, 0);
    let left = FadedRectangle::new(rect, base, Fading::Left { steps: 3 });
    let top = FadedRectangle::new(rect, base, Fading::Top { steps: 7 });
    let right = FadedRectangle::new(rect, base, Fading::Right { steps: 9 });
    let bottom = FadedRectangle::new(rect, base, Fading::Bottom { steps: 1 });
    for row in 0..7 {
        assert_eq!(left.color_at_offset(0, row), black);
        assert_eq!(right.color_at_offset(8, row), black);
    }
    for col in 0..9 {
        assert_eq!(top.color_at_offset(col, 0), black);
        assert_eq!(bottom.color_at_offset(col, 6), black);
    }
}

#[test]
fn color_at_takes_grid_positions() {
    let faded = FadedRectangle::new(
        Rectangle::new(Point::new(-10, -20), Size::new(4, 4)),
        Rgb888::new(200, 100, 50),
        Fading::Top { steps: 2 },
    );
    assert_eq!(faded.color_at(Point::new(-10, -20)), Rgb888::new(0, 0, 0));
    assert_eq!(faded.color_at(Point::new(-7, -19)), Rgb888::new(100, 50, 25));
    assert_eq!(faded.color_at(Point::new(-7, -18)), Rgb888::new(200, 100, 50));
}

#[test]
fn fade_factors_of_a_leading_band() {
    assert_eq!(fade_toward_start(5, 0), 256);
    assert_eq!(fade_toward_start(5, 4), 51);
    assert_eq!(fade_toward_start(5, 5), 0);
    assert_eq!(fade_toward_start(255, 254), 1);
    assert_eq!(fade_toward_start(0, 0), 0);
    assert_eq!(fade_toward_start(3, u32::MAX), 0);
}

#[test]
fn fade_factors_of_a_trailing_band() {
    assert_eq!(fade_toward_end(5, 5, 0), 51);
    assert_eq!(fade_toward_end(5, 5, 4), 256);
    assert_eq!(fade_toward_end(5, 8, 2), 0);
    assert_eq!(fade_toward_end(5, 8, 3), 51);
    assert_eq!(fade_toward_end(10, 3, 0), 25);
    assert_eq!(fade_toward_end(0, 3, 2), 0);
    assert_eq!(fade_toward_end(255, u32::MAX, u32::MAX - 1), 256);
}

#[test]
fn shading_truncates() {
    assert_eq!(shade(255, 0), 255);
    assert_eq!(shade(255, 256), 0);
    assert_eq!(shade(255, 230), 25);
    assert_eq!(shade(255, 204), 51);
    assert_eq!(shade(100, 51), 80);
    assert_eq!(shade(1, 1), 0);
}

#[test]
fn band_at_the_end_of_the_grid() {
    let faded = FadedRectangle::new(
        Rectangle::new(Point::new(i32::MAX - 1, i32::MAX), Size::new(2, 1)),
        Rgb888::new(10, 10, 10),
        Fading::Right { steps: 1 },
    );
    assert!(faded.has_band_in_range());
    assert_eq!(band_of(faded), vec![at(i32::MAX, i32::MAX, 0, 0, 0)]);
}

#[test]
fn band_beyond_the_grid_is_out_of_range() {
    let beyond = FadedRectangle::new(
        Rectangle::new(Point::new(i32::MAX, 0), Size::new(2, 1)),
        Rgb888::new(10, 10, 10),
        Fading::Right { steps: 1 },
    );
    assert!(!beyond.has_band_in_range());
    // The same rectangle fading on the left keeps its band on the grid.
    let near = FadedRectangle::new(beyond.rect, beyond.base_color, Fading::Left { steps: 1 });
    assert!(near.has_band_in_range());
    // Without a band there is nothing to be out of range.
    let none = FadedRectangle::new(beyond.rect, beyond.base_color, Fading::Right { steps: 0 });
    assert!(none.has_band_in_range());
}

#[test]
fn defaults() {
    assert_eq!(Fading::default(), Fading::Left { steps: 5 });
    let faded = FadedRectangle::default();
    assert_eq!(faded.rect, Rectangle::new(Point::new(0, 0), Size::new(0, 0)));
    assert_eq!(faded.base_color, Rgb888::new(0, 0, 0));
    assert_eq!(faded.fading, Fading::Left { steps: 5 });
    assert_eq!(Fading::Top { steps: 9 }.steps(), 9);
    assert_eq!(Rgb888::black(), Rgb888::new(0, 0, 0));
    assert_eq!(Rgb888::new(1, 2, 3).r(), 1);
    assert_eq!(Rgb888::new(1, 2, 3).g(), 2);
    assert_eq!(Rgb888::new(1, 2, 3).b(), 3);
}

#[test]
fn rectangle_contains_its_grid_positions() {
    let rect = Rectangle::new(Point::new(-2, 3), Size::new(4, 2));
    assert!(rect.contains(Point::new(-2, 3)));
    assert!(rect.contains(Point::new(1, 4)));
    assert!(!rect.contains(Point::new(2, 4)));
    assert!(!rect.contains(Point::new(1, 5)));
    assert!(!rect.contains(Point::new(-3, 3)));
    assert!(!Rectangle::new(Point::new(0, 0), Size::new(0, 5)).contains(Point::new(0, 0)));
    let wide = Rectangle::new(Point::new(i32::MIN, i32::MIN), Size::new(u32::MAX, u32::MAX));
    assert!(wide.contains(Point::new(i32::MAX - 1, 0)));
    assert!(!wide.contains(Point::new(i32::MAX, 0)));
}

#[test]
fn small_rectangles_follow_the_formulas() {
    let base = Rgb888::new(255, 100, 7);
    for width in 0u32..6 {
        for height in 0u32..6 {
            for steps in 0u8..8 {
                for side in 0..4 {
                    let fading = match side {
                        0 => Fading::Left { steps },
                        1 => Fading::Right { steps },
                        2 => Fading::Top { steps },
                        _ => Fading::Bottom { steps },
                    };
                    let faded = FadedRectangle::new(
                        Rectangle::new(Point::new(-3, 4), Size::new(width, height)),
                        base,
                        fading,
                    );
                    let s = steps as u32;
                    let mut expected = Vec::new();
                    for row in 0..height {
                        for col in 0..width {
                            let factor = match side {
                                0 if col < s => (s - col) * 256 / s,
                                1 if col >= width.saturating_sub(s) && s > 0 => {
                                    (col - width.saturating_sub(s) + 1) * 256 / s
                                }
                                2 if row < s => (s - row) * 256 / s,
                                3 if row >= height.saturating_sub(s) && s > 0 => {
                                    (row - height.saturating_sub(s) + 1) * 256 / s
                                }
                                _ => 0,
                            };
                            let color = Rgb888::new(
                                (255 * (256 - factor) / 256) as u8,
                                (100 * (256 - factor) / 256) as u8,
                                (7 * (256 - factor) / 256) as u8,
                            );
                            assert_eq!(faded.fade_factor(col, row) as u32, factor);
                            assert_eq!(faded.color_at_offset(col, row), color);
                            if factor > 0 {
                                expected.push(Pixel(
                                    Point::new(-3 + col as i32, 4 + row as i32),
                                    color,
                                ));
                            }
                        }
                    }
                    assert_eq!(band_of(faded), expected);
                }
            }
        }
    }
}
